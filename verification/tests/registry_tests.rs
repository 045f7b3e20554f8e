use container_core::StreamRegistry;

#[test]
fn registry_start_stop_remove_lifecycle() {
    let mut reg = StreamRegistry::new();
    let id = String::from("logs_web");
    assert!(!reg.is_live(&id));
    reg.start(id.clone());
    assert!(reg.is_live(&id));
    reg.stop(&id);
    assert!(!reg.is_live(&id));
    reg.remove(&id);
    assert!(!reg.is_live(&id));
}

#[test]
fn registry_stop_unknown_is_silent_noop() {
    let mut reg = StreamRegistry::new();
    let known = String::from("logs_web");
    reg.start(known.clone());
    // Stopping an id that was never started must not fail and must leave
    // every other stream exactly as it was.
    reg.stop(&String::from("logs_never_started"));
    assert!(reg.is_live(&known));
}

#[test]
fn registry_stop_finished_is_silent_noop() {
    let mut reg = StreamRegistry::new();
    let id = String::from("logs_db");
    let other = String::from("logs_web");
    reg.start(id.clone());
    reg.start(other.clone());
    reg.remove(&id);
    // The session already finished and erased itself; a late stop request
    // is not an error and does not touch the other stream.
    reg.stop(&id);
    assert!(!reg.is_live(&id));
    assert!(reg.is_live(&other));
}

#[test]
fn registry_restart_adopts_entry() {
    let mut reg = StreamRegistry::new();
    let id = String::from("logs_web");
    reg.start(id.clone());
    reg.stop(&id);
    assert!(!reg.is_live(&id));
    reg.start(id.clone());
    assert!(reg.is_live(&id));
}

#[test]
fn registry_remove_is_idempotent_and_local() {
    let mut reg = StreamRegistry::new();
    let a = String::from("logs_a");
    let b = String::from("logs_b");
    reg.start(a.clone());
    reg.start(b.clone());
    reg.remove(&a);
    reg.remove(&a);
    assert!(!reg.is_live(&a));
    assert!(reg.is_live(&b));
}
