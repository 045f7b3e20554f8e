use container_core::tail::event_key_for;
use container_core::tail::logs_args;
use container_core::tail::run_session;
use container_core::tail::stream_id_for;
use container_core::tail::tail_step;
use container_core::tail::TailDecision;
use container_core::tail::TailEvent;

#[test]
fn stream_id_is_derived_from_container_name() {
    assert_eq!(stream_id_for("web"), "logs_web");
    assert_eq!(event_key_for("web"), "container-log-web");
}

#[test]
fn begin_session_registers_and_returns_id() {
    let mut reg = container_core::StreamRegistry::new();
    let id = container_core::tail::begin_session(&mut reg, "web");
    assert_eq!(id, "logs_web");
    assert!(reg.is_live(&id));
    // A second start under the same name adopts the entry rather than failing.
    let id_again = container_core::tail::begin_session(&mut reg, "web");
    assert_eq!(id_again, id);
    assert!(reg.is_live(&id));
}

#[test]
fn logs_args_with_and_without_follow() {
    let follow = logs_args("web", true);
    assert_eq!(follow, vec!["logs", "--follow", "web"]);
    let plain = logs_args("web", false);
    assert_eq!(plain, vec!["logs", "web"]);
}

#[test]
fn tail_step_delivers_tagged_stdout_line() {
    let d = tail_step("web", true, TailEvent::StdoutLine(String::from("ready")));
    match d {
        TailDecision::Deliver(e) => {
            assert_eq!(e.key, "container-log-web");
            assert_eq!(e.log.line, "ready");
            assert_eq!(e.log.stream, "stdout");
            assert!(!e.log.timestamp.is_empty());
        }
        _ => panic!("a live stdout line must be delivered"),
    }
}

#[test]
fn tail_step_delivers_tagged_stderr_line() {
    let d = tail_step("web", true, TailEvent::StderrLine(String::from("warning")));
    match d {
        TailDecision::Deliver(e) => {
            assert_eq!(e.key, "container-log-web");
            assert_eq!(e.log.line, "warning");
            assert_eq!(e.log.stream, "stderr");
        }
        _ => panic!("a live stderr line must be delivered"),
    }
}

#[test]
fn tail_step_kills_when_stop_observed() {
    let d = tail_step("web", false, TailEvent::StdoutLine(String::from("late")));
    assert!(matches!(d, TailDecision::Kill));
}

#[test]
fn tail_step_finishes_on_closed_stream() {
    let d = tail_step("web", true, TailEvent::Closed);
    assert!(matches!(d, TailDecision::Finish));
}

#[test]
fn session_stopped_before_first_line_emits_nothing() {
    let obs = vec![
        (false, TailEvent::StdoutLine(String::from("never"))),
        (true, TailEvent::StdoutLine(String::from("never either"))),
    ];
    let out = run_session("web", obs);
    assert!(out.is_empty());
}

#[test]
fn session_delivers_lines_in_order_until_closed() {
    let obs = vec![
        (true, TailEvent::StdoutLine(String::from("one"))),
        (true, TailEvent::StderrLine(String::from("two"))),
        (true, TailEvent::Closed),
        (true, TailEvent::StdoutLine(String::from("after close"))),
    ];
    let out = run_session("web", obs);
    assert_eq!(out.len(), 2);
    assert_eq!(out[0].log.line, "one");
    assert_eq!(out[0].log.stream, "stdout");
    assert_eq!(out[1].log.line, "two");
    assert_eq!(out[1].log.stream, "stderr");
    assert!(out.iter().all(|e| e.key == "container-log-web"));
}

#[test]
fn session_stops_at_cleared_flag_mid_stream() {
    let obs = vec![
        (true, TailEvent::StdoutLine(String::from("kept"))),
        (false, TailEvent::StdoutLine(String::from("dropped"))),
        (true, TailEvent::StdoutLine(String::from("dropped too"))),
    ];
    let out = run_session("web", obs);
    assert_eq!(out.len(), 1);
    assert_eq!(out[0].log.line, "kept");
}

#[test]
fn two_sessions_do_not_cross_contaminate() {
    let obs_a = vec![
        (true, TailEvent::StdoutLine(String::from("from alpha"))),
        (true, TailEvent::Closed),
    ];
    let obs_b = vec![
        (true, TailEvent::StderrLine(String::from("from beta"))),
        (true, TailEvent::Closed),
    ];
    let out_a = run_session("alpha", obs_a);
    let out_b = run_session("beta", obs_b);
    assert!(out_a.iter().all(|e| e.key == "container-log-alpha"));
    assert!(out_b.iter().all(|e| e.key == "container-log-beta"));
    assert!(out_a.iter().all(|e| e.log.line == "from alpha"));
    assert!(out_b.iter().all(|e| e.log.line == "from beta"));
}
