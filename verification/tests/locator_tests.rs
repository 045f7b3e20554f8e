use container_core::locator::locate;
use container_core::locator::not_found_hint;
use container_core::locator::well_known_paths;

#[test]
fn locator_prefers_first_existing_path() {
    // The first well-known path exists: it wins and the PATH lookup is never
    // consulted, whatever it would have said.
    let paths = well_known_paths();
    let exists = vec![true, false, false];
    let lookup = Some(String::from("/somewhere/else/container"));
    let r = locate(&paths, &exists, &lookup, true);
    assert_eq!(r, Ok(String::from("/usr/local/bin/container")));
}

#[test]
fn locator_takes_later_path_when_earlier_missing() {
    let paths = well_known_paths();
    let exists = vec![false, false, true];
    let r = locate(&paths, &exists, &None, false);
    assert_eq!(r, Ok(String::from("/usr/bin/container")));
}

#[test]
fn locator_falls_back_to_path_lookup() {
    let paths = well_known_paths();
    let exists = vec![false, false, false];
    let lookup = Some(String::from("  /home/me/bin/container\n"));
    let r = locate(&paths, &exists, &lookup, true);
    assert_eq!(r, Ok(String::from("/home/me/bin/container")));
}

#[test]
fn locator_fails_with_hint_when_nothing_found() {
    let paths = well_known_paths();
    let exists = vec![false, false, false];
    let r = locate(&paths, &exists, &None, false);
    let msg = r.unwrap_err();
    assert_eq!(msg, not_found_hint());
    assert!(msg.contains("https://github.com/apple/container/releases"));
}

#[test]
fn locator_rejects_empty_lookup_output() {
    let paths = well_known_paths();
    let exists = vec![false, false, false];
    let lookup = Some(String::from("   \n"));
    let r = locate(&paths, &exists, &lookup, true);
    assert_eq!(r, Err(not_found_hint()));
}

#[test]
fn locator_rejects_lookup_of_missing_file() {
    let paths = well_known_paths();
    let exists = vec![false, false, false];
    let lookup = Some(String::from("/gone/container"));
    let r = locate(&paths, &exists, &lookup, false);
    assert_eq!(r, Err(not_found_hint()));
}
