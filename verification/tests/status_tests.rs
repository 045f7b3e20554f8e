use container_core::status::availability_from_probe;
use container_core::status::availability_when_missing;
use container_core::status::VersionProbe;

#[test]
fn availability_when_locator_fails() {
    let r = availability_when_missing(String::from("tool is not installed"));
    assert!(!r.available);
    assert_eq!(r.path, None);
    assert_eq!(r.version, None);
    assert_eq!(r.error, Some(String::from("tool is not installed")));
}

#[test]
fn availability_reports_trimmed_version_on_success() {
    let probe = VersionProbe::Ran {
        ok: true,
        stdout: String::from("container version 1.0.0\n"),
        stderr: String::new(),
    };
    let r = availability_from_probe(String::from("/usr/bin/container"), probe);
    assert!(r.available);
    assert_eq!(r.path, Some(String::from("/usr/bin/container")));
    assert_eq!(r.version, Some(String::from("container version 1.0.0")));
    assert_eq!(r.error, None);
}

#[test]
fn availability_reports_broken_tool() {
    let probe = VersionProbe::Ran {
        ok: false,
        stdout: String::new(),
        stderr: String::from(" missing libraries \n"),
    };
    let r = availability_from_probe(String::from("/usr/bin/container"), probe);
    assert!(!r.available);
    assert_eq!(r.path, Some(String::from("/usr/bin/container")));
    assert_eq!(r.version, None);
    assert_eq!(
        r.error,
        Some(String::from("CLI found but not working: missing libraries"))
    );
}

#[test]
fn availability_reports_unspawnable_tool() {
    let probe = VersionProbe::SpawnFailed {
        detail: String::from("permission denied"),
    };
    let r = availability_from_probe(String::from("/usr/bin/container"), probe);
    assert!(!r.available);
    assert_eq!(r.version, None);
    assert_eq!(
        r.error,
        Some(String::from("Failed to execute CLI: permission denied"))
    );
}
