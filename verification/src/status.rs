//! Tool availability reporting.
//!
//! "Is the tool usable" is answered as a structured fact, never as a
//! failure: the locator is run, and if it finds the binary a version probe
//! is run; every outcome — found and working, found but broken, impossible
//! to execute, not found at all — is folded into one record.  The
//! surrounding application performs the probe and hands its outcome here.

use vstd::prelude::*;
use vstd::string::*;
use crate::text::trimmed;
use crate::text::trim_to_string;

verus! {

/// The structured answer to "is the tool usable".  `path` is the resolved
/// binary when the locator found one, whether or not it works; `version` is
/// reported only on a successful probe, and `error` only when the tool is
/// not available.
#[derive(Debug, Clone)]
pub struct CliAvailability {
    pub available: bool,
    pub path: Option<String>,
    pub version: Option<String>,
    pub error: Option<String>,
}

/// Outcome of the version probe on a located binary: either the probe
/// process ran to completion — successfully or not, with both streams
/// captured — or it could not be spawned at all.
#[derive(Debug)]
pub enum VersionProbe {
    Ran { ok: bool, stdout: String, stderr: String },
    SpawnFailed { detail: String },
}

/// The availability record when the locator found no binary: not available,
/// no path, no version, and the locator's own message as the error.
pub fn availability_when_missing(locate_error: String) -> (r: CliAvailability)
    ensures
        !r.available,
        r.path is None,
        r.version is None,
        r.error matches Some(e) && e@ == locate_error@,
{
    CliAvailability { available: false, path: None, version: None, error: Some(locate_error) }
}

/// The availability record for a located binary, from the version probe's
/// outcome.  A successful probe reports available with the trimmed probe
/// output as the version; a probe that ran but failed reports the trimmed
/// captured error; a probe that could not be spawned reports why.  The
/// resolved path is reported in every case.
pub fn availability_from_probe(path: String, probe: VersionProbe) -> (r: CliAvailability)
    ensures
        r.path matches Some(p) && p@ == path@,
        match probe {
            VersionProbe::Ran { ok, stdout, stderr } => {
                if ok {
                    r.available && (r.version matches Some(v) && v@ == trimmed(stdout@)) && r.error is None
                } else {
                    !r.available && r.version is None && (r.error matches Some(e) && e@
                        == "CLI found but not working: "@ + trimmed(stderr@))
                }
            },
            VersionProbe::SpawnFailed { detail } => !r.available && r.version is None && (
            r.error matches Some(e) && e@ == "Failed to execute CLI: "@ + detail@),
        },
{
    match probe {
        VersionProbe::Ran { ok, stdout, stderr } => {
            if ok {
                CliAvailability {
                    available: true,
                    path: Some(path),
                    version: Some(trim_to_string(stdout.as_str())),
                    error: None,
                }
            } else {
                let msg = String::from_str("CLI found but not working: ").concat(
                    trim_to_string(stderr.as_str()).as_str(),
                );
                CliAvailability {
                    available: false,
                    path: Some(path),
                    version: None,
                    error: Some(msg),
                }
            }
        },
        VersionProbe::SpawnFailed { detail } => {
            let msg = String::from_str("Failed to execute CLI: ").concat(detail.as_str());
            CliAvailability { available: false, path: Some(path), version: None, error: Some(msg) }
        },
    }
}

} // verus!
