//! Locating the external tool binary.
//!
//! The tool is looked for at a short list of well-known installation paths,
//! in fixed priority order, and then — only when none of them exists — by a
//! PATH lookup.  The file-system probes and the PATH lookup are performed by
//! the surrounding application; this module owns the candidate list, the
//! selection order, and the failure message.  The result is never cached:
//! every caller resolves anew, tolerating the tool being installed or
//! removed between calls.

use vstd::prelude::*;
use vstd::string::*;
use crate::text::trimmed;
use crate::text::trim_to_string;

verus! {

/// The well-known installation paths, in the order they are probed.
pub open spec fn spec_well_known_paths() -> Seq<Seq<char>> {
    seq![
        "/usr/local/bin/container"@,
        "/opt/homebrew/bin/container"@,
        "/usr/bin/container"@,
    ]
}

/// The remediation hint reported when the tool cannot be found anywhere.
pub open spec fn spec_not_found_hint() -> Seq<char> {
    "Apple Container CLI not found. Please install it from https://github.com/apple/container/releases"@
}

/// The index of the first set flag, or the sequence's length when no flag is
/// set: the position of the first candidate path that exists.
pub open spec fn first_hit(ex: Seq<bool>) -> int
    decreases ex.len(),
{
    if ex.len() == 0 {
        0
    } else if ex[0] {
        0
    } else {
        1 + first_hit(ex.drop_first())
    }
}

/// `first_hit` names the first set flag: everything before it is clear, and
/// when it equals the length nothing is set at all.
pub proof fn lemma_first_hit(ex: Seq<bool>)
    ensures
        0 <= first_hit(ex) <= ex.len(),
        first_hit(ex) < ex.len() ==> ex[first_hit(ex)],
        forall|j: int| 0 <= j < first_hit(ex) ==> !ex[j],
    decreases ex.len(),
{
    if ex.len() > 0 && !ex[0] {
        lemma_first_hit(ex.drop_first());
        assert forall|j: int| 0 <= j < first_hit(ex) implies !ex[j] by {
            if j > 0 {
                assert(!ex.drop_first()[j - 1]);
            }
        }
    }
}

/// The converse: an index whose flag is set while every earlier flag is
/// clear is the first hit.
pub proof fn lemma_first_hit_at(ex: Seq<bool>, i: int)
    requires
        0 <= i < ex.len(),
        ex[i],
        forall|j: int| 0 <= j < i ==> !ex[j],
    ensures
        first_hit(ex) == i,
    decreases i,
{
    if i > 0 {
        assert(forall|j: int| 0 <= j < i - 1 ==> ex.drop_first()[j] == ex[j + 1]);
        lemma_first_hit_at(ex.drop_first(), i - 1);
    }
}

/// No flag set: the first hit is the length.
pub proof fn lemma_first_hit_none(ex: Seq<bool>)
    requires
        forall|j: int| 0 <= j < ex.len() ==> !ex[j],
    ensures
        first_hit(ex) == ex.len(),
    decreases ex.len(),
{
    if ex.len() > 0 {
        assert(forall|j: int| 0 <= j < ex.len() - 1 ==> ex.drop_first()[j] == ex[j + 1]);
        lemma_first_hit_none(ex.drop_first());
    }
}

/// The well-known installation paths as strings, in probe order.
pub fn well_known_paths() -> (r: Vec<String>)
    ensures
        r@.len() == spec_well_known_paths().len(),
        forall|i: int| 0 <= i < r@.len() ==> (#[trigger] r@[i])@ == spec_well_known_paths()[i],
{
    let mut v: Vec<String> = Vec::new();
    v.push(String::from_str("/usr/local/bin/container"));
    v.push(String::from_str("/opt/homebrew/bin/container"));
    v.push(String::from_str("/usr/bin/container"));
    v
}

/// The failure message carrying the remediation hint.
pub fn not_found_hint() -> (r: String)
    ensures
        r@ == spec_not_found_hint(),
{
    String::from_str(
        "Apple Container CLI not found. Please install it from https://github.com/apple/container/releases",
    )
}

/// Selects the tool binary.
///
/// `paths` are the candidate installation paths in priority order and
/// `path_exists[i]` says whether `paths[i]` exists on the file system; the
/// first existing candidate wins and the PATH lookup is not consulted.  Only
/// when no candidate exists does the lookup's answer matter: `lookup_raw` is
/// the lookup's output when the lookup command succeeded, and
/// `lookup_exists` says whether the trimmed output names an existing file.
/// A successful non-empty lookup of an existing file wins; otherwise the
/// search fails with the remediation hint.
pub fn locate(
    paths: &Vec<String>,
    path_exists: &Vec<bool>,
    lookup_raw: &Option<String>,
    lookup_exists: bool,
) -> (r: Result<String, String>)
    requires
        paths@.len() == path_exists@.len(),
    ensures
        first_hit(path_exists@) < path_exists@.len() ==> (r matches Ok(p) && p@ == paths@[first_hit(
            path_exists@,
        )]@),
        first_hit(path_exists@) == path_exists@.len() ==> match lookup_raw {
            Some(w) => {
                if trimmed(w@).len() > 0 && lookup_exists {
                    r matches Ok(p) && p@ == trimmed(w@)
                } else {
                    r matches Err(m) && m@ == spec_not_found_hint()
                }
            },
            None => r matches Err(m) && m@ == spec_not_found_hint(),
        },
{
    let mut i: usize = 0;
    while i < paths.len()
        invariant
            paths@.len() == path_exists@.len(),
            i <= paths@.len(),
            forall|j: int| 0 <= j < i ==> !path_exists@[j],
        decreases paths@.len() - i,
    {
        if path_exists[i] {
            proof {
                lemma_first_hit_at(path_exists@, i as int);
            }
            return Ok(paths[i].clone());
        }
        i = i + 1;
    }
    proof {
        lemma_first_hit_none(path_exists@);
    }
    match lookup_raw {
        Some(w) => {
            let t = trim_to_string(w.as_str());
            if !t.as_str().is_empty() && lookup_exists {
                return Ok(t);
            }
        },
        None => {},
    }
    Err(not_found_hint())
}

} // verus!
