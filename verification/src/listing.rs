//! Container status listing.
//!
//! The tool lists all containers in one structured output: a single JSON
//! array, not newline-delimited records.  The schema of one record is the
//! tool's own business, so the records pass through as opaque generic JSON
//! values; only the top-level shape is checked.  A non-zero exit reports the
//! tool's captured error text, and output that is not one well-formed array
//! is a parse error — never a crash.

use vstd::prelude::*;
use vstd::string::*;
use vstd::seq_lib::*;

verus! {

#[verifier::external_type_specification]
#[verifier::external_body]
pub struct ExValue(serde_json::Value);

#[verifier::external_type_specification]
#[verifier::external_body]
pub struct ExJsonError(serde_json::Error);

/// How a text parses as one JSON array: the number of records it holds, or
/// nothing when the text is not one well-formed JSON array.
pub uninterp spec fn json_array_count(s: Seq<char>) -> Option<nat>;

/// Relies on serde_json::from_str deserializing to a vector of generic JSON
/// values: it succeeds exactly when the text is one well-formed JSON array,
/// and hands back that array's elements; the two-character empty-array text
/// parses to an empty vector.
#[verifier::external_body]
fn parse_json_array(s: &str) -> (r: Result<Vec<serde_json::Value>, serde_json::Error>)
    ensures
        r is Ok <==> json_array_count(s@) is Some,
        r matches Ok(v) ==> json_array_count(s@) == Some(v@.len() as nat),
        s@ == "[]"@ ==> r is Ok && r->Ok_0@.len() == 0,
{
    serde_json::from_str::<Vec<serde_json::Value>>(s)
}

/// Relies on the Display rendering of serde_json::Error for a parse
/// failure's description; nothing is stated of the text.
#[verifier::external_body]
fn json_error_string(e: &serde_json::Error) -> String {
    format!("{}", e)
}

/// The command arguments a listing invocation spawns the tool with: list
/// all entities, as one structured JSON document.
pub fn list_args() -> (r: Vec<String>)
    ensures
        r@.len() == 4,
        r@[0]@ == "ls"@,
        r@[1]@ == "-a"@,
        r@[2]@ == "--format"@,
        r@[3]@ == "json"@,
{
    let mut args: Vec<String> = Vec::new();
    args.push(String::from_str("ls"));
    args.push(String::from_str("-a"));
    args.push(String::from_str("--format"));
    args.push(String::from_str("json"));
    args
}

/// Builds the listing result from a completed listing invocation: the exit
/// verdict and the two captured streams.
///
/// A failed invocation reports the captured error text as the error.  A
/// successful one hands through the parsed records — an empty array is an
/// empty sequence of records, not an error — and reports a parse error,
/// prefixed so the caller can tell it from the tool's own errors, exactly
/// when the output is not one well-formed JSON array.
pub fn container_list_from_output(exit_ok: bool, stdout: &str, stderr: &str) -> (r: Result<
    Vec<serde_json::Value>,
    String,
>)
    ensures
        !exit_ok ==> (r matches Err(m) && m@ == stderr@),
        exit_ok ==> ((r is Ok) <==> json_array_count(stdout@) is Some),
        exit_ok ==> (r matches Ok(v) ==> json_array_count(stdout@) == Some(v@.len() as nat)),
        exit_ok && stdout@ == "[]"@ ==> (r matches Ok(v) && v@.len() == 0),
        exit_ok ==> (r matches Err(m) ==> "Failed to parse JSON: "@.is_prefix_of(m@)),
{
    if !exit_ok {
        return Err(String::from_str(stderr));
    }
    match parse_json_array(stdout) {
        Ok(v) => Ok(v),
        Err(e) => {
            let detail = json_error_string(&e);
            let m = String::from_str("Failed to parse JSON: ").concat(detail.as_str());
            proof {
                assert(m@.subrange(0, "Failed to parse JSON: "@.len() as int) =~= "Failed to parse JSON: "@);
            }
            Err(m)
        },
    }
}

} // verus!
