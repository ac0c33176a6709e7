//! Reporting which Python interpreter is present. The caller runs
//! `python --version` and `python3 --version` and hands over the captured
//! standard output of each, or `None` where the binary could not be run; the
//! functions here assemble the report string and clean the output of the
//! `which`/`where` path lookup.

use vstd::prelude::*;

use crate::strutil::str_eq;
use crate::strutil::strip_newlines;
use crate::strutil::without_newlines;

verus! {

/// A tag naming the interpreter binary and its version, built from the
/// captured output of `python --version` and `python3 --version`:
/// `"python--<version>"` when `python` answered, else
/// `"python3--<version>"` when `python3` answered, else `"NOT_FOUND"`.
/// Newlines are stripped from the captured output.
pub fn get_python_binary_and_version(
    python_probe: Option<String>,
    python3_probe: Option<String>,
) -> (r: String)
    ensures
        python_probe is Some ==> r@ == "python--"@ + without_newlines(python_probe.unwrap()@),
        python_probe is None && python3_probe is Some ==> r@ == "python3--"@ + without_newlines(
            python3_probe.unwrap()@,
        ),
        python_probe is None && python3_probe is None ==> r@ == "NOT_FOUND"@,
{
    match python_probe {
        Option::Some(out) => {
            let cleaned = strip_newlines(out.as_str());
            "python--".to_owned().concat(cleaned.as_str())
        },
        Option::None => match python3_probe {
            Option::Some(out) => {
                let cleaned = strip_newlines(out.as_str());
                "python3--".to_owned().concat(cleaned.as_str())
            },
            Option::None => "NOT_FOUND".to_owned(),
        },
    }
}

/// The binary that resolves a name to a path on this platform: `which` on
/// macOS and Linux, `where` on Windows, and empty anywhere else.
pub fn path_lookup_command(os: &str) -> (r: String)
    ensures
        os@ == "macos"@ || os@ == "linux"@ ==> r@ == "which"@,
        os@ == "windows"@ ==> r@ == "where"@,
        os@ != "macos"@ && os@ != "linux"@ && os@ != "windows"@ ==> r@ == ""@,
{
    if str_eq(os, "macos") || str_eq(os, "linux") {
        proof {
            reveal_strlit("macos");
            reveal_strlit("linux");
            reveal_strlit("windows");
            assert("macos"@.len() == 5);
            assert("linux"@.len() == 5);
            assert("windows"@.len() == 7);
        }
        "which".to_owned()
    } else if str_eq(os, "windows") {
        "where".to_owned()
    } else {
        "".to_owned()
    }
}

/// The interpreter path as the `which`/`where` lookup reported it, with the
/// trailing newline (and any other newline) removed.
pub fn get_python_path(lookup_output: String) -> (r: String)
    ensures
        r@ == without_newlines(lookup_output@),
{
    strip_newlines(lookup_output.as_str())
}

} // verus!
