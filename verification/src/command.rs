//! Building the shell command that runs the Stable Diffusion toolchain in
//! the right virtual environment, and the argument list and output cleanup of
//! the older `find`-pipeline directory scan. The caller checks which
//! environment markers exist on disk and which platform it runs on; the
//! functions here turn those plain facts into the exact strings to execute.

use vstd::prelude::*;

use crate::strutil::remove_all;
use crate::strutil::remove_occurrences;
use crate::strutil::str_eq;
use crate::strutil::strip_newlines;
use crate::strutil::without_newlines;

verus! {

/// The shell command that runs `command` inside the Stable Diffusion
/// directory's environment: activate `venv` when its activation script
/// exists, else go through `direnv` when a `.direnv` marker exists, else run
/// the bare command through `cmd /C` on Windows and `sh -c` elsewhere.
pub fn stable_diffusion_command(
    directory: &str,
    command: &str,
    has_venv_activate: bool,
    has_direnv: bool,
    os: &str,
) -> (r: String)
    ensures
        has_venv_activate ==> r@ == "source venv/bin/activate && "@ + command@,
        !has_venv_activate && has_direnv ==> r@ == "direnv exec "@ + directory@ + " "@ + command@,
        !has_venv_activate && !has_direnv && os@ == "windows"@ ==> r@ == "cmd /C "@ + command@,
        !has_venv_activate && !has_direnv && os@ != "windows"@ ==> r@ == "sh -c "@ + command@,
{
    if has_venv_activate {
        "source venv/bin/activate && ".to_owned().concat(command)
    } else if has_direnv {
        "direnv exec ".to_owned().concat(directory).concat(" ").concat(command)
    } else if str_eq(os, "windows") {
        "cmd /C ".to_owned().concat(command)
    } else {
        "sh -c ".to_owned().concat(command)
    }
}

/// The argument list of the `find` invocation of the older directory scan:
/// all plain files directly under `dir_path` named `*.png` and created within
/// the last `elapsed` seconds.
pub fn find_latest_args(dir_path: &str, elapsed: &str) -> (r: Vec<String>)
    ensures
        r@.len() == 9,
        r@[0]@ == dir_path@,
        r@[1]@ == "-name"@,
        r@[2]@ == "*.png"@,
        r@[3]@ == "-depth"@,
        r@[4]@ == "1"@,
        r@[5]@ == "-type"@,
        r@[6]@ == "f"@,
        r@[7]@ == "-ctime"@,
        r@[8]@ == "-"@ + elapsed@ + "s"@,
{
    let mut args: Vec<String> = Vec::new();
    args.push(dir_path.to_owned());
    args.push("-name".to_owned());
    args.push("*.png".to_owned());
    args.push("-depth".to_owned());
    args.push("1".to_owned());
    args.push("-type".to_owned());
    args.push("f".to_owned());
    args.push("-ctime".to_owned());
    args.push("-".to_owned().concat(elapsed).concat("s"));
    args
}

/// The file name that the `find | sort | head` pipeline reported: its output
/// with every occurrence of `dir_path` followed by a slash deleted, and then
/// every newline removed.
pub fn clean_find_output(output: &str, dir_path: &str) -> (r: String)
    ensures
        r@ == without_newlines(remove_all(output@, dir_path@ + "/"@)),
{
    let prefix = dir_path.to_owned().concat("/");
    let stripped = remove_occurrences(output, prefix.as_str());
    strip_newlines(stripped.as_str())
}

} // verus!
