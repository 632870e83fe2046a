//! Script executor model: interpreter selection by path suffix, and the result
//! of one script run (exit status plus captured standard streams).

use vstd::prelude::*;

use crate::text::{ends_with_spec, str_ends_with};

verus! {

/// What one deployment script run produced: whether it exited successfully,
/// and its decoded standard-output and standard-error text.
pub struct ExecutionResult {
    pub exit_success: bool,
    pub stdout: String,
    pub stderr: String,
}

/// The stream the log keeps of a run: standard output on success, standard
/// error on failure.
pub open spec fn captured_output_spec(r: &ExecutionResult) -> Seq<char> {
    if r.exit_success {
        r.stdout@
    } else {
        r.stderr@
    }
}

/// The interpreter a script path calls for: the scripting engine for its own
/// extension, the generic shell for every other path.
pub open spec fn interpreter_spec(path: Seq<char>) -> Seq<char> {
    if ends_with_spec(path, ".zx.mjs"@) {
        "zx"@
    } else {
        "sh"@
    }
}

/// Select the interpreter for a script by its path suffix.
pub fn select_interpreter(script_path: &str) -> (r: String)
    ensures
        r@ == interpreter_spec(script_path@),
{
    if str_ends_with(script_path, ".zx.mjs") {
        String::from_str("zx")
    } else {
        String::from_str("sh")
    }
}

} // verus!
