//! Frame classification: the platform table of ignorable runtime frames, the
//! fixed set of interpreter frame-evaluation entry points, and the test for
//! whether a module belongs to the interpreter itself.

use vstd::prelude::*;
use crate::text::{seq_contains_sub, str_contains, str_eq, str_starts_with};

verus! {

/// Platform whose ignorable-frame table applies to the target process.
#[derive(Clone, Copy, PartialEq, Eq, Structural, Debug)]
pub enum Platform {
    Linux,
    MacOs,
}

/// The platform table of ignorable runtime frames: top-level process-startup
/// and threading shims that contribute nothing to a merged stack.
pub open spec fn spec_ignore_frame(function: Seq<char>, module: Seq<char>, platform: Platform) -> bool {
    match platform {
        Platform::Linux => (function == "__libc_start_main"@ && seq_contains_sub(
            module,
            "/libc"@,
        )) || (function == "__clone"@ && seq_contains_sub(module, "/libc"@)) || (function
            == "start_thread"@ && seq_contains_sub(module, "/libpthread"@)),
        Platform::MacOs => (function == "_start"@ && seq_contains_sub(module, "/libdyld.dylib"@))
            || (function == "__pthread_body"@ && seq_contains_sub(module, "/libsystem_pthread"@))
            || (function == "_thread_start"@ && seq_contains_sub(module, "/libsystem_pthread"@)),
    }
}

/// Whether `(function, module)` matches the platform table of ignorable
/// runtime frames.
pub fn ignore_frame(function: &str, module: &str, platform: Platform) -> (r: bool)
    ensures
        r == spec_ignore_frame(function@, module@, platform),
{
    match platform {
        Platform::Linux => (str_eq(function, "__libc_start_main") && str_contains(module, "/libc"))
            || (str_eq(function, "__clone") && str_contains(module, "/libc")) || (str_eq(
            function,
            "start_thread",
        ) && str_contains(module, "/libpthread")),
        Platform::MacOs => (str_eq(function, "_start") && str_contains(module, "/libdyld.dylib"))
            || (str_eq(function, "__pthread_body") && str_contains(module, "/libsystem_pthread"))
            || (str_eq(function, "_thread_start") && str_contains(module, "/libsystem_pthread")),
    }
}

/// The fixed set of interpreter frame-evaluation entry points.  One stack
/// occurrence of any of these corresponds, in order, to one managed frame.
pub open spec fn spec_is_marker_name(function: Seq<char>) -> bool {
    function == "_PyEval_EvalFrameDefault"@ || function == "PyEval_EvalFrameEx"@ || function
        == "__PyEval_EvalFrameDefault"@
}

/// Whether `function` is one of the interpreter frame-evaluation entry points.
pub fn is_marker_name(function: &str) -> (r: bool)
    ensures
        r == spec_is_marker_name(function@),
{
    str_eq(function, "_PyEval_EvalFrameDefault") || str_eq(function, "PyEval_EvalFrameEx")
        || str_eq(function, "__PyEval_EvalFrameDefault")
}

/// Whether a resolved module is the interpreter's own binary or support
/// library: exact equality with either path, or the module being a prefix of
/// the interpreter binary path.
pub open spec fn spec_is_interpreter_module(
    module: Seq<char>,
    interpreter_path: Seq<char>,
    interpreter_library_path: Option<Seq<char>>,
) -> bool {
    module == interpreter_path || interpreter_library_path == Some(module)
        || module.is_prefix_of(interpreter_path)
}

/// Whether `module` belongs to the interpreter itself.
pub fn is_interpreter_module(
    module: &str,
    interpreter_path: &str,
    interpreter_library_path: &Option<String>,
) -> (r: bool)
    ensures
        r == spec_is_interpreter_module(
            module@,
            interpreter_path@,
            crate::frame::opt_view(*interpreter_library_path),
        ),
{
    str_eq(module, interpreter_path) || (match interpreter_library_path {
        Some(l) => str_eq(module, l.as_str()),
        None => false,
    }) || str_starts_with(interpreter_path, module)
}

/// An entry of the ignorable-frame table is never an interpreter
/// frame-evaluation entry point: the two fixed name sets are disjoint.
pub proof fn lemma_denylist_never_marker(function: Seq<char>, module: Seq<char>, platform: Platform)
    requires
        spec_ignore_frame(function, module, platform),
    ensures
        !spec_is_marker_name(function),
{
    reveal_strlit("__libc_start_main");
    reveal_strlit("__clone");
    reveal_strlit("start_thread");
    reveal_strlit("_start");
    reveal_strlit("__pthread_body");
    reveal_strlit("_thread_start");
    reveal_strlit("_PyEval_EvalFrameDefault");
    reveal_strlit("PyEval_EvalFrameEx");
    reveal_strlit("__PyEval_EvalFrameDefault");
    assert("__libc_start_main"@.len() == 17);
    assert("__clone"@.len() == 7);
    assert("start_thread"@.len() == 12);
    assert("_start"@.len() == 6);
    assert("__pthread_body"@.len() == 14);
    assert("_thread_start"@.len() == 13);
    assert("_PyEval_EvalFrameDefault"@.len() == 24);
    assert("PyEval_EvalFrameEx"@.len() == 18);
    assert("__PyEval_EvalFrameDefault"@.len() == 25);
}

} // verus!
