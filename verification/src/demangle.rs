//! Native symbol demangling.  The rendering of a mangled name is delegated to
//! the `cpp_demangle` crate; this module states the step's policy exactly: a
//! name is only submitted when it carries the conventional mangled prefix, and
//! a name that cannot be demangled is kept unchanged.

use vstd::prelude::*;
use vstd::string::StrSliceExecFns;

verus! {

/// What `cpp_demangle` renders for a mangled name with parameter lists
/// stripped, or `None` when the name does not parse as a mangled symbol.
/// The result depends on the name's characters alone.
pub uninterp spec fn demangled_of(name: Seq<char>) -> Option<Seq<char>>;

/// Relies on `cpp_demangle::BorrowedSymbol::with_tail` and
/// `Symbol::demangle_with_options` with parameters suppressed: parsing and
/// rendering read nothing but the input bytes, so the outcome is a function
/// of the name alone.
#[verifier::external_body]
fn demangle_native(name: &str) -> (r: Option<String>)
    ensures
        r is Some <==> demangled_of(name@) is Some,
        r matches Some(d) ==> demangled_of(name@) == Some(d@),
{
    if let Ok((sym, _)) = cpp_demangle::BorrowedSymbol::with_tail(name.as_bytes()) {
        let options = cpp_demangle::DemangleOptions::new().no_params();
        if let Ok(out) = sym.demangle_with_options(&options) {
            return Some(out);
        }
    }
    None
}

/// The demangling step applied to a native frame's function name: a name with
/// the conventional mangled prefix is replaced by its demangled rendering when
/// one exists; every other name is kept unchanged.
pub open spec fn spec_demangle_step(name: Seq<char>) -> Seq<char> {
    if name.len() > 0 && name[0] == '_' {
        match demangled_of(name) {
            Some(d) => d,
            None => name,
        }
    } else {
        name
    }
}

/// Applies the demangling step to `name`.
pub fn demangle_name(name: &str) -> (r: String)
    ensures
        r@ == spec_demangle_step(name@),
{
    if name.unicode_len() > 0 && name.get_char(0) == '_' {
        match demangle_native(name) {
            Some(d) => d,
            None => name.to_owned(),
        }
    } else {
        name.to_owned()
    }
}

/// The demangling step is idempotent on every name it leaves without the
/// mangled prefix: applying it again to such an already-processed name
/// changes nothing.
pub proof fn lemma_demangle_idempotent(name: Seq<char>)
    requires
        !(spec_demangle_step(name).len() > 0 && spec_demangle_step(name)[0] == '_'),
    ensures
        spec_demangle_step(spec_demangle_step(name)) == spec_demangle_step(name),
{
}

} // verus!
