//! What the library takes on trust from the standard library and from the
//! crates `shellexpand` and `rand`.
//!
//! Nothing in this file is proved.  Each function states what its callee is
//! documented to return; where that cannot be written down in a few lines,
//! the result only gets a name.

use crate::text::starts_with_char;
use vstd::prelude::*;

verus! {

/// What `std::path::Path::join` makes of `base` and `path`, both read as
/// paths.  An absolute `path` replaces `base`, any other is adjoined to
/// it; the separators in between are the standard library's business.
pub uninterp spec fn joined_path(base: Seq<char>, path: Seq<char>) -> Seq<char>;

/// What `std::path::Path::parent` makes of `path`: the path without its
/// final component, or nothing where it has none.
pub uninterp spec fn path_parent(path: Seq<char>) -> Option<Seq<char>>;

/// How `shellexpand::tilde` may turn `input` into `output`.
///
/// A leading `~` that stands alone or before a separator is replaced by the
/// home directory, so what followed the `~` ends the output; where no home
/// directory is known the input comes back, which ends in the same way.
/// Any other input comes back unchanged.  A backslash counts as a
/// separator on Windows only; elsewhere the input then comes back
/// unchanged, which the same clause allows.
pub open spec fn tilde_expansion(input: Seq<char>, output: Seq<char>) -> bool {
    if starts_with_char(input, '~') {
        let rest = input.skip(1);
        if rest.len() == 0 || rest[0] == '/' || rest[0] == '\\' {
            rest.is_suffix_of(output)
        } else {
            output == input
        }
    } else {
        output == input
    }
}

/// Calls `std::path::Path::join` on `base`, with `path`.
///
/// The contract claims that the result depends on the two strings alone,
/// and names it.  Both strings are valid UTF-8 and so is what is made of
/// them, so reading the result as a string loses nothing.
#[verifier::external_body]
pub(crate) fn join_path(base: &str, path: &str) -> (joined: String)
    ensures
        joined@ == joined_path(base@, path@),
{
    std::path::Path::new(base).join(path).to_string_lossy().into_owned()
}

/// Calls `std::path::Path::parent` on `path`.
///
/// The contract claims that whether there is a parent, and which, depends
/// on the string alone, and names it.  The parent is a part of `path`, so
/// reading it as a string loses nothing.
#[verifier::external_body]
pub(crate) fn parent_path(path: &str) -> (parent: Option<String>)
    ensures
        match parent {
            Some(p) => path_parent(path@) == Some(p@),
            None => path_parent(path@) is None,
        },
{
    match std::path::Path::new(path).parent() {
        Some(parent) => Some(parent.to_string_lossy().into_owned()),
        None => None,
    }
}

/// Calls `shellexpand::tilde` on `input`, which asks the system for the
/// home directory of the current user.
///
/// The contract claims what holds whatever the home directory is, and
/// also where there is none: see [`tilde_expansion`].
#[verifier::external_body]
pub(crate) fn expand_tilde(input: &str) -> (output: String)
    ensures
        tilde_expansion(input@, output@),
{
    shellexpand::tilde(input).into_owned()
}

/// Calls `rand::random` for a `u32`.  Nothing is claimed of the number.
#[verifier::external_body]
pub(crate) fn random_u32() -> u32 {
    rand::random::<u32>()
}

} // verus!
