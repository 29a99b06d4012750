//! The user's home directory and paths written relative to it.

use vstd::prelude::*;
use vstd::string::*;

verus! {

/// A path with a leading `~` replaced by the home directory. Only a `~` that
/// stands alone or before a `/` is replaced, and only when the home directory
/// is known; every other path stays as it is.
pub open spec fn tilde_expanded(path: Seq<char>, home: Option<Seq<char>>) -> Seq<char> {
    if path.len() > 0 && path[0] == '~' && (path.len() == 1 || path[1] == '/') && home is Some {
        home->0 + path.subrange(1, path.len() as int)
    } else {
        path
    }
}

/// Trusted: `dirs::home_dir`. Nothing is claimed of the result, which depends
/// on the environment; a home directory that is not valid Unicode counts as
/// unknown.
#[verifier::external_body]
pub(crate) fn home_dir() -> (r: Option<String>) {
    match dirs::home_dir() {
        Some(p) => p.to_str().map(String::from),
        None => None,
    }
}

/// Trusted: `shellexpand::tilde_with_context`, given the home directory as a
/// value. On Unix-like systems it replaces a leading `~` that stands alone or
/// before `/` by the home directory when one is given, and returns every
/// other input unchanged.
#[verifier::external_body]
pub(crate) fn tilde_with_home(path: &str, home: &Option<String>) -> (r: String)
    ensures
        r@ == tilde_expanded(path@, home.deep_view()),
{
    shellexpand::tilde_with_context(path, || home.as_deref()).into_owned()
}

/// Expands a leading `~` against the given home directory.
pub fn expand_tilde_in(path: &str, home: &Option<String>) -> (r: String)
    ensures
        r@ == tilde_expanded(path@, home.deep_view()),
{
    tilde_with_home(path, home)
}

/// Expands a leading `~` against the home directory of the current user.
/// Whatever that directory is, a path that does not begin with `~` comes
/// back unchanged.
pub fn expand_tilde(path: &str) -> (r: String)
    ensures
        exists|home: Option<Seq<char>>| r@ == #[trigger] tilde_expanded(path@, home),
        !(path@.len() > 0 && path@[0] == '~') ==> r@ == path@,
{
    let home = home_dir();
    expand_tilde_in(path, &home)
}

} // verus!
