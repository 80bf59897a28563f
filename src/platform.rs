//! Host-dependent behaviour, as plain values: which host the tool runs on decides whether a
//! leading `~` in a path is expanded here and whether the run ends with a pause.

use vstd::prelude::*;

verus! {

/// The kind of host the tool runs on.
#[derive(Clone, Copy, Debug, PartialEq, Eq, Structural)]
pub enum Platform {
    /// A host whose shell leaves `~` alone and whose console window closes with the program.
    Windows,
    /// Any other host: its shell has already expanded `~`, and its terminal stays open.
    Other,
}

/// `s` ends with `tail`.
pub open spec fn ends_with(s: Seq<char>, tail: Seq<char>) -> bool {
    &&& s.len() >= tail.len()
    &&& s.subrange(s.len() - tail.len(), s.len() as int) == tail
}

/// `s` starts with a `~` that stands for the home directory: the `~` alone, or followed by a
/// path separator.
pub open spec fn home_prefixed(s: Seq<char>) -> bool {
    &&& s.len() > 0
    &&& s[0] == '~'
    &&& (s.len() == 1 || s[1] == '/' || s[1] == '\\')
}

/// What holds of any home-directory expansion of `s` into `r`, whatever the home directory is:
/// a path without a home prefix is kept as it is, and one with it keeps all that follows the `~`.
pub open spec fn tilde_expansion(s: Seq<char>, r: Seq<char>) -> bool {
    &&& !home_prefixed(s) ==> r == s
    &&& home_prefixed(s) ==> ends_with(r, s.drop_first())
}

/// How `path` may read once the host's expansion has been applied to it.
pub open spec fn expanded_on(platform: Platform, path: Seq<char>, r: Seq<char>) -> bool {
    match platform {
        Platform::Windows => tilde_expansion(path, r),
        Platform::Other => r == path,
    }
}

/// Relies on shellexpand::tilde: the input is returned unchanged unless it starts with `~`
/// followed by the end, `/` (or `\` on Windows); then the `~` is replaced by the home directory
/// when one is known, and the rest is kept.
#[verifier::external_body]
fn tilde(s: &str) -> (r: String)
    ensures
        tilde_expansion(s@, r@),
{
    shellexpand::tilde(s).into_owned()
}

/// Applies the host's path-prefix expansion to `path`: on Windows a leading home-directory `~`
/// is replaced, elsewhere the path is returned as it is.
pub fn expand_tilde(path: String, platform: Platform) -> (r: String)
    ensures
        expanded_on(platform, path@, r@),
{
    match platform {
        Platform::Windows => tilde(path.as_str()),
        Platform::Other => path,
    }
}

} // verus!
