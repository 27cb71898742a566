//! Wildcard matching of log targets.

use vstd::prelude::*;

verus! {

/// The longest pattern, in characters, that is matched against a target.
/// A longer pattern matches nothing.
pub const MAX_PATTERN_LENGTH: usize = 1024;

/// Whether `pattern` is found in `text` by
/// `lexa_wildcard_matching::WildcardMatching::iswm`.
///
/// The crate makes a regular expression of the pattern, in which `*` stands
/// for any run of characters within a line, `?` for any one character of a
/// line, and every other character for itself, and looks for a match of it
/// anywhere in the text, whatever the case of the letters.
pub uninterp spec fn wildcard_match(text: Seq<char>, pattern: Seq<char>) -> bool;

/// Matches `pattern` against `text` with
/// `lexa_wildcard_matching::WildcardMatching::iswm`.
///
/// The crate turns the pattern into a regular expression and compiles it
/// anew on every call; the compilation fails, and the call panics, once the
/// compiled expression outgrows the size limit of the `regex` crate. The
/// contract leaves out the patterns over `MAX_PATTERN_LENGTH` characters for
/// that reason, and says of the others that the result depends on the two
/// texts alone.
#[verifier::external_body]
fn iswm(text: &str, pattern: &str) -> (found: bool)
    requires
        pattern@.len() <= MAX_PATTERN_LENGTH,
    ensures
        found == wildcard_match(text@, pattern@),
{
    lexa_wildcard_matching::WildcardMatching::iswm(&text, pattern)
}

/// Tells whether the filter `pattern` lets the log target `target` through:
/// whether the pattern is found in the target. A pattern over
/// `MAX_PATTERN_LENGTH` characters lets nothing through.
pub fn target_matches(target: &str, pattern: &str) -> (accepted: bool)
    ensures
        accepted == (pattern@.len() <= MAX_PATTERN_LENGTH && wildcard_match(target@, pattern@)),
{
    if pattern.unicode_len() <= MAX_PATTERN_LENGTH {
        iswm(target, pattern)
    } else {
        false
    }
}

} // verus!
