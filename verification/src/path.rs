//! Directory paths as text.
//!
//! A path is a sequence of characters whose components are separated by
//! `/`. Three kinds of path are told apart by how they begin: an absolute
//! path begins with `/`, a home-relative path begins with the marker `~/`,
//! and every other path is relative to the application.

use vstd::prelude::*;

verus! {

/// The character that separates the components of a path.
pub const SEPARATOR: char = '/';

/// The character that opens the home-relative marker.
pub const HOME: char = '~';

/// Whether `path` is absolute: it begins with the separator.
pub open spec fn is_absolute(path: Seq<char>) -> bool {
    path.len() >= 1 && path[0] == SEPARATOR
}

/// Whether `path` begins with the home-relative marker `~/`.
pub open spec fn is_home_relative(path: Seq<char>) -> bool {
    path.len() >= 2 && path[0] == HOME && path[1] == SEPARATOR
}

/// What is left of a home-relative path once its marker is taken away.
pub open spec fn without_home_marker(path: Seq<char>) -> Seq<char>
    recommends
        is_home_relative(path),
{
    path.subrange(2, path.len() as int)
}

/// `path` adjoined to `base`.
///
/// An absolute `path` replaces `base`. Otherwise `path` follows `base`,
/// with one separator put between them unless `base` is empty or already
/// ends with one.
pub open spec fn joined(base: Seq<char>, path: Seq<char>) -> Seq<char> {
    if is_absolute(path) {
        path
    } else if base.len() == 0 || base.last() == SEPARATOR {
        base + path
    } else {
        base.push(SEPARATOR) + path
    }
}

/// The directory that `path` names, seen from a project root and an
/// application root.
///
/// An absolute path names itself. A home-relative path is taken from the
/// project root, without its marker. Any other path is taken from the
/// application root.
pub open spec fn resolved(
    project_root: Seq<char>,
    application_root: Seq<char>,
    path: Seq<char>,
) -> Seq<char> {
    if is_absolute(path) {
        path
    } else if is_home_relative(path) {
        joined(project_root, without_home_marker(path))
    } else {
        joined(application_root, path)
    }
}

/// Tells whether `path` is absolute.
pub fn starts_at_root(path: &str) -> (absolute: bool)
    ensures
        absolute == is_absolute(path@),
{
    path.unicode_len() >= 1 && path.get_char(0) == SEPARATOR
}

/// Tells whether `path` begins with the home-relative marker.
pub fn starts_at_home(path: &str) -> (home: bool)
    ensures
        home == is_home_relative(path@),
{
    path.unicode_len() >= 2 && path.get_char(0) == HOME && path.get_char(1) == SEPARATOR
}

/// Adjoins `path` to `base`.
pub fn join(base: &str, path: &str) -> (whole: String)
    ensures
        whole@ == joined(base@, path@),
{
    if starts_at_root(path) {
        return String::from_str(path);
    }
    let length: usize = base.unicode_len();
    let mut whole = String::from_str(base);
    if length > 0 && base.get_char(length - 1) != SEPARATOR {
        whole.append("/");
        proof {
            reveal_strlit("/");
            assert("/"@ =~= seq![SEPARATOR]);
            assert(whole@ =~= base@.push(SEPARATOR));
        }
    }
    whole.append(path);
    whole
}

/// Resolves `path` against a project root and an application root.
pub fn resolve(project_root: &str, application_root: &str, path: &str) -> (directory: String)
    ensures
        directory@ == resolved(project_root@, application_root@, path@),
{
    if starts_at_root(path) {
        String::from_str(path)
    } else if starts_at_home(path) {
        let rest = path.substring_char(2, path.unicode_len());
        join(project_root, rest)
    } else {
        join(application_root, path)
    }
}

} // verus!
