//! File-system paths held as plain strings: joining one path onto another
//! the way `Path::join` does on Unix and on Windows, and which platform
//! family the library was built for.

use vstd::prelude::*;

use crate::text::{chars_of, concat};

verus! {

/// `base.join(rest)` with `/` as the separator: an absolute `rest` (one that
/// starts with `/`) replaces `base`; otherwise `rest` is appended, with a `/`
/// in between unless `base` is empty or already ends in one.
pub open spec fn path_join(base: Seq<char>, rest: Seq<char>) -> Seq<char> {
    if rest.len() > 0 && rest[0] == '/' {
        rest
    } else if base.len() == 0 || base.last() == '/' {
        base + rest
    } else {
        base + "/"@ + rest
    }
}

/// `Path::new(base).join(rest)`, as a string.
pub fn join_path(base: &str, rest: &str) -> (r: String)
    ensures
        r@ == path_join(base@, rest@),
{
    let b = chars_of(base);
    let r = chars_of(rest);
    if r.len() > 0 && r[0] == '/' {
        return String::from_str(rest);
    }
    if b.len() == 0 || b[b.len() - 1] == '/' {
        concat(base, rest)
    } else {
        proof {
            reveal_strlit("/");
        }
        let with_sep = concat(base, "/");
        concat(with_sep.as_str(), rest)
    }
}

/// A path separator on Windows: `\\` or `/`.
pub open spec fn is_win_sep(c: char) -> bool {
    c == '\\' || c == '/'
}

/// Starts with a drive prefix such as `C:`.
pub open spec fn has_drive(s: Seq<char>) -> bool {
    s.len() >= 2 && s[1] == ':' && (('a' <= s[0] && s[0] <= 'z') || ('A' <= s[0] && s[0] <= 'Z'))
}

/// `base.join(rest)` on Windows: a `rest` with a drive replaces `base`; a
/// `rest` starting with a separator replaces all of `base` but its drive;
/// otherwise `rest` is appended, with a `\\` in between unless `base` is
/// empty, is a bare drive (`C:`) or already ends in a separator.
pub open spec fn win_path_join(base: Seq<char>, rest: Seq<char>) -> Seq<char> {
    if has_drive(rest) {
        rest
    } else if rest.len() > 0 && is_win_sep(rest[0]) {
        if has_drive(base) {
            base.take(2) + rest
        } else {
            rest
        }
    } else if base.len() == 0 || is_win_sep(base.last()) || (base.len() == 2 && has_drive(base)) {
        base + rest
    } else {
        base + "\\"@ + rest
    }
}

/// `base.join(rest)` on Windows (`windows`) or on Unix.
pub open spec fn path_join_on(windows: bool, base: Seq<char>, rest: Seq<char>) -> Seq<char> {
    if windows {
        win_path_join(base, rest)
    } else {
        path_join(base, rest)
    }
}

fn is_drive_letter(c: char) -> (b: bool)
    ensures
        b == (('a' <= c && c <= 'z') || ('A' <= c && c <= 'Z')),
{
    ('a' <= c && c <= 'z') || ('A' <= c && c <= 'Z')
}

/// `Path::new(base).join(rest)` as Windows (`windows`) or Unix does it, as a
/// string.
pub fn join_path_on(windows: bool, base: &str, rest: &str) -> (r: String)
    ensures
        r@ == path_join_on(windows, base@, rest@),
{
    if !windows {
        return join_path(base, rest);
    }
    let b = chars_of(base);
    let r = chars_of(rest);
    let rest_drive = r.len() >= 2 && r[1] == ':' && is_drive_letter(r[0]);
    let base_drive = b.len() >= 2 && b[1] == ':' && is_drive_letter(b[0]);
    if rest_drive {
        return String::from_str(rest);
    }
    if r.len() > 0 && (r[0] == '\\' || r[0] == '/') {
        if base_drive {
            let mut out = String::new();
            crate::text::push_char(&mut out, b[0]);
            crate::text::push_char(&mut out, b[1]);
            assert(out@ =~= base@.take(2));
            return concat(out.as_str(), rest);
        }
        return String::from_str(rest);
    }
    if b.len() == 0 || b[b.len() - 1] == '\\' || b[b.len() - 1] == '/' || (b.len() == 2 && base_drive) {
        concat(base, rest)
    } else {
        let with_sep = concat(base, "\\");
        concat(with_sep.as_str(), rest)
    }
}

/// `std::path::MAIN_SEPARATOR`: `\` on Windows, `/` everywhere else. Which
/// one it is depends on the target the library was built for, so nothing is
/// promised of it.
#[verifier::external_body]
fn main_separator() -> char {
    std::path::MAIN_SEPARATOR
}

/// Whether the library was built for Windows (its path separator is `\`).
pub fn target_is_windows() -> bool {
    main_separator() == '\\'
}

} // verus!
