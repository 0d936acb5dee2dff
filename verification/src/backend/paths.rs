//! Joining paths under the application directory, as `Path::join` does
//! for a relative component on each platform family.

use vstd::prelude::*;

use crate::backend::platform::TargetOs;
use crate::text;

verus! {

/// A Unix path is absolute when it starts at the root.
pub open spec fn is_absolute_unix(p: Seq<char>) -> bool {
    p.len() > 0 && p[0] == '/'
}

/// `base.join(rel)` on Unix: an absolute `rel` replaces `base`; otherwise
/// a `/` separates the two unless `base` is empty or ends in one.
pub open spec fn join_unix(base: Seq<char>, rel: Seq<char>) -> Seq<char> {
    if is_absolute_unix(rel) || base.len() == 0 {
        rel
    } else if base.last() == '/' {
        base + rel
    } else {
        base + "/"@ + rel
    }
}

/// `base` joined with the relative `rel` on Windows: a backslash in
/// between unless `base` is empty or already ends in a separator.
pub open spec fn join_windows(base: Seq<char>, rel: Seq<char>) -> Seq<char> {
    if base.len() == 0 {
        rel
    } else if base.last() == '\\' || base.last() == '/' {
        base + rel
    } else {
        base + "\\"@ + rel
    }
}

/// Whether `p` is an absolute Unix path.
pub fn is_absolute_path(p: &str) -> (r: bool)
    ensures
        r == is_absolute_unix(p@),
{
    p.unicode_len() > 0 && p.get_char(0) == '/'
}

/// Joins two Unix paths.
pub fn join_path(base: &str, rel: &str) -> (r: String)
    ensures
        r@ == join_unix(base@, rel@),
{
    let mut out = String::new();
    let n = base.unicode_len();
    if is_absolute_path(rel) || n == 0 {
        text::append_str(&mut out, rel);
        assert(Seq::<char>::empty() + rel@ =~= rel@);
        return out;
    }
    text::append_str(&mut out, base);
    if base.get_char(n - 1) != '/' {
        text::append_str(&mut out, "/");
    }
    text::append_str(&mut out, rel);
    assert(Seq::<char>::empty() + base@ =~= base@);
    assert(base@.last() == base@[n - 1]);
    out
}

/// Joins a Windows path with a relative component.
pub fn join_windows_path(base: &str, rel: &str) -> (r: String)
    ensures
        r@ == join_windows(base@, rel@),
{
    let n = base.unicode_len();
    let mut out = String::new();
    text::append_str(&mut out, base);
    if n > 0 {
        let last = base.get_char(n - 1);
        if last != '\\' && last != '/' {
            text::append_str(&mut out, "\\");
        }
    }
    text::append_str(&mut out, rel);
    assert(base@.len() > 0 ==> base@.last() == base@[n - 1]);
    assert(Seq::<char>::empty() + base@ =~= base@);
    out
}

/// Joins `rel` to `base` the way `os` does.
pub open spec fn join_for(os: TargetOs, base: Seq<char>, rel: Seq<char>) -> Seq<char> {
    if crate::backend::platform::is_windows_spec(os) {
        join_windows(base, rel)
    } else {
        join_unix(base, rel)
    }
}

/// The core's executable under the application directory:
/// `bin/zju-connect` (with `.exe` on Windows).
pub open spec fn binary_path_spec(app_dir: Seq<char>, os: TargetOs) -> Seq<char> {
    join_for(
        os,
        join_for(os, app_dir, "bin"@),
        if crate::backend::platform::is_windows_spec(os) {
            "zju-connect.exe"@
        } else {
            "zju-connect"@
        },
    )
}

/// Where the core's executable is expected under `app_dir`.
pub fn binary_path_under(app_dir: &str, os: TargetOs) -> (r: String)
    ensures
        r@ == binary_path_spec(app_dir@, os),
{
    if os.is_windows() {
        let bin = join_windows_path(app_dir, "bin");
        join_windows_path(bin.as_str(), "zju-connect.exe")
    } else {
        let bin = join_path(app_dir, "bin");
        join_path(bin.as_str(), "zju-connect")
    }
}


/// A Windows path separator.
pub open spec fn is_windows_sep(c: char) -> bool {
    c == '\\' || c == '/'
}

/// `p` starts with a drive prefix such as `C:`.
pub open spec fn has_drive_prefix(p: Seq<char>) -> bool {
    p.len() >= 2 && (('A' <= p[0] && p[0] <= 'Z') || ('a' <= p[0] && p[0] <= 'z')) && p[1] == ':'
}

/// A Windows path is absolute when it has a prefix and a root: a drive
/// with a separator after it (`C:\x`, `C:/x`), or one of the `\\`-prefixed
/// forms (`\\server\share`, `\\?\C:\x`). `C:x` and `\x` are not absolute.
pub open spec fn is_absolute_windows(p: Seq<char>) -> bool {
    (has_drive_prefix(p) && p.len() >= 3 && is_windows_sep(p[2])) || (p.len() >= 2
        && is_windows_sep(p[0]) && is_windows_sep(p[1]))
}

/// `base.join(rel)` on Windows: an absolute `rel`, or one with a drive but
/// no root (`C:x`), replaces `base`; a `rel` with a root but no drive
/// (`\x`) keeps only the drive of `base` (a `\\server\share` prefix of
/// `base` is not kept); anything else is appended with a separator.
pub open spec fn join_windows_path_spec(base: Seq<char>, rel: Seq<char>) -> Seq<char> {
    if is_absolute_windows(rel) || has_drive_prefix(rel) {
        rel
    } else if rel.len() > 0 && is_windows_sep(rel[0]) {
        if has_drive_prefix(base) {
            base.take(2) + rel
        } else {
            rel
        }
    } else {
        join_windows(base, rel)
    }
}

/// Whether `p` is absolute on `os`.
pub open spec fn is_absolute_for(os: TargetOs, p: Seq<char>) -> bool {
    if crate::backend::platform::is_windows_spec(os) {
        is_absolute_windows(p)
    } else {
        is_absolute_unix(p)
    }
}

/// `base.join(rel)` on `os`, for any `rel`.
pub open spec fn join_path_for(os: TargetOs, base: Seq<char>, rel: Seq<char>) -> Seq<char> {
    if crate::backend::platform::is_windows_spec(os) {
        join_windows_path_spec(base, rel)
    } else {
        join_unix(base, rel)
    }
}

fn is_sep_char(c: char) -> (r: bool)
    ensures
        r == is_windows_sep(c),
{
    c == '\\' || c == '/'
}

fn drive_prefix(p: &str) -> (r: bool)
    ensures
        r == has_drive_prefix(p@),
{
    if p.unicode_len() < 2 {
        return false;
    }
    let c = p.get_char(0);
    (('A' <= c && c <= 'Z') || ('a' <= c && c <= 'z')) && p.get_char(1) == ':'
}

fn absolute_windows(p: &str) -> (r: bool)
    ensures
        r == is_absolute_windows(p@),
{
    let n = p.unicode_len();
    (drive_prefix(p) && n >= 3 && is_sep_char(p.get_char(2))) || (n >= 2 && is_sep_char(
        p.get_char(0),
    ) && is_sep_char(p.get_char(1)))
}

/// Whether `p` is an absolute path on `os`.
pub fn is_absolute_on(os: TargetOs, p: &str) -> (r: bool)
    ensures
        r == is_absolute_for(os, p@),
{
    if os.is_windows() {
        absolute_windows(p)
    } else {
        is_absolute_path(p)
    }
}

/// `base.join(rel)` on `os`.
pub fn join_path_on(os: TargetOs, base: &str, rel: &str) -> (r: String)
    ensures
        r@ == join_path_for(os, base@, rel@),
{
    if !os.is_windows() {
        return join_path(base, rel);
    }
    if absolute_windows(rel) || drive_prefix(rel) {
        return rel.to_owned();
    }
    if rel.unicode_len() > 0 && is_sep_char(rel.get_char(0)) {
        if drive_prefix(base) {
            let mut out = String::new();
            let head = base.substring_char(0, 2);
            text::append_str(&mut out, head);
            text::append_str(&mut out, rel);
            assert(head@ =~= base@.take(2));
            assert(out@ =~= base@.take(2) + rel@);
            return out;
        }
        return rel.to_owned();
    }
    join_windows_path(base, rel)
}

/// `rel` (a plain relative name) under `base`, with the separator of `os`.
pub fn join_under(os: TargetOs, base: &str, rel: &str) -> (r: String)
    ensures
        r@ == join_for(os, base@, rel@),
{
    if os.is_windows() {
        join_windows_path(base, rel)
    } else {
        join_path(base, rel)
    }
}

} // verus!
