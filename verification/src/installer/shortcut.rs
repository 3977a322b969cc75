//! A clickable launcher for the desktop app: a `.url` Internet Shortcut in
//! the Start Menu on Windows (plain text, no COM needed), an XDG desktop
//! entry on Linux. Writing the files happens outside the library; their
//! locations and contents are decided here.

use vstd::prelude::*;

use crate::paths::{join_path, join_path_on, path_join, path_join_on, win_path_join};
use crate::text::{chars_of, concat, string_of};

verus! {

/// The Start Menu's programs folder under `%APPDATA%`.
pub fn start_menu_dir(app_data: &str) -> (r: String)
    ensures
        r@ == win_path_join(
            win_path_join(win_path_join(win_path_join(app_data@, "Microsoft"@), "Windows"@), "Start Menu"@),
            "Programs"@,
        ),
{
    let a = join_path_on(true, app_data, "Microsoft");
    let b = join_path_on(true, a.as_str(), "Windows");
    let c = join_path_on(true, b.as_str(), "Start Menu");
    join_path_on(true, c.as_str(), "Programs")
}

/// The per-user applications folder under `$HOME`.
pub fn applications_dir(home: &str) -> (r: String)
    ensures
        r@ == path_join(path_join(path_join(home@, ".local"@), "share"@), "applications"@),
{
    let a = join_path(home, ".local");
    let b = join_path(a.as_str(), "share");
    join_path(b.as_str(), "applications")
}

/// The shortcut file: `VidSave.url` in the Start Menu folder on Windows
/// (its file name is what the Start Menu shows), `vidsave.desktop` in the
/// applications folder elsewhere.
pub fn shortcut_file(dir: &str, windows: bool) -> (r: String)
    ensures
        r@ == path_join_on(
            windows,
            dir@,
            if windows {
                "VidSave.url"@
            } else {
                "vidsave.desktop"@
            },
        ),
{
    if windows {
        join_path_on(windows, dir, "VidSave.url")
    } else {
        join_path_on(windows, dir, "vidsave.desktop")
    }
}

/// `s` with every `from` replaced by `to`.
pub open spec fn replace_char(s: Seq<char>, from: char, to: char) -> Seq<char> {
    s.map_values(|c: char| if c == from { to } else { c })
}

fn replace_char_exec(s: &str, from: char, to: char) -> (r: String)
    ensures
        r@ == replace_char(s@, from, to),
{
    let cs = chars_of(s);
    let mut out: Vec<char> = Vec::new();
    let mut i: usize = 0;
    while i < cs.len()
        invariant
            i <= cs@.len(),
            out@ == replace_char(cs@.take(i as int), from, to),
        decreases cs@.len() - i,
    {
        let c = cs[i];
        out.push(if c == from { to } else { c });
        i = i + 1;
        assert(out@ =~= replace_char(cs@.take(i as int), from, to));
    }
    assert(cs@.take(cs@.len() as int) =~= cs@);
    string_of(out.as_slice())
}

pub open spec fn spec_url_shortcut(exe: Seq<char>) -> Seq<char> {
    "[InternetShortcut]\r\nURL=file:///"@ + replace_char(exe, '\\', '/') + "\r\nIconFile="@ + exe
        + "\r\nIconIndex=0\r\n"@
}

/// The `.url` shortcut's text: a `file:///` URL to the executable (with
/// forward slashes), and the executable itself as the icon.
pub fn url_shortcut(exe: &str) -> (r: String)
    ensures
        r@ == spec_url_shortcut(exe@),
{
    let fwd = replace_char_exec(exe, '\\', '/');
    let a = concat("[InternetShortcut]\r\nURL=file:///", fwd.as_str());
    let b = concat(a.as_str(), "\r\nIconFile=");
    let c = concat(b.as_str(), exe);
    concat(c.as_str(), "\r\nIconIndex=0\r\n")
}

/// The icon next to the executable (`icon.png` in its directory), or an
/// empty path when the executable has no parent directory.
pub fn icon_path(exe_dir: Option<&str>) -> (r: String)
    ensures
        r@ == match exe_dir {
            Some(d) => path_join(d@, "icon.png"@),
            None => Seq::<char>::empty(),
        },
{
    match exe_dir {
        Some(d) => join_path(d, "icon.png"),
        None => String::new(),
    }
}

pub open spec fn spec_desktop_entry(exe: Seq<char>, icon: Seq<char>) -> Seq<char> {
    "[Desktop Entry]\nType=Application\nName=VidSave\nComment=Download YouTube playlists and videos\nExec=\""@
        + exe + "\"\nIcon="@ + icon + "\nTerminal=false\nCategories=AudioVideo;Network;\n"@
}

/// The XDG desktop entry's text, launching `exe` with `icon`.
pub fn desktop_entry(exe: &str, icon: &str) -> (r: String)
    ensures
        r@ == spec_desktop_entry(exe@, icon@),
{
    let a = concat(
        "[Desktop Entry]\nType=Application\nName=VidSave\nComment=Download YouTube playlists and videos\nExec=\"",
        exe,
    );
    let b = concat(a.as_str(), "\"\nIcon=");
    let c = concat(b.as_str(), icon);
    concat(c.as_str(), "\nTerminal=false\nCategories=AudioVideo;Network;\n")
}

} // verus!
