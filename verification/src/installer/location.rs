//! Where everything gets installed: a dedicated per-user directory, so no
//! administrator rights are needed.

use vstd::prelude::*;

use crate::paths::{join_path, join_path_on, path_join, win_path_join};

verus! {

/// `%LOCALAPPDATA%\Programs\Playloader` on Windows.
pub fn install_dir_windows(local_app_data: &str) -> (r: String)
    ensures
        r@ == win_path_join(win_path_join(local_app_data@, "Programs"@), "Playloader"@),
{
    let p = join_path_on(true, local_app_data, "Programs");
    join_path_on(true, p.as_str(), "Playloader")
}

/// `~/.local/share/playloader` elsewhere.
pub fn install_dir_unix(home: &str) -> (r: String)
    ensures
        r@ == path_join(path_join(path_join(home@, ".local"@), "share"@), "playloader"@),
{
    let a = join_path(home, ".local");
    let b = join_path(a.as_str(), "share");
    join_path(b.as_str(), "playloader")
}

/// Why the install directory could not be determined: the variable that
/// was not set.
pub open spec fn spec_missing_var_message(windows: bool) -> Seq<char> {
    if windows {
        "%LOCALAPPDATA% is not set"@
    } else {
        "$HOME is not set"@
    }
}

pub fn missing_var_message(windows: bool) -> (r: &'static str)
    ensures
        r@ == spec_missing_var_message(windows),
{
    if windows {
        "%LOCALAPPDATA% is not set"
    } else {
        "$HOME is not set"
    }
}

} // verus!
