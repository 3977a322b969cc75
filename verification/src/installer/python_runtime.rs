//! The portable CPython build the bundled yt-dlp runs on: a pinned
//! python-build-standalone release, so the interpreter always matches the
//! vendored yt-dlp it was tested with.

use vstd::prelude::*;

use crate::paths::{join_path_on, path_join_on, target_is_windows};

verus! {

/// The python-build-standalone release to fetch.
pub const RELEASE_TAG: &'static str = "20260814";

pub const PYTHON_VERSION: &'static str = "3.12.14";

pub open spec fn spec_download_url(windows: bool) -> Seq<char> {
    if windows {
        "https://github.com/astral-sh/python-build-standalone/releases/download/20260814/cpython-3.12.14+20260814-x86_64-pc-windows-msvc-install_only_stripped.tar.gz"@
    } else {
        "https://github.com/astral-sh/python-build-standalone/releases/download/20260814/cpython-3.12.14+20260814-x86_64-unknown-linux-gnu-install_only_stripped.tar.gz"@
    }
}

/// The runtime's download URL for Windows (`windows`) or Linux.
pub fn download_url_for(windows: bool) -> (r: &'static str)
    ensures
        r@ == spec_download_url(windows),
{
    if windows {
        "https://github.com/astral-sh/python-build-standalone/releases/download/20260814/cpython-3.12.14+20260814-x86_64-pc-windows-msvc-install_only_stripped.tar.gz"
    } else {
        "https://github.com/astral-sh/python-build-standalone/releases/download/20260814/cpython-3.12.14+20260814-x86_64-unknown-linux-gnu-install_only_stripped.tar.gz"
    }
}

/// The runtime's download URL for the platform the library was built for.
pub fn download_url() -> (r: &'static str)
    ensures
        r@ == spec_download_url(true) || r@ == spec_download_url(false),
{
    download_url_for(target_is_windows())
}

/// Where the interpreter ends up inside the unpacked runtime directory:
/// `python.exe` on Windows, `bin/python3` elsewhere.
pub open spec fn spec_python_exe_path(runtime_dir: Seq<char>, windows: bool) -> Seq<char> {
    if windows {
        path_join_on(windows, runtime_dir, "python.exe"@)
    } else {
        path_join_on(windows, path_join_on(windows, runtime_dir, "bin"@), "python3"@)
    }
}

pub fn python_exe_path_for(runtime_dir: &str, windows: bool) -> (r: String)
    ensures
        r@ == spec_python_exe_path(runtime_dir@, windows),
{
    if windows {
        join_path_on(windows, runtime_dir, "python.exe")
    } else {
        let bin = join_path_on(windows, runtime_dir, "bin");
        join_path_on(windows, bin.as_str(), "python3")
    }
}

/// The interpreter's path inside `runtime_dir` on the platform the library
/// was built for.
pub fn python_exe_path(runtime_dir: &str) -> (r: String)
    ensures
        r@ == spec_python_exe_path(runtime_dir@, true) || r@ == spec_python_exe_path(
            runtime_dir@,
            false,
        ),
{
    python_exe_path_for(runtime_dir, target_is_windows())
}

} // verus!
