//! Everything that differs between ffmpeg and deno: where to download each
//! from, what the executables are called, and how to ask one for its
//! version.

use vstd::prelude::*;

use crate::paths::target_is_windows;
use crate::text::concat;

verus! {

#[derive(Debug, Clone, Copy, PartialEq, Eq, Structural)]
pub enum Tool {
    Ffmpeg,
    Deno,
}

impl Tool {
    /// The tools installed through the generic per-tool path: just deno.
    /// ffmpeg is installed separately since it needs a second file
    /// (`ffprobe`) from the same archive.
    pub const ALL: [Tool; 1] = [Tool::Deno];

    pub open spec fn spec_display_name(self) -> Seq<char> {
        match self {
            Tool::Ffmpeg => "ffmpeg"@,
            Tool::Deno => "deno (JS runtime)"@,
        }
    }

    pub fn display_name(self) -> (r: &'static str)
        ensures
            r@ == self.spec_display_name(),
    {
        match self {
            Tool::Ffmpeg => "ffmpeg",
            Tool::Deno => "deno (JS runtime)",
        }
    }

    pub open spec fn spec_exe_stem(self) -> Seq<char> {
        match self {
            Tool::Ffmpeg => "ffmpeg"@,
            Tool::Deno => "deno"@,
        }
    }

    /// Base executable name, no platform extension -- also what `PATH` is
    /// searched for.
    pub fn exe_stem(self) -> (r: &'static str)
        ensures
            r@ == self.spec_exe_stem(),
    {
        match self {
            Tool::Ffmpeg => "ffmpeg",
            Tool::Deno => "deno",
        }
    }

    pub open spec fn spec_exe_filename(self, windows: bool) -> Seq<char> {
        if windows {
            self.spec_exe_stem() + ".exe"@
        } else {
            self.spec_exe_stem()
        }
    }

    /// The executable's file name on Windows (`windows`) or elsewhere.
    pub fn exe_filename_for(self, windows: bool) -> (r: String)
        ensures
            r@ == self.spec_exe_filename(windows),
    {
        if windows {
            concat(self.exe_stem(), ".exe")
        } else {
            String::from_str(self.exe_stem())
        }
    }

    /// The executable's file name on the platform the library was built
    /// for.
    pub fn exe_filename(self) -> (r: String)
        ensures
            r@ == self.spec_exe_filename(true) || r@ == self.spec_exe_filename(false),
    {
        self.exe_filename_for(target_is_windows())
    }

    pub open spec fn spec_companion(self, windows: bool) -> Option<Seq<char>> {
        match self {
            Tool::Ffmpeg => Some(
                if windows {
                    "ffprobe.exe"@
                } else {
                    "ffprobe"@
                },
            ),
            Tool::Deno => None,
        }
    }

    /// `ffprobe`, shipped in the same archive as ffmpeg: yt-dlp looks for
    /// it next to ffmpeg.
    pub fn companion_exe_filename_for(self, windows: bool) -> (r: Option<String>)
        ensures
            match (r, self.spec_companion(windows)) {
                (Some(a), Some(b)) => a@ == b,
                (None, None) => true,
                _ => false,
            },
    {
        match self {
            Tool::Ffmpeg => Some(
                if windows {
                    String::from_str("ffprobe.exe")
                } else {
                    String::from_str("ffprobe")
                },
            ),
            Tool::Deno => None,
        }
    }

    /// The companion executable for the platform the library was built for.
    pub fn companion_exe_filename(self) -> (r: Option<String>)
        ensures
            r is Some <==> self == Tool::Ffmpeg,
    {
        self.companion_exe_filename_for(target_is_windows())
    }

    pub open spec fn spec_version_args(self) -> Seq<Seq<char>> {
        match self {
            Tool::Ffmpeg => seq!["-version"@],
            Tool::Deno => seq!["--version"@],
        }
    }

    /// Arguments that make the tool print its version and exit.
    pub fn version_args(self) -> (r: Vec<&'static str>)
        ensures
            r@.len() == self.spec_version_args().len(),
            forall|i: int| 0 <= i < r@.len() ==> r@[i]@ == self.spec_version_args()[i],
    {
        let mut v: Vec<&'static str> = Vec::new();
        match self {
            Tool::Ffmpeg => v.push("-version"),
            Tool::Deno => v.push("--version"),
        }
        v
    }

    /// Neither tool is strictly required: without them some features
    /// degrade, but the app still runs.
    pub fn required(self) -> (r: bool)
        ensures
            !r,
    {
        false
    }

    pub open spec fn spec_download_url(self, windows: bool) -> Seq<char> {
        match self {
            Tool::Ffmpeg => if windows {
                "https://github.com/BtbN/FFmpeg-Builds/releases/download/latest/ffmpeg-master-latest-win64-gpl.zip"@
            } else {
                "https://johnvansickle.com/ffmpeg/releases/ffmpeg-release-amd64-static.tar.xz"@
            },
            Tool::Deno => if windows {
                "https://github.com/denoland/deno/releases/latest/download/deno-x86_64-pc-windows-msvc.zip"@
            } else {
                "https://github.com/denoland/deno/releases/latest/download/deno-x86_64-unknown-linux-gnu.zip"@
            },
        }
    }

    /// Where the standalone build is downloaded from, for Windows
    /// (`windows`) or Linux.
    pub fn download_url_for(self, windows: bool) -> (r: &'static str)
        ensures
            r@ == self.spec_download_url(windows),
    {
        match self {
            Tool::Ffmpeg => if windows {
                "https://github.com/BtbN/FFmpeg-Builds/releases/download/latest/ffmpeg-master-latest-win64-gpl.zip"
            } else {
                "https://johnvansickle.com/ffmpeg/releases/ffmpeg-release-amd64-static.tar.xz"
            },
            Tool::Deno => if windows {
                "https://github.com/denoland/deno/releases/latest/download/deno-x86_64-pc-windows-msvc.zip"
            } else {
                "https://github.com/denoland/deno/releases/latest/download/deno-x86_64-unknown-linux-gnu.zip"
            },
        }
    }

    /// The download URL for the platform the library was built for.
    pub fn download_url(self) -> (r: &'static str)
        ensures
            r@ == self.spec_download_url(true) || r@ == self.spec_download_url(false),
    {
        self.download_url_for(target_is_windows())
    }
}

} // verus!
