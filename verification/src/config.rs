//! Persistent, user-editable settings, and where the app keeps its files.
//! Reading and writing the TOML file itself is done outside the library;
//! here are the values, their defaults, and the paths derived from them.

use vstd::prelude::*;

use directories::{ProjectDirs, UserDirs};

use crate::models::{AudioFormat, MediaMode, VideoContainer, VideoQuality};
use crate::paths::{join_path_on, path_join_on, target_is_windows};
use crate::text::{chars_of, split_whitespace, views, words};

verus! {

#[verifier::external_type_specification]
#[verifier::external_body]
pub struct ExUserDirs(UserDirs);

#[verifier::external_type_specification]
#[verifier::external_body]
pub struct ExProjectDirs(ProjectDirs);

/// `directories::UserDirs::new()`: the user's standard directories, if a
/// home directory can be found. Depends on the environment, so nothing is
/// promised of the result.
#[verifier::external_body]
fn user_dirs() -> Option<UserDirs> {
    UserDirs::new()
}

/// `UserDirs::video_dir`, as a string. Depends on the environment.
#[verifier::external_body]
fn user_video_dir(dirs: &UserDirs) -> Option<String> {
    dirs.video_dir().map(|p| p.to_string_lossy().to_string())
}

/// `UserDirs::home_dir`, as a string. Depends on the environment.
#[verifier::external_body]
fn user_home_dir(dirs: &UserDirs) -> String {
    dirs.home_dir().to_string_lossy().to_string()
}

/// `directories::ProjectDirs::from(qualifier, organization, application)`:
/// the app's own directories, if a home directory can be found. Depends on
/// the environment.
#[verifier::external_body]
fn project_dirs_from(qualifier: &str, organization: &str, application: &str) -> Option<
    ProjectDirs,
> {
    ProjectDirs::from(qualifier, organization, application)
}

/// `ProjectDirs::config_dir`, as a string. Depends on the environment.
#[verifier::external_body]
fn project_config_dir(dirs: &ProjectDirs) -> String {
    dirs.config_dir().to_string_lossy().to_string()
}

/// `ProjectDirs::data_dir`, as a string. Depends on the environment.
#[verifier::external_body]
fn project_data_dir(dirs: &ProjectDirs) -> String {
    dirs.data_dir().to_string_lossy().to_string()
}

/// The mathematical view of `Settings`: every field, strings as character
/// sequences.
pub struct SettingsModel {
    pub output_dir: Seq<char>,
    pub media_mode: MediaMode,
    pub video_quality: VideoQuality,
    pub video_container: VideoContainer,
    pub audio_format: AudioFormat,
    pub filename_template: Seq<char>,
    pub concurrency: usize,
    pub embed_thumbnail: bool,
    pub embed_metadata: bool,
    pub embed_chapters: bool,
    pub write_subtitles: bool,
    pub embed_subtitles: bool,
    pub write_auto_subs: bool,
    pub subtitle_langs: Seq<char>,
    pub use_download_archive: bool,
    pub playlist_reverse: bool,
    pub playlist_start: Option<u32>,
    pub playlist_end: Option<u32>,
    pub rate_limit: Seq<char>,
    pub retries: u32,
    pub proxy: Seq<char>,
    pub cookies_file: Seq<char>,
    pub sponsorblock_remove: bool,
    pub extra_args: Seq<char>,
}

#[derive(Debug)]
pub struct Settings {
    pub output_dir: String,
    pub media_mode: MediaMode,
    pub video_quality: VideoQuality,
    pub video_container: VideoContainer,
    pub audio_format: AudioFormat,
    /// Output filename template, relative to `output_dir`. `{index}`
    /// (rendered by us, not yt-dlp -- see `ytdlp::render_filename_template`)
    /// expands to `"N - "` for playlist entries or nothing for a lone
    /// video; everything else uses yt-dlp's own `%(...)s` fields.
    pub filename_template: String,
    /// Number of simultaneous downloads.
    pub concurrency: usize,
    pub embed_thumbnail: bool,
    pub embed_metadata: bool,
    pub embed_chapters: bool,
    pub write_subtitles: bool,
    pub embed_subtitles: bool,
    pub write_auto_subs: bool,
    /// Comma-separated language codes, e.g. "en,fr" or "all".
    pub subtitle_langs: String,
    /// Skip items already recorded in the download archive file.
    pub use_download_archive: bool,
    pub playlist_reverse: bool,
    pub playlist_start: Option<u32>,
    pub playlist_end: Option<u32>,
    /// e.g. "2M" / "500K", empty string = unlimited.
    pub rate_limit: String,
    pub retries: u32,
    /// Empty string = no proxy.
    pub proxy: String,
    /// Path to a cookies file (Netscape format), empty = none.
    pub cookies_file: String,
    /// Strip sponsor/self-promo segments via the SponsorBlock API.
    pub sponsorblock_remove: bool,
    /// Free-form extra yt-dlp CLI arguments appended verbatim (space separated).
    pub extra_args: String,
}

impl View for Settings {
    type V = SettingsModel;

    open spec fn view(&self) -> SettingsModel {
        SettingsModel {
            output_dir: self.output_dir@,
            media_mode: self.media_mode,
            video_quality: self.video_quality,
            video_container: self.video_container,
            audio_format: self.audio_format,
            filename_template: self.filename_template@,
            concurrency: self.concurrency,
            embed_thumbnail: self.embed_thumbnail,
            embed_metadata: self.embed_metadata,
            embed_chapters: self.embed_chapters,
            write_subtitles: self.write_subtitles,
            embed_subtitles: self.embed_subtitles,
            write_auto_subs: self.write_auto_subs,
            subtitle_langs: self.subtitle_langs@,
            use_download_archive: self.use_download_archive,
            playlist_reverse: self.playlist_reverse,
            playlist_start: self.playlist_start,
            playlist_end: self.playlist_end,
            rate_limit: self.rate_limit@,
            retries: self.retries,
            proxy: self.proxy@,
            cookies_file: self.cookies_file@,
            sponsorblock_remove: self.sponsorblock_remove,
            extra_args: self.extra_args@,
        }
    }
}

impl Clone for Settings {
    fn clone(&self) -> (r: Self)
        ensures
            r@ == self@,
    {
        Settings {
            output_dir: self.output_dir.clone(),
            media_mode: self.media_mode,
            video_quality: self.video_quality,
            video_container: self.video_container,
            audio_format: self.audio_format,
            filename_template: self.filename_template.clone(),
            concurrency: self.concurrency,
            embed_thumbnail: self.embed_thumbnail,
            embed_metadata: self.embed_metadata,
            embed_chapters: self.embed_chapters,
            write_subtitles: self.write_subtitles,
            embed_subtitles: self.embed_subtitles,
            write_auto_subs: self.write_auto_subs,
            subtitle_langs: self.subtitle_langs.clone(),
            use_download_archive: self.use_download_archive,
            playlist_reverse: self.playlist_reverse,
            playlist_start: self.playlist_start,
            playlist_end: self.playlist_end,
            rate_limit: self.rate_limit.clone(),
            retries: self.retries,
            proxy: self.proxy.clone(),
            cookies_file: self.cookies_file.clone(),
            sponsorblock_remove: self.sponsorblock_remove,
            extra_args: self.extra_args.clone(),
        }
    }
}

/// The default settings, with `output_dir` as given.
pub open spec fn default_settings_with(output_dir: Seq<char>) -> SettingsModel {
    SettingsModel {
        output_dir: output_dir,
        media_mode: MediaMode::VideoAudio,
        video_quality: VideoQuality::Best,
        video_container: VideoContainer::Mp4,
        audio_format: AudioFormat::Mp3,
        filename_template: "{index}%(title)s.%(ext)s"@,
        concurrency: 3,
        embed_thumbnail: true,
        embed_metadata: true,
        embed_chapters: false,
        write_subtitles: false,
        embed_subtitles: false,
        write_auto_subs: false,
        subtitle_langs: "en"@,
        // Off by default: a playlist can legitimately list the same video
        // more than once, and the least surprising behavior for "download
        // this playlist" is to fetch every listed entry rather than
        // silently dedup by video ID.
        use_download_archive: false,
        playlist_reverse: false,
        playlist_start: None,
        playlist_end: None,
        rate_limit: Seq::empty(),
        retries: 10,
        proxy: Seq::empty(),
        cookies_file: Seq::empty(),
        sponsorblock_remove: false,
        extra_args: Seq::empty(),
    }
}

/// The default output directory, given the user's video directory and home
/// directory as found (`None` for the outer option when no home directory
/// could be found at all): `<videos>/vidsave`, else `<home>/Videos/vidsave`,
/// else `./downloads`, joined as on Windows (`windows`) or on Unix.
pub open spec fn spec_default_output_dir(windows: bool, found: Option<(Option<Seq<char>>, Seq<char>)>) -> Seq<
    char,
> {
    match found {
        Some((Some(videos), _)) => path_join_on(windows, videos, "vidsave"@),
        Some((None, home)) => path_join_on(windows, path_join_on(windows, home, "Videos"@), "vidsave"@),
        None => "./downloads"@,
    }
}

/// The default output directory, from the user's directories as found.
pub fn default_output_dir_from(video_dir: Option<String>, home_dir: Option<String>, windows: bool) -> (r: String)
    ensures
        r@ == spec_default_output_dir(
            windows,
            match home_dir {
                Some(h) => Some((
                    match video_dir {
                        Some(v) => Some(v@),
                        None => None,
                    },
                    h@,
                )),
                None => None,
            },
        ),
{
    match home_dir {
        Some(home) => match video_dir {
            Some(videos) => join_path_on(windows, videos.as_str(), "vidsave"),
            None => {
                let v = join_path_on(windows, home.as_str(), "Videos");
                join_path_on(windows, v.as_str(), "vidsave")
            },
        },
        None => String::from_str("./downloads"),
    }
}

/// The default output directory for the user's directories as the OS
/// reports them: a `vidsave` folder in the video directory, else in
/// `Videos` under the home directory, else `./downloads`, joined as the
/// platform the library was built for joins paths.
fn default_output_dir() -> (r: String)
    ensures
        exists|w: bool, found: Option<(Option<Seq<char>>, Seq<char>)>| r@ == #[trigger] spec_default_output_dir(
            w,
            found,
        ),
{
    let windows = target_is_windows();
    match user_dirs() {
        Some(dirs) => {
            let videos = user_video_dir(&dirs);
            let home = user_home_dir(&dirs);
            default_output_dir_from(videos, Some(home), windows)
        },
        None => default_output_dir_from(None, None, windows),
    }
}

impl Default for Settings {
    fn default() -> (r: Self)
        ensures
            r@ == default_settings_with(r.output_dir@),
    {
        Settings {
            output_dir: default_output_dir(),
            media_mode: MediaMode::VideoAudio,
            video_quality: VideoQuality::Best,
            video_container: VideoContainer::Mp4,
            audio_format: AudioFormat::Mp3,
            filename_template: String::from_str("{index}%(title)s.%(ext)s"),
            concurrency: 3,
            embed_thumbnail: true,
            embed_metadata: true,
            embed_chapters: false,
            write_subtitles: false,
            embed_subtitles: false,
            write_auto_subs: false,
            subtitle_langs: String::from_str("en"),
            use_download_archive: false,
            playlist_reverse: false,
            playlist_start: None,
            playlist_end: None,
            rate_limit: String::new(),
            retries: 10,
            proxy: String::new(),
            cookies_file: String::new(),
            sponsorblock_remove: false,
            extra_args: String::new(),
        }
    }
}

/// `config.toml` inside the app's config directory, if there is one.
pub open spec fn spec_config_path(windows: bool, config_dir: Option<Seq<char>>) -> Option<Seq<char>> {
    match config_dir {
        Some(d) => Some(path_join_on(windows, d, "config.toml"@)),
        None => None,
    }
}

/// Where the download archive lives: `download_archive.txt` in the app's
/// data directory, or `.vidsave-archive.txt` inside `output_dir` when the
/// app has no data directory; joined as on Windows (`windows`) or on Unix.
pub open spec fn spec_archive_path(windows: bool, data_dir: Option<Seq<char>>, output_dir: Seq<char>) -> Seq<char> {
    match data_dir {
        Some(d) => path_join_on(windows, d, "download_archive.txt"@),
        None => path_join_on(windows, output_dir, ".vidsave-archive.txt"@),
    }
}

/// Whether `a` is where `archive_path` may put the archive for
/// `output_dir` on the given platform: inside some data directory, or
/// inside `output_dir`.
pub open spec fn is_archive_path_for(a: Seq<char>, output_dir: Seq<char>, windows: bool) -> bool {
    a == spec_archive_path(windows, None, output_dir) || exists|d: Seq<char>|
        a == #[trigger] spec_archive_path(windows, Some(d), output_dir)
}

/// The qualifier, organization and application name the platform's
/// directory lookup is asked for: the app's directories are
/// `ytb-dl-tui` (e.g. `~/.config/ytb-dl-tui` on Linux).
pub fn app_identity() -> (r: (&'static str, &'static str, &'static str))
    ensures
        r.0@ == "dev"@,
        r.1@ == "ytb-dl-tui"@,
        r.2@ == "ytb-dl-tui"@,
{
    ("dev", "ytb-dl-tui", "ytb-dl-tui")
}

/// The app's own directories, found from `app_identity`, if any.
pub(crate) fn project_dirs() -> Option<ProjectDirs> {
    let (qualifier, organization, application) = app_identity();
    project_dirs_from(qualifier, organization, application)
}

/// The app's data directory, if any.
pub fn project_dirs_data_dir() -> Option<String> {
    app_data_dir()
}

/// The app's data directory, if any.
pub fn app_data_dir() -> Option<String> {
    match project_dirs() {
        Some(d) => Some(project_data_dir(&d)),
        None => None,
    }
}

/// The app's config directory, if any.
pub fn app_config_dir() -> Option<String> {
    match project_dirs() {
        Some(d) => Some(project_config_dir(&d)),
        None => None,
    }
}

/// `config.toml` inside `config_dir`, if there is one.
pub fn config_path_in(config_dir: Option<String>, windows: bool) -> (r: Option<String>)
    ensures
        match r {
            Some(p) => config_dir is Some && spec_config_path(windows, Some(config_dir->0@)) == Some(p@),
            None => config_dir is None,
        },
{
    match config_dir {
        Some(d) => Some(join_path_on(windows, d.as_str(), "config.toml")),
        None => None,
    }
}

/// The archive path for the given data directory and output directory.
pub fn archive_path_in(data_dir: Option<String>, output_dir: &str, windows: bool) -> (r: String)
    ensures
        r@ == spec_archive_path(
            windows,
            match data_dir {
                Some(d) => Some(d@),
                None => None,
            },
            output_dir@,
        ),
{
    match data_dir {
        Some(d) => join_path_on(windows, d.as_str(), "download_archive.txt"),
        None => join_path_on(windows, output_dir, ".vidsave-archive.txt"),
    }
}

impl Settings {
    /// `config.toml` in the platform config directory, if one exists.
    pub fn config_path() -> (r: Option<String>)
        ensures
            r is Some ==> exists|w: bool, d: Seq<char>| spec_config_path(w, Some(d)) == Some(r->0@),
    {
        config_path_in(app_config_dir(), target_is_windows())
    }

    /// The `--download-archive` file used to skip already-downloaded videos.
    ///
    /// Deliberately independent of `output_dir` when the platform offers a
    /// data directory: it lives there rather than inside the user's media
    /// folder, so per-playlist output subfolders don't reset or fragment the
    /// dedup history.
    pub fn archive_path(&self) -> (r: String)
        ensures
            exists|w: bool| is_archive_path_for(r@, self.output_dir@, w),
    {
        let windows = target_is_windows();
        let r = archive_path_in(app_data_dir(), self.output_dir.as_str(), windows);
        assert(is_archive_path_for(r@, self.output_dir@, windows));
        r
    }

    /// The extra yt-dlp arguments, split on whitespace.
    pub fn extra_args_list(&self) -> (r: Vec<String>)
        ensures
            views(r@) == words(self.extra_args@),
    {
        let v = chars_of(self.extra_args.as_str());
        split_whitespace(v.as_slice())
    }
}

} // verus!
