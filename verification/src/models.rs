//! Core data types shared across the app: playlist/video metadata, user-facing
//! enums for download options, and the state machine for an in-flight download.

use vstd::prelude::*;

use crate::text::{
    fmt_tenths, fmt_tenths_exec, pad_left, pad_left_exec, chars_of, concat, dec, dec2, eq_ignore_ascii_case, eq_ignore_ascii_case_chars, is_cc,
    is_control, is_whitespace, is_ws, string_of, trim, trim_chars, u64_to_string, u64_to_string2,
};

verus! {

// ---------------------------------------------------------------------------
// Download options
// ---------------------------------------------------------------------------

/// Whether to grab full video+audio or extract audio only.
#[derive(Debug, Clone, Copy, PartialEq, Eq, Structural)]
pub enum MediaMode {
    VideoAudio,
    AudioOnly,
}

impl MediaMode {
    pub open spec fn spec_label(self) -> Seq<char> {
        match self {
            MediaMode::VideoAudio => "Video + Audio"@,
            MediaMode::AudioOnly => "Audio only"@,
        }
    }

    pub fn label(self) -> (r: &'static str)
        ensures
            r@ == self.spec_label(),
    {
        match self {
            MediaMode::VideoAudio => "Video + Audio",
            MediaMode::AudioOnly => "Audio only",
        }
    }

    pub open spec fn spec_next(self) -> MediaMode {
        match self {
            MediaMode::VideoAudio => MediaMode::AudioOnly,
            MediaMode::AudioOnly => MediaMode::VideoAudio,
        }
    }

    pub fn next(self) -> (r: Self)
        ensures
            r == self.spec_next(),
    {
        match self {
            MediaMode::VideoAudio => MediaMode::AudioOnly,
            MediaMode::AudioOnly => MediaMode::VideoAudio,
        }
    }

    /// The previous value in the cycling order, wrapping around.
    pub open spec fn spec_prev(self) -> MediaMode {
        match self {
            MediaMode::VideoAudio => MediaMode::AudioOnly,
            MediaMode::AudioOnly => MediaMode::VideoAudio,
        }
    }

    pub fn prev(self) -> (r: Self)
        ensures
            r == self.spec_prev(),
    {
        match self {
            MediaMode::VideoAudio => MediaMode::AudioOnly,
            MediaMode::AudioOnly => MediaMode::VideoAudio,
        }
    }
}

/// Target vertical resolution cap for video downloads (`Best` = no cap).
#[derive(Debug, Clone, Copy, PartialEq, Eq, Structural)]
pub enum VideoQuality {
    Best,
    P2160,
    P1440,
    P1080,
    P720,
    P480,
    P360,
    Worst,
}

impl VideoQuality {
    /// Every quality, in the cycling order.
    pub const ALL: [VideoQuality; 8] = [
        VideoQuality::Best,
        VideoQuality::P2160,
        VideoQuality::P1440,
        VideoQuality::P1080,
        VideoQuality::P720,
        VideoQuality::P480,
        VideoQuality::P360,
        VideoQuality::Worst,
    ];

    /// Position in the cycling order `Best, P2160, P1440, P1080, P720, P480,
    /// P360, Worst`.
    pub open spec fn index(self) -> nat {
        match self {
            VideoQuality::Best => 0,
            VideoQuality::P2160 => 1,
            VideoQuality::P1440 => 2,
            VideoQuality::P1080 => 3,
            VideoQuality::P720 => 4,
            VideoQuality::P480 => 5,
            VideoQuality::P360 => 6,
            VideoQuality::Worst => 7,
        }
    }

    /// The quality at position `i` (taken modulo 8) of the cycling order.
    pub open spec fn at(i: nat) -> VideoQuality {
        let i = i % 8;
        if i == 0 {
            VideoQuality::Best
        } else if i == 1 {
            VideoQuality::P2160
        } else if i == 2 {
            VideoQuality::P1440
        } else if i == 3 {
            VideoQuality::P1080
        } else if i == 4 {
            VideoQuality::P720
        } else if i == 5 {
            VideoQuality::P480
        } else if i == 6 {
            VideoQuality::P360
        } else {
            VideoQuality::Worst
        }
    }

    pub open spec fn spec_label(self) -> Seq<char> {
        match self {
            VideoQuality::Best => "Best available"@,
            VideoQuality::P2160 => "2160p (4K)"@,
            VideoQuality::P1440 => "1440p (2K)"@,
            VideoQuality::P1080 => "1080p"@,
            VideoQuality::P720 => "720p"@,
            VideoQuality::P480 => "480p"@,
            VideoQuality::P360 => "360p"@,
            VideoQuality::Worst => "Worst available"@,
        }
    }

    pub fn label(self) -> (r: &'static str)
        ensures
            r@ == self.spec_label(),
    {
        match self {
            VideoQuality::Best => "Best available",
            VideoQuality::P2160 => "2160p (4K)",
            VideoQuality::P1440 => "1440p (2K)",
            VideoQuality::P1080 => "1080p",
            VideoQuality::P720 => "720p",
            VideoQuality::P480 => "480p",
            VideoQuality::P360 => "360p",
            VideoQuality::Worst => "Worst available",
        }
    }

    pub open spec fn spec_height_cap(self) -> Option<u32> {
        match self {
            VideoQuality::Best | VideoQuality::Worst => None,
            VideoQuality::P2160 => Some(2160),
            VideoQuality::P1440 => Some(1440),
            VideoQuality::P1080 => Some(1080),
            VideoQuality::P720 => Some(720),
            VideoQuality::P480 => Some(480),
            VideoQuality::P360 => Some(360),
        }
    }

    pub fn height_cap(self) -> (r: Option<u32>)
        ensures
            r == self.spec_height_cap(),
    {
        match self {
            VideoQuality::Best | VideoQuality::Worst => None,
            VideoQuality::P2160 => Some(2160),
            VideoQuality::P1440 => Some(1440),
            VideoQuality::P1080 => Some(1080),
            VideoQuality::P720 => Some(720),
            VideoQuality::P480 => Some(480),
            VideoQuality::P360 => Some(360),
        }
    }

    /// The next quality in the cycling order, wrapping from `Worst` to `Best`.
    pub open spec fn spec_next(self) -> VideoQuality {
        VideoQuality::at(self.index() + 1)
    }

    /// The previous quality in the cycling order, wrapping from `Best` to
    /// `Worst`.
    pub open spec fn spec_prev(self) -> VideoQuality {
        VideoQuality::at(self.index() + 7)
    }

    pub fn next(self) -> (r: Self)
        ensures
            r == self.spec_next(),
    {
        match self {
            VideoQuality::Best => VideoQuality::P2160,
            VideoQuality::P2160 => VideoQuality::P1440,
            VideoQuality::P1440 => VideoQuality::P1080,
            VideoQuality::P1080 => VideoQuality::P720,
            VideoQuality::P720 => VideoQuality::P480,
            VideoQuality::P480 => VideoQuality::P360,
            VideoQuality::P360 => VideoQuality::Worst,
            VideoQuality::Worst => VideoQuality::Best,
        }
    }

    pub fn prev(self) -> (r: Self)
        ensures
            r == self.spec_prev(),
    {
        match self {
            VideoQuality::Best => VideoQuality::Worst,
            VideoQuality::P2160 => VideoQuality::Best,
            VideoQuality::P1440 => VideoQuality::P2160,
            VideoQuality::P1080 => VideoQuality::P1440,
            VideoQuality::P720 => VideoQuality::P1080,
            VideoQuality::P480 => VideoQuality::P720,
            VideoQuality::P360 => VideoQuality::P480,
            VideoQuality::Worst => VideoQuality::P360,
        }
    }
}

/// Output container for combined video+audio downloads.
#[derive(Debug, Clone, Copy, PartialEq, Eq, Structural)]
pub enum VideoContainer {
    Mp4,
    Mkv,
    Webm,
}

impl VideoContainer {
    /// Every container, in the cycling order.
    pub const ALL: [VideoContainer; 3] = [VideoContainer::Mp4, VideoContainer::Mkv, VideoContainer::Webm];

    pub open spec fn spec_label(self) -> Seq<char> {
        match self {
            VideoContainer::Mp4 => "MP4"@,
            VideoContainer::Mkv => "MKV"@,
            VideoContainer::Webm => "WebM"@,
        }
    }

    pub fn label(self) -> (r: &'static str)
        ensures
            r@ == self.spec_label(),
    {
        match self {
            VideoContainer::Mp4 => "MP4",
            VideoContainer::Mkv => "MKV",
            VideoContainer::Webm => "WebM",
        }
    }

    pub open spec fn spec_ytdlp_name(self) -> Seq<char> {
        match self {
            VideoContainer::Mp4 => "mp4"@,
            VideoContainer::Mkv => "mkv"@,
            VideoContainer::Webm => "webm"@,
        }
    }

    pub fn ytdlp_name(self) -> (r: &'static str)
        ensures
            r@ == self.spec_ytdlp_name(),
    {
        match self {
            VideoContainer::Mp4 => "mp4",
            VideoContainer::Mkv => "mkv",
            VideoContainer::Webm => "webm",
        }
    }

    /// Cycling order `Mp4, Mkv, Webm`, wrapping around.
    pub open spec fn spec_next(self) -> VideoContainer {
        match self {
            VideoContainer::Mp4 => VideoContainer::Mkv,
            VideoContainer::Mkv => VideoContainer::Webm,
            VideoContainer::Webm => VideoContainer::Mp4,
        }
    }

    pub fn next(self) -> (r: Self)
        ensures
            r == self.spec_next(),
    {
        match self {
            VideoContainer::Mp4 => VideoContainer::Mkv,
            VideoContainer::Mkv => VideoContainer::Webm,
            VideoContainer::Webm => VideoContainer::Mp4,
        }
    }

    /// The previous value in the cycling order, wrapping around.
    pub open spec fn spec_prev(self) -> VideoContainer {
        match self {
            VideoContainer::Mp4 => VideoContainer::Webm,
            VideoContainer::Mkv => VideoContainer::Mp4,
            VideoContainer::Webm => VideoContainer::Mkv,
        }
    }

    pub fn prev(self) -> (r: Self)
        ensures
            r == self.spec_prev(),
    {
        match self {
            VideoContainer::Mp4 => VideoContainer::Webm,
            VideoContainer::Mkv => VideoContainer::Mp4,
            VideoContainer::Webm => VideoContainer::Mkv,
        }
    }
}

/// Output codec/container for audio-only extraction.
#[derive(Debug, Clone, Copy, PartialEq, Eq, Structural)]
pub enum AudioFormat {
    Mp3,
    M4a,
    Opus,
    Flac,
    Wav,
    Best,
}

impl AudioFormat {
    /// Every audio format, in the cycling order.
    pub const ALL: [AudioFormat; 6] = [
        AudioFormat::Mp3,
        AudioFormat::M4a,
        AudioFormat::Opus,
        AudioFormat::Flac,
        AudioFormat::Wav,
        AudioFormat::Best,
    ];

    pub open spec fn spec_label(self) -> Seq<char> {
        match self {
            AudioFormat::Mp3 => "MP3"@,
            AudioFormat::M4a => "M4A (AAC)"@,
            AudioFormat::Opus => "Opus"@,
            AudioFormat::Flac => "FLAC"@,
            AudioFormat::Wav => "WAV"@,
            AudioFormat::Best => "Best (source codec)"@,
        }
    }

    pub fn label(self) -> (r: &'static str)
        ensures
            r@ == self.spec_label(),
    {
        match self {
            AudioFormat::Mp3 => "MP3",
            AudioFormat::M4a => "M4A (AAC)",
            AudioFormat::Opus => "Opus",
            AudioFormat::Flac => "FLAC",
            AudioFormat::Wav => "WAV",
            AudioFormat::Best => "Best (source codec)",
        }
    }

    /// Value passed to yt-dlp's `--audio-format`, if any (`Best` keeps the
    /// source codec).
    pub open spec fn spec_ytdlp_name(self) -> Option<Seq<char>> {
        match self {
            AudioFormat::Mp3 => Some("mp3"@),
            AudioFormat::M4a => Some("m4a"@),
            AudioFormat::Opus => Some("opus"@),
            AudioFormat::Flac => Some("flac"@),
            AudioFormat::Wav => Some("wav"@),
            AudioFormat::Best => None,
        }
    }

    pub fn ytdlp_name(self) -> (r: Option<&'static str>)
        ensures
            match r {
                Some(s) => self.spec_ytdlp_name() == Some(s@),
                None => self.spec_ytdlp_name() is None,
            },
    {
        match self {
            AudioFormat::Mp3 => Some("mp3"),
            AudioFormat::M4a => Some("m4a"),
            AudioFormat::Opus => Some("opus"),
            AudioFormat::Flac => Some("flac"),
            AudioFormat::Wav => Some("wav"),
            AudioFormat::Best => None,
        }
    }

    /// Cycling order `Mp3, M4a, Opus, Flac, Wav, Best`, wrapping around.
    pub open spec fn spec_next(self) -> AudioFormat {
        match self {
            AudioFormat::Mp3 => AudioFormat::M4a,
            AudioFormat::M4a => AudioFormat::Opus,
            AudioFormat::Opus => AudioFormat::Flac,
            AudioFormat::Flac => AudioFormat::Wav,
            AudioFormat::Wav => AudioFormat::Best,
            AudioFormat::Best => AudioFormat::Mp3,
        }
    }

    pub fn next(self) -> (r: Self)
        ensures
            r == self.spec_next(),
    {
        match self {
            AudioFormat::Mp3 => AudioFormat::M4a,
            AudioFormat::M4a => AudioFormat::Opus,
            AudioFormat::Opus => AudioFormat::Flac,
            AudioFormat::Flac => AudioFormat::Wav,
            AudioFormat::Wav => AudioFormat::Best,
            AudioFormat::Best => AudioFormat::Mp3,
        }
    }

    /// The previous value in the cycling order, wrapping around.
    pub open spec fn spec_prev(self) -> AudioFormat {
        match self {
            AudioFormat::Mp3 => AudioFormat::Best,
            AudioFormat::M4a => AudioFormat::Mp3,
            AudioFormat::Opus => AudioFormat::M4a,
            AudioFormat::Flac => AudioFormat::Opus,
            AudioFormat::Wav => AudioFormat::Flac,
            AudioFormat::Best => AudioFormat::Wav,
        }
    }

    pub fn prev(self) -> (r: Self)
        ensures
            r == self.spec_prev(),
    {
        match self {
            AudioFormat::Mp3 => AudioFormat::Best,
            AudioFormat::M4a => AudioFormat::Mp3,
            AudioFormat::Opus => AudioFormat::M4a,
            AudioFormat::Flac => AudioFormat::Opus,
            AudioFormat::Wav => AudioFormat::Flac,
            AudioFormat::Best => AudioFormat::Wav,
        }
    }
}

proof fn lemma_quality_at_index(i: nat)
    ensures
        VideoQuality::at(i).index() == i % 8,
{
}

proof fn lemma_quality_index_at(q: VideoQuality)
    ensures
        VideoQuality::at(q.index()) == q,
        q.index() < 8,
{
}

proof fn lemma_quality_next_index(q: VideoQuality)
    ensures
        q.spec_next().index() == (q.index() + 1) % 8,
        q.spec_prev().index() == (q.index() + 7) % 8,
{
    lemma_quality_at_index(q.index() + 1);
    lemma_quality_at_index(q.index() + 7);
}

/// Stepping the video quality forward and then back (or back, then
/// forward) returns to where it started, and eight steps in one direction
/// go all the way round.
pub proof fn lemma_video_quality_cycle(q: VideoQuality)
    ensures
        q.spec_next().spec_prev() == q,
        q.spec_prev().spec_next() == q,
        iterate_next(q, 8) == q,
{
    match q {
        VideoQuality::Best => {},
        VideoQuality::P2160 => {},
        VideoQuality::P1440 => {},
        VideoQuality::P1080 => {},
        VideoQuality::P720 => {},
        VideoQuality::P480 => {},
        VideoQuality::P360 => {},
        VideoQuality::Worst => {},
    }
    lemma_iterate_index(q, 8);
    lemma_quality_index_at(iterate_next(q, 8));
    lemma_quality_index_at(q);
}

proof fn lemma_iterate_index(q: VideoQuality, k: nat)
    ensures
        iterate_next(q, k).index() == (q.index() + k) % 8,
    decreases k,
{
    lemma_quality_index_at(q);
    if k > 0 {
        lemma_iterate_index(q, (k - 1) as nat);
        lemma_quality_next_index(iterate_next(q, (k - 1) as nat));
    }
}

/// `q` stepped forward `k` times.
pub open spec fn iterate_next(q: VideoQuality, k: nat) -> VideoQuality
    decreases k,
{
    if k == 0 {
        q
    } else {
        iterate_next(q, (k - 1) as nat).spec_next()
    }
}

/// Each option cycle visits every value: media mode returns after two
/// steps, container after three, audio format after six.
pub proof fn lemma_option_cycles(m: MediaMode, c: VideoContainer, a: AudioFormat)
    ensures
        m.spec_next().spec_next() == m,
        m.spec_next() != m,
        c.spec_next().spec_next().spec_next() == c,
        c.spec_next() != c,
        c.spec_next().spec_next() != c,
        a.spec_next().spec_next().spec_next().spec_next().spec_next().spec_next() == a,
{
}

// ---------------------------------------------------------------------------
// Videos and playlists
// ---------------------------------------------------------------------------

/// A single entry discovered while resolving a playlist (or a lone video URL).
#[derive(Debug)]
pub struct Video {
    pub id: String,
    pub title: String,
    pub uploader: Option<String>,
    pub duration_secs: Option<u64>,
    /// 1-based position within the source playlist, if any.
    pub playlist_index: Option<u64>,
    pub url: String,
    pub filesize_bytes: Option<u64>,
}

/// The mathematical view of `Video`.
pub struct VideoModel {
    pub id: Seq<char>,
    pub title: Seq<char>,
    pub uploader: Option<Seq<char>>,
    pub duration_secs: Option<u64>,
    pub playlist_index: Option<u64>,
    pub url: Seq<char>,
    pub filesize_bytes: Option<u64>,
}

impl View for Video {
    type V = VideoModel;

    open spec fn view(&self) -> VideoModel {
        VideoModel {
            id: self.id@,
            title: self.title@,
            uploader: opt_view(self.uploader),
            duration_secs: self.duration_secs,
            playlist_index: self.playlist_index,
            url: self.url@,
            filesize_bytes: self.filesize_bytes,
        }
    }
}

/// Each option list holds every value of its option, in the order the
/// option cycles: the entry after each one is its `next`, and the last
/// one's `next` is the first.
pub proof fn lemma_option_lists_follow_cycles(q: VideoQuality, c: VideoContainer, a: AudioFormat)
    ensures
        forall|i: int|
            0 <= i < 8 ==> #[trigger] VideoQuality::ALL@[i].spec_next() == VideoQuality::ALL@[(i + 1) % 8],
        forall|i: int|
            0 <= i < 3 ==> #[trigger] VideoContainer::ALL@[i].spec_next() == VideoContainer::ALL@[(i + 1)
                % 3],
        forall|i: int|
            0 <= i < 6 ==> #[trigger] AudioFormat::ALL@[i].spec_next() == AudioFormat::ALL@[(i + 1) % 6],
        VideoQuality::ALL@.contains(q),
        VideoContainer::ALL@.contains(c),
        AudioFormat::ALL@.contains(a),
{
    assert(VideoQuality::ALL@[q.index() as int] == q);
    assert(VideoContainer::ALL@[match c {
        VideoContainer::Mp4 => 0int,
        VideoContainer::Mkv => 1int,
        VideoContainer::Webm => 2int,
    }] == c);
    assert(AudioFormat::ALL@[match a {
        AudioFormat::Mp3 => 0int,
        AudioFormat::M4a => 1int,
        AudioFormat::Opus => 2int,
        AudioFormat::Flac => 3int,
        AudioFormat::Wav => 4int,
        AudioFormat::Best => 5int,
    }] == a);
}

/// The views of a list of videos.
pub open spec fn video_views(v: Seq<Video>) -> Seq<VideoModel> {
    v.map_values(|x: Video| x@)
}

/// A copy of an optional string.
pub fn clone_opt_string(s: &Option<String>) -> (r: Option<String>)
    ensures
        r == *s,
{
    match s {
        Some(v) => Some(v.clone()),
        None => None,
    }
}

impl Clone for Video {
    fn clone(&self) -> (r: Self)
        ensures
            r == *self,
    {
        Video {
            id: self.id.clone(),
            title: self.title.clone(),
            uploader: clone_opt_string(&self.uploader),
            duration_secs: self.duration_secs,
            playlist_index: self.playlist_index,
            url: self.url.clone(),
            filesize_bytes: self.filesize_bytes,
        }
    }
}

/// `H:MM:SS` when there is at least one full hour, else `M:SS`.
pub open spec fn spec_format_duration(total_secs: nat) -> Seq<char> {
    let h = total_secs / 3600;
    let m = (total_secs % 3600) / 60;
    let s = total_secs % 60;
    if h > 0 {
        dec(h) + ":"@ + dec2(m) + ":"@ + dec2(s)
    } else {
        dec(m) + ":"@ + dec2(s)
    }
}

pub fn format_duration(total_secs: u64) -> (r: String)
    ensures
        r@ == spec_format_duration(total_secs as nat),
{
    let h = total_secs / 3600;
    let m = (total_secs % 3600) / 60;
    let s = total_secs % 60;
    proof {
        reveal_strlit(":");
    }
    if h > 0 {
        let a = concat(u64_to_string(h).as_str(), ":");
        let b = concat(a.as_str(), u64_to_string2(m).as_str());
        let c = concat(b.as_str(), ":");
        concat(c.as_str(), u64_to_string2(s).as_str())
    } else {
        let a = concat(u64_to_string(m).as_str(), ":");
        concat(a.as_str(), u64_to_string2(s).as_str())
    }
}

/// The duration as `format_duration` renders it, or `--:--` when unknown.
pub open spec fn spec_duration_label(d: Option<u64>) -> Seq<char> {
    match d {
        Some(s) => spec_format_duration(s as nat),
        None => "--:--"@,
    }
}

pub fn duration_label_of(d: Option<u64>) -> (r: String)
    ensures
        r@ == spec_duration_label(d),
{
    match d {
        Some(s) => format_duration(s),
        None => String::from_str("--:--"),
    }
}

impl Video {
    pub fn duration_label(&self) -> (r: String)
        ensures
            r@ == spec_duration_label(self.duration_secs),
    {
        duration_label_of(self.duration_secs)
    }
}

/// Metadata about the playlist (or single-video pseudo-playlist) that was resolved.
#[derive(Debug)]
pub struct PlaylistInfo {
    pub title: String,
    pub uploader: Option<String>,
    pub videos: Vec<Video>,
    /// True for an actual playlist/channel (yt-dlp reported an `entries`
    /// list, even if it only had one item); false for a lone video URL.
    /// Drives whether downloads land in a `title`-named subfolder.
    pub is_playlist: bool,
    /// The URL the playlist was resolved from.
    pub source_url: String,
}

/// The mathematical view of `PlaylistInfo`.
pub struct PlaylistModel {
    pub title: Seq<char>,
    pub uploader: Option<Seq<char>>,
    pub videos: Seq<VideoModel>,
    pub is_playlist: bool,
    pub source_url: Seq<char>,
}

impl View for PlaylistInfo {
    type V = PlaylistModel;

    open spec fn view(&self) -> PlaylistModel {
        PlaylistModel {
            title: self.title@,
            uploader: opt_view(self.uploader),
            videos: video_views(self.videos@),
            is_playlist: self.is_playlist,
            source_url: self.source_url@,
        }
    }
}

/// A copy of a list of videos.
pub fn clone_videos(v: &Vec<Video>) -> (r: Vec<Video>)
    ensures
        r@ == v@,
{
    let mut r: Vec<Video> = Vec::new();
    let mut i: usize = 0;
    while i < v.len()
        invariant
            i <= v@.len(),
            r@ == v@.take(i as int),
        decreases v@.len() - i,
    {
        r.push(v[i].clone());
        i = i + 1;
        assert(r@ =~= v@.take(i as int));
    }
    assert(v@.take(v@.len() as int) =~= v@);
    r
}

impl Clone for PlaylistInfo {
    fn clone(&self) -> (r: Self)
        ensures
            r.title == self.title,
            r.uploader == self.uploader,
            r.videos@ == self.videos@,
            r.is_playlist == self.is_playlist,
            r.source_url == self.source_url,
    {
        PlaylistInfo {
            title: self.title.clone(),
            uploader: clone_opt_string(&self.uploader),
            videos: clone_videos(&self.videos),
            is_playlist: self.is_playlist,
            source_url: self.source_url.clone(),
        }
    }
}

// ---------------------------------------------------------------------------
// Path-component sanitizing
// ---------------------------------------------------------------------------

/// Characters reserved in a path component on Windows, macOS or Linux.
pub open spec fn is_reserved_char(c: char) -> bool {
    c == '/' || c == '\\' || c == ':' || c == '*' || c == '?' || c == '"' || c == '<' || c == '>'
        || c == '|'
}

/// Step one: every reserved or control character becomes `_`.
pub open spec fn replace_reserved(s: Seq<char>) -> Seq<char> {
    s.map_values(|c: char| if is_reserved_char(c) || is_cc(c) { '_' } else { c })
}

/// Drops trailing `.` and whitespace characters, one at a time.
pub open spec fn strip_dots_spaces(s: Seq<char>) -> Seq<char>
    decreases s.len(),
{
    if s.len() > 0 && (s.last() == '.' || is_ws(s.last())) {
        strip_dots_spaces(s.drop_last())
    } else {
        s
    }
}

/// The longest a sanitized name gets before the reserved-name prefix.
pub const MAX_COMPONENT_LEN: usize = 150;

/// The cleaned name before the empty/reserved-name checks: reserved
/// characters replaced, trimmed, cut to 150 characters, then trailing dots
/// and whitespace dropped (so a cut never leaves one at the end).
pub open spec fn cleaned_component(s: Seq<char>) -> Seq<char> {
    let a = trim(replace_reserved(s));
    let b = if a.len() > 150 { a.take(150) } else { a };
    strip_dots_spaces(b)
}

/// Windows' reserved device names.
pub open spec fn reserved_device_names() -> Seq<Seq<char>> {
    seq![
        "CON"@, "PRN"@, "AUX"@, "NUL"@, "COM1"@, "COM2"@, "COM3"@, "COM4"@, "COM5"@, "COM6"@,
        "COM7"@, "COM8"@, "COM9"@, "LPT1"@, "LPT2"@, "LPT3"@, "LPT4"@, "LPT5"@, "LPT6"@,
        "LPT7"@, "LPT8"@, "LPT9"@,
    ]
}

pub open spec fn is_reserved_device_name(s: Seq<char>) -> bool {
    exists|i: int|
        0 <= i < reserved_device_names().len() && eq_ignore_ascii_case(
            #[trigger] reserved_device_names()[i],
            s,
        )
}

pub open spec fn all_underscores(s: Seq<char>) -> bool {
    forall|i: int| 0 <= i < s.len() ==> s[i] == '_'
}

/// The result of `sanitize_path_component`.
pub open spec fn spec_sanitize(s: Seq<char>) -> Seq<char> {
    let c = cleaned_component(s);
    if c.len() == 0 || all_underscores(c) {
        "playlist"@
    } else if is_reserved_device_name(c) {
        seq!['_'] + c
    } else {
        c
    }
}

/// Every character is allowed in a path component: none reserved, none a
/// control character.
pub open spec fn component_chars_ok(s: Seq<char>) -> bool {
    forall|i: int| 0 <= i < s.len() ==> !is_reserved_char(#[trigger] s[i]) && !is_cc(s[i])
}

proof fn lemma_chars_ok_subrange(s: Seq<char>, i: int, j: int)
    requires
        component_chars_ok(s),
        0 <= i <= j <= s.len(),
    ensures
        component_chars_ok(s.subrange(i, j)),
{
    assert forall|k: int| 0 <= k < j - i implies !is_reserved_char(#[trigger] s.subrange(i, j)[k])
        && !is_cc(s.subrange(i, j)[k]) by {
        assert(s.subrange(i, j)[k] == s[i + k]);
    }
}

proof fn lemma_trim_start_shrinks(s: Seq<char>)
    ensures
        component_chars_ok(s) ==> component_chars_ok(crate::text::trim_start(s)),
        crate::text::trim_start(s).len() <= s.len(),
    decreases s.len(),
{
    if s.len() > 0 && crate::text::is_ws(s[0]) {
        if component_chars_ok(s) {
            lemma_chars_ok_subrange(s, 1, s.len() as int);
            assert(s.drop_first() =~= s.subrange(1, s.len() as int));
        }
        lemma_trim_start_shrinks(s.drop_first());
    }
}

proof fn lemma_trim_end_shrinks(s: Seq<char>)
    ensures
        component_chars_ok(s) ==> component_chars_ok(crate::text::trim_end(s)),
        crate::text::trim_end(s).len() <= s.len(),
        crate::text::trim_end(s).len() > 0 ==> !crate::text::is_ws(crate::text::trim_end(s).last()),
    decreases s.len(),
{
    if s.len() > 0 && crate::text::is_ws(s.last()) {
        if component_chars_ok(s) {
            lemma_chars_ok_subrange(s, 0, s.len() - 1);
            assert(s.drop_last() =~= s.subrange(0, s.len() - 1));
        }
        lemma_trim_end_shrinks(s.drop_last());
    }
}

proof fn lemma_strip_shrinks(s: Seq<char>)
    ensures
        component_chars_ok(s) ==> component_chars_ok(strip_dots_spaces(s)),
        strip_dots_spaces(s).len() <= s.len(),
        strip_dots_spaces(s).len() > 0 ==> strip_dots_spaces(s).last() != '.' && !is_ws(
            strip_dots_spaces(s).last(),
        ),
    decreases s.len(),
{
    if s.len() > 0 && (s.last() == '.' || is_ws(s.last())) {
        if component_chars_ok(s) {
            lemma_chars_ok_subrange(s, 0, s.len() - 1);
            assert(s.drop_last() =~= s.subrange(0, s.len() - 1));
        }
        lemma_strip_shrinks(s.drop_last());
    }
}

proof fn lemma_reserved_names_shape()
    ensures
        forall|i: int|
            0 <= i < reserved_device_names().len() ==> 3 <= (#[trigger] reserved_device_names()[i]).len()
                <= 4 && 'A' <= reserved_device_names()[i][0] <= 'Z',
{
    reveal_strlit("CON");
    reveal_strlit("PRN");
    reveal_strlit("AUX");
    reveal_strlit("NUL");
    reveal_strlit("COM1");
    reveal_strlit("COM2");
    reveal_strlit("COM3");
    reveal_strlit("COM4");
    reveal_strlit("COM5");
    reveal_strlit("COM6");
    reveal_strlit("COM7");
    reveal_strlit("COM8");
    reveal_strlit("COM9");
    reveal_strlit("LPT1");
    reveal_strlit("LPT2");
    reveal_strlit("LPT3");
    reveal_strlit("LPT4");
    reveal_strlit("LPT5");
    reveal_strlit("LPT6");
    reveal_strlit("LPT7");
    reveal_strlit("LPT8");
    reveal_strlit("LPT9");
}

/// A sanitized name is always usable as one path component: never empty,
/// at most 150 characters,
/// free of reserved and control characters, ending in neither whitespace
/// nor a dot, and never one of Windows' reserved device names.
pub proof fn lemma_sanitize_safe(s: Seq<char>)
    ensures
        spec_sanitize(s).len() > 0,
        spec_sanitize(s).len() <= 150,
        component_chars_ok(spec_sanitize(s)),
        !crate::text::is_ws(spec_sanitize(s).last()),
        spec_sanitize(s).last() != '.',
        !is_reserved_device_name(spec_sanitize(s)),
{
    let r = replace_reserved(s);
    assert(component_chars_ok(r));
    let t0 = crate::text::trim_start(r);
    lemma_trim_start_shrinks(r);
    lemma_trim_end_shrinks(t0);
    let a = trim(r);
    let b = if a.len() > 150 { a.take(150) } else { a };
    if a.len() > 150 {
        lemma_chars_ok_subrange(a, 0, 150);
        assert(a.take(150) =~= a.subrange(0, 150));
    }
    lemma_strip_shrinks(b);
    let c = cleaned_component(s);
    assert(c == strip_dots_spaces(b));
    lemma_reserved_names_shape();
    reveal_strlit("playlist");
    let out = spec_sanitize(s);
    if c.len() == 0 || all_underscores(c) {
        assert(out == "playlist"@);
        assert(out.len() == 8);
        assert(component_chars_ok(out));
        assert forall|i: int| 0 <= i < reserved_device_names().len() implies !eq_ignore_ascii_case(
            #[trigger] reserved_device_names()[i],
            out,
        ) by {}
    } else if is_reserved_device_name(c) {
        let u = seq!['_'] + c;
        assert(out == u);
        let k = choose|k: int|
            0 <= k < reserved_device_names().len() && eq_ignore_ascii_case(
                #[trigger] reserved_device_names()[k],
                c,
            );
        assert(c.len() == reserved_device_names()[k].len());
        assert forall|i: int| 0 <= i < u.len() implies !is_reserved_char(#[trigger] u[i]) && !is_cc(
            u[i],
        ) by {
            if i > 0 {
                assert(u[i] == c[i - 1]);
            }
        }
        assert(u.last() == c.last());
        assert forall|i: int| 0 <= i < reserved_device_names().len() implies !eq_ignore_ascii_case(
            #[trigger] reserved_device_names()[i],
            u,
        ) by {
            let n = reserved_device_names()[i];
            assert(crate::text::ascii_fold(n[0]) != crate::text::ascii_fold(u[0]));
        }
    } else {
        assert(out == c);
    }
}

fn replace_reserved_exec(v: &Vec<char>) -> (r: Vec<char>)
    ensures
        r@ == replace_reserved(v@),
{
    let mut r: Vec<char> = Vec::new();
    let mut i: usize = 0;
    while i < v.len()
        invariant
            i <= v@.len(),
            r@ == replace_reserved(v@.take(i as int)),
        decreases v@.len() - i,
    {
        let c = v[i];
        let d = if c == '/' || c == '\\' || c == ':' || c == '*' || c == '?' || c == '"' || c
            == '<' || c == '>' || c == '|' || is_control(c) {
            '_'
        } else {
            c
        };
        r.push(d);
        i = i + 1;
        assert(r@ =~= replace_reserved(v@.take(i as int)));
    }
    assert(v@.take(v@.len() as int) =~= v@);
    r
}

fn strip_dots_spaces_exec(v: Vec<char>) -> (r: Vec<char>)
    ensures
        r@ == strip_dots_spaces(v@),
{
    let mut v = v;
    let ghost orig = v@;
    while v.len() > 0 && (v[v.len() - 1] == '.' || is_whitespace(v[v.len() - 1]))
        invariant
            strip_dots_spaces(v@) == strip_dots_spaces(orig),
        decreases v@.len(),
    {
        let ghost before = v@;
        v.pop();
        assert(v@ =~= before.drop_last());
    }
    v
}

fn take_chars(v: &Vec<char>, n: usize) -> (r: Vec<char>)
    ensures
        r@ == (if v@.len() > n { v@.take(n as int) } else { v@ }),
{
    let mut r: Vec<char> = Vec::new();
    let mut i: usize = 0;
    while i < v.len() && i < n
        invariant
            i <= v@.len(),
            i <= n,
            r@ == v@.take(i as int),
        decreases v@.len() - i,
    {
        r.push(v[i]);
        i = i + 1;
        assert(r@ =~= v@.take(i as int));
    }
    assert(v@.len() <= n ==> v@.take(v@.len() as int) =~= v@);
    r
}

fn all_underscores_exec(v: &Vec<char>) -> (b: bool)
    ensures
        b == all_underscores(v@),
{
    let mut i: usize = 0;
    while i < v.len()
        invariant
            i <= v@.len(),
            forall|j: int| 0 <= j < i ==> v@[j] == '_',
        decreases v@.len() - i,
    {
        if v[i] != '_' {
            return false;
        }
        i = i + 1;
    }
    true
}

fn is_reserved_device_name_exec(v: &Vec<char>) -> (b: bool)
    ensures
        b == is_reserved_device_name(v@),
{
    let names: Vec<&str> = vec![
        "CON", "PRN", "AUX", "NUL", "COM1", "COM2", "COM3", "COM4", "COM5", "COM6", "COM7",
        "COM8", "COM9", "LPT1", "LPT2", "LPT3", "LPT4", "LPT5", "LPT6", "LPT7", "LPT8", "LPT9",
    ];
    assert(names@.map_values(|s: &str| s@) =~= reserved_device_names());
    let mut i: usize = 0;
    while i < names.len()
        invariant
            names@.len() == reserved_device_names().len(),
            forall|j: int| 0 <= j < names@.len() ==> names@[j]@ == reserved_device_names()[j],
            i <= names@.len(),
            forall|j: int|
                0 <= j < i ==> !eq_ignore_ascii_case(#[trigger] reserved_device_names()[j], v@),
        decreases names@.len() - i,
    {
        let n = chars_of(names[i]);
        assert(names@.map_values(|s: &str| s@)[i as int] == names@[i as int]@);
        if eq_ignore_ascii_case_chars(n.as_slice(), v.as_slice()) {
            return true;
        }
        i = i + 1;
    }
    false
}

/// Makes `name` safe to use as a single path component (a directory or file
/// name, not a full path) on Windows/macOS/Linux: strips characters that are
/// reserved on any of them, caps the length, trims trailing dots and spaces
/// (invalid on Windows) after the cut, and dodges Windows' reserved device
/// names.
pub fn sanitize_path_component(name: &str) -> (r: String)
    ensures
        r@ == spec_sanitize(name@),
{
    let v = chars_of(name);
    let replaced = replace_reserved_exec(&v);
    let trimmed = trim_chars(replaced.as_slice());
    let capped = take_chars(&trimmed, MAX_COMPONENT_LEN);
    let cleaned = strip_dots_spaces_exec(capped);
    proof {
        reveal_strlit("playlist");
    }
    if cleaned.len() == 0 || all_underscores_exec(&cleaned) {
        return String::from_str("playlist");
    }
    if is_reserved_device_name_exec(&cleaned) {
        let mut prefixed: Vec<char> = Vec::new();
        prefixed.push('_');
        let mut i: usize = 0;
        while i < cleaned.len()
            invariant
                i <= cleaned@.len(),
                prefixed@ == seq!['_'] + cleaned@.take(i as int),
            decreases cleaned@.len() - i,
        {
            prefixed.push(cleaned[i]);
            i = i + 1;
            assert(prefixed@ =~= seq!['_'] + cleaned@.take(i as int));
        }
        assert(cleaned@.take(cleaned@.len() as int) =~= cleaned@);
        string_of(prefixed.as_slice())
    } else {
        string_of(cleaned.as_slice())
    }
}


// ---------------------------------------------------------------------------
// Download state
// ---------------------------------------------------------------------------

/// Live progress of one download. The percentage is kept in tenths of a
/// percent (`250` is 25.0%), computed exactly from the byte counts.
#[derive(Debug, PartialEq, Default)]
pub struct DownloadProgress {
    pub percent_tenths: u128,
    pub speed: Option<String>,
    pub eta: Option<String>,
    pub downloaded_bytes: Option<u64>,
    pub total_bytes: Option<u64>,
}

/// The mathematical view of `DownloadProgress`.
pub struct DownloadProgressModel {
    pub percent_tenths: u128,
    pub speed: Option<Seq<char>>,
    pub eta: Option<Seq<char>>,
    pub downloaded_bytes: Option<u64>,
    pub total_bytes: Option<u64>,
}

pub open spec fn opt_view(s: Option<String>) -> Option<Seq<char>> {
    match s {
        Some(v) => Some(v@),
        None => None,
    }
}

impl View for DownloadProgress {
    type V = DownloadProgressModel;

    open spec fn view(&self) -> DownloadProgressModel {
        DownloadProgressModel {
            percent_tenths: self.percent_tenths,
            speed: opt_view(self.speed),
            eta: opt_view(self.eta),
            downloaded_bytes: self.downloaded_bytes,
            total_bytes: self.total_bytes,
        }
    }
}

impl Clone for DownloadProgress {
    fn clone(&self) -> (r: Self)
        ensures
            r == *self,
    {
        DownloadProgress {
            percent_tenths: self.percent_tenths,
            speed: clone_opt_string(&self.speed),
            eta: clone_opt_string(&self.eta),
            downloaded_bytes: self.downloaded_bytes,
            total_bytes: self.total_bytes,
        }
    }
}

/// Lifecycle state of one queued download, driven by parsed yt-dlp progress output.
#[derive(Debug, PartialEq)]
pub enum DownloadState {
    Queued,
    Starting,
    Downloading(DownloadProgress),
    PostProcessing,
    /// Stopped by the user (not by an error) and resumable. Deliberately
    /// *not* terminal (see `is_terminal`): the batch isn't "done" while
    /// something in it is just waiting for the user to resume it.
    Paused,
    Done,
    Skipped,
    Cancelled,
    Failed(String),
}

impl Clone for DownloadState {
    fn clone(&self) -> (r: Self)
        ensures
            r == *self,
    {
        match self {
            DownloadState::Queued => DownloadState::Queued,
            DownloadState::Starting => DownloadState::Starting,
            DownloadState::Downloading(p) => DownloadState::Downloading(p.clone()),
            DownloadState::PostProcessing => DownloadState::PostProcessing,
            DownloadState::Paused => DownloadState::Paused,
            DownloadState::Done => DownloadState::Done,
            DownloadState::Skipped => DownloadState::Skipped,
            DownloadState::Cancelled => DownloadState::Cancelled,
            DownloadState::Failed(m) => DownloadState::Failed(m.clone()),
        }
    }
}

impl Default for DownloadState {
    fn default() -> (r: Self)
        ensures
            r == DownloadState::Queued,
    {
        DownloadState::Queued
    }
}

impl DownloadState {
    /// Done, skipped, cancelled and failed are final; everything else
    /// (including paused) may still change.
    pub open spec fn spec_is_terminal(&self) -> bool {
        match self {
            DownloadState::Done | DownloadState::Skipped | DownloadState::Cancelled
            | DownloadState::Failed(_) => true,
            _ => false,
        }
    }

    pub fn is_terminal(&self) -> (b: bool)
        ensures
            b == self.spec_is_terminal(),
    {
        match self {
            DownloadState::Done | DownloadState::Skipped | DownloadState::Cancelled
            | DownloadState::Failed(_) => true,
            _ => false,
        }
    }

    /// The status text; a download in progress shows its percentage with
    /// one decimal, right-aligned in five columns (`" 25.0%"`).
    pub open spec fn spec_label(&self) -> Seq<char> {
        match self {
            DownloadState::Queued => "Queued"@,
            DownloadState::Starting => "Starting"@,
            DownloadState::Downloading(p) => pad_left(fmt_tenths(p.percent_tenths as nat), 5)
                + "%"@,
            DownloadState::PostProcessing => "Processing"@,
            DownloadState::Paused => "Paused"@,
            DownloadState::Done => "Done"@,
            DownloadState::Skipped => "Skipped"@,
            DownloadState::Cancelled => "Cancelled"@,
            DownloadState::Failed(_) => "Failed"@,
        }
    }

    pub fn label(&self) -> (r: String)
        ensures
            r@ == self.spec_label(),
    {
        match self {
            DownloadState::Queued => String::from_str("Queued"),
            DownloadState::Starting => String::from_str("Starting"),
            DownloadState::Downloading(p) => {
                let t = pad_left_exec(fmt_tenths_exec(p.percent_tenths), 5);
                concat(t.as_str(), "%")
            },
            DownloadState::PostProcessing => String::from_str("Processing"),
            DownloadState::Paused => String::from_str("Paused"),
            DownloadState::Done => String::from_str("Done"),
            DownloadState::Skipped => String::from_str("Skipped"),
            DownloadState::Cancelled => String::from_str("Cancelled"),
            DownloadState::Failed(_) => String::from_str("Failed"),
        }
    }
}

/// The most log lines one queue row keeps.
pub const MAX_LOG_LINES: usize = 200;

/// `log` with `line` appended, keeping only the newest `MAX_LOG_LINES`.
pub open spec fn log_after_push(log: Seq<String>, line: String) -> Seq<String> {
    let l = log.push(line);
    if l.len() > 200 {
        l.skip(l.len() - 200)
    } else {
        l
    }
}

/// One row in the download queue/progress screen: a video plus its live state and log tail.
#[derive(Debug)]
pub struct DownloadItem {
    pub video: Video,
    pub state: DownloadState,
    pub log: Vec<String>,
    /// The most recent `DownloadProgress` seen for this item, kept even
    /// after `state` moves on to something that doesn't carry one itself
    /// (`Paused`, `PostProcessing`, ...) -- so a progress bar has something
    /// sensible to show ("last known position") instead of resetting to 0
    /// the moment a download is paused.
    pub last_progress: Option<DownloadProgress>,
}

impl DownloadItem {
    pub fn new(video: Video) -> (r: Self)
        ensures
            r.video == video,
            r.state == DownloadState::Queued,
            r.log@ == Seq::<String>::empty(),
            r.last_progress is None,
    {
        DownloadItem { video, state: DownloadState::Queued, log: Vec::new(), last_progress: None }
    }

    /// Updates `state`, additionally remembering the progress if this state
    /// carries one -- see `last_progress`'s doc comment.
    pub fn set_state(&mut self, state: DownloadState)
        ensures
            final(self).state == state,
            final(self).video == old(self).video,
            final(self).log == old(self).log,
            final(self).last_progress == (match state {
                DownloadState::Downloading(p) => Some(p),
                _ => old(self).last_progress,
            }),
    {
        if let DownloadState::Downloading(progress) = &state {
            self.last_progress = Some(progress.clone());
        }
        self.state = state;
    }

    /// Appends one log line, dropping the oldest lines beyond `MAX_LOG_LINES`.
    pub fn push_log(&mut self, line: String)
        ensures
            final(self).log@ == log_after_push(old(self).log@, line),
            final(self).video == old(self).video,
            final(self).state == old(self).state,
            final(self).last_progress == old(self).last_progress,
    {
        self.log.push(line);
        if self.log.len() > MAX_LOG_LINES {
            let excess = self.log.len() - MAX_LOG_LINES;
            let tail = self.log.split_off(excess);
            self.log = tail;
        }
    }
}

} // verus!
