//! Declarative description of every row on the Settings screen: how to
//! label it, what kind of control it is (toggle / cycling enum / free text),
//! and how to read/write it on a `Settings` value. Centralizing this keeps
//! the frontends' state transitions and rendering from duplicating
//! field-specific logic.

use vstd::prelude::*;

use crate::config::{Settings, SettingsModel};
use crate::models::MediaMode;
use crate::text::{
    chars_of, dec, parse_uint, parse_unsigned, trim, trim_chars, string_of, u64_to_string,
    lemma_dec_digits, is_ws, trim_start, trim_end,
};

verus! {

#[derive(Debug, Clone, Copy, PartialEq, Eq, Structural)]
pub enum FieldKind {
    Toggle,
    Cycle,
    Text,
}

#[derive(Debug, Clone, Copy, PartialEq, Eq, Structural)]
pub enum SettingsField {
    OutputDir,
    FilenameTemplate,
    Concurrency,
    MediaMode,
    VideoQuality,
    VideoContainer,
    AudioFormat,
    EmbedThumbnail,
    EmbedMetadata,
    EmbedChapters,
    WriteSubtitles,
    EmbedSubtitles,
    WriteAutoSubs,
    SubtitleLangs,
    UseArchive,
    PlaylistReverse,
    PlaylistStart,
    PlaylistEnd,
    RateLimit,
    Retries,
    Proxy,
    CookiesFile,
    SponsorblockRemove,
    ExtraArgs,
}

impl SettingsField {
    /// Every row, in display order.
    pub const ALL: [SettingsField; 24] = [
        SettingsField::OutputDir,
        SettingsField::FilenameTemplate,
        SettingsField::Concurrency,
        SettingsField::MediaMode,
        SettingsField::VideoQuality,
        SettingsField::VideoContainer,
        SettingsField::AudioFormat,
        SettingsField::EmbedThumbnail,
        SettingsField::EmbedMetadata,
        SettingsField::EmbedChapters,
        SettingsField::WriteSubtitles,
        SettingsField::EmbedSubtitles,
        SettingsField::WriteAutoSubs,
        SettingsField::SubtitleLangs,
        SettingsField::UseArchive,
        SettingsField::PlaylistReverse,
        SettingsField::PlaylistStart,
        SettingsField::PlaylistEnd,
        SettingsField::RateLimit,
        SettingsField::Retries,
        SettingsField::Proxy,
        SettingsField::CookiesFile,
        SettingsField::SponsorblockRemove,
        SettingsField::ExtraArgs,
    ];

    /// Section header to draw above this row, if it starts a new group.
    pub open spec fn spec_section(self) -> Option<Seq<char>> {
        match self {
            SettingsField::OutputDir => Some("Output"@),
            SettingsField::MediaMode => Some("Media"@),
            SettingsField::EmbedThumbnail => Some("Embedding"@),
            SettingsField::WriteSubtitles => Some("Subtitles"@),
            SettingsField::UseArchive => Some("Playlist"@),
            SettingsField::RateLimit => Some("Network"@),
            SettingsField::ExtraArgs => Some("Advanced"@),
            _ => None,
        }
    }

    pub fn section(self) -> (r: Option<&'static str>)
        ensures
            match r {
                Some(s) => self.spec_section() == Some(s@),
                None => self.spec_section() is None,
            },
    {
        match self {
            SettingsField::OutputDir => Some("Output"),
            SettingsField::MediaMode => Some("Media"),
            SettingsField::EmbedThumbnail => Some("Embedding"),
            SettingsField::WriteSubtitles => Some("Subtitles"),
            SettingsField::UseArchive => Some("Playlist"),
            SettingsField::RateLimit => Some("Network"),
            SettingsField::ExtraArgs => Some("Advanced"),
            _ => None,
        }
    }

    pub open spec fn spec_label(self) -> Seq<char> {
        match self {
            SettingsField::OutputDir => "Output directory"@,
            SettingsField::FilenameTemplate => "Filename template"@,
            SettingsField::Concurrency => "Concurrent downloads"@,
            SettingsField::MediaMode => "Media mode"@,
            SettingsField::VideoQuality => "Video quality cap"@,
            SettingsField::VideoContainer => "Video container"@,
            SettingsField::AudioFormat => "Audio format"@,
            SettingsField::EmbedThumbnail => "Embed thumbnail"@,
            SettingsField::EmbedMetadata => "Embed metadata"@,
            SettingsField::EmbedChapters => "Embed chapters"@,
            SettingsField::WriteSubtitles => "Write subtitles"@,
            SettingsField::EmbedSubtitles => "Embed subtitles"@,
            SettingsField::WriteAutoSubs => "Write auto-generated subs"@,
            SettingsField::SubtitleLangs => "Subtitle languages"@,
            SettingsField::UseArchive => "Skip already-downloaded (archive)"@,
            SettingsField::PlaylistReverse => "Reverse playlist order"@,
            SettingsField::PlaylistStart => "Playlist start index"@,
            SettingsField::PlaylistEnd => "Playlist end index"@,
            SettingsField::RateLimit => "Rate limit (e.g. 2M)"@,
            SettingsField::Retries => "Retries"@,
            SettingsField::Proxy => "Proxy URL"@,
            SettingsField::CookiesFile => "Cookies file"@,
            SettingsField::SponsorblockRemove => "Strip sponsor segments (SponsorBlock)"@,
            SettingsField::ExtraArgs => "Extra yt-dlp arguments"@,
        }
    }

    pub fn label(self) -> (r: &'static str)
        ensures
            r@ == self.spec_label(),
    {
        match self {
            SettingsField::OutputDir => "Output directory",
            SettingsField::FilenameTemplate => "Filename template",
            SettingsField::Concurrency => "Concurrent downloads",
            SettingsField::MediaMode => "Media mode",
            SettingsField::VideoQuality => "Video quality cap",
            SettingsField::VideoContainer => "Video container",
            SettingsField::AudioFormat => "Audio format",
            SettingsField::EmbedThumbnail => "Embed thumbnail",
            SettingsField::EmbedMetadata => "Embed metadata",
            SettingsField::EmbedChapters => "Embed chapters",
            SettingsField::WriteSubtitles => "Write subtitles",
            SettingsField::EmbedSubtitles => "Embed subtitles",
            SettingsField::WriteAutoSubs => "Write auto-generated subs",
            SettingsField::SubtitleLangs => "Subtitle languages",
            SettingsField::UseArchive => "Skip already-downloaded (archive)",
            SettingsField::PlaylistReverse => "Reverse playlist order",
            SettingsField::PlaylistStart => "Playlist start index",
            SettingsField::PlaylistEnd => "Playlist end index",
            SettingsField::RateLimit => "Rate limit (e.g. 2M)",
            SettingsField::Retries => "Retries",
            SettingsField::Proxy => "Proxy URL",
            SettingsField::CookiesFile => "Cookies file",
            SettingsField::SponsorblockRemove => "Strip sponsor segments (SponsorBlock)",
            SettingsField::ExtraArgs => "Extra yt-dlp arguments",
        }
    }

    /// The four option enums cycle, the nine flags toggle, everything else
    /// is free text.
    pub open spec fn spec_kind(self) -> FieldKind {
        match self {
            SettingsField::MediaMode
            | SettingsField::VideoQuality
            | SettingsField::VideoContainer
            | SettingsField::AudioFormat => FieldKind::Cycle,
            SettingsField::EmbedThumbnail
            | SettingsField::EmbedMetadata
            | SettingsField::EmbedChapters
            | SettingsField::WriteSubtitles
            | SettingsField::EmbedSubtitles
            | SettingsField::WriteAutoSubs
            | SettingsField::UseArchive
            | SettingsField::PlaylistReverse
            | SettingsField::SponsorblockRemove => FieldKind::Toggle,
            _ => FieldKind::Text,
        }
    }

    pub fn kind(self) -> (r: FieldKind)
        ensures
            r == self.spec_kind(),
    {
        match self {
            SettingsField::MediaMode
            | SettingsField::VideoQuality
            | SettingsField::VideoContainer
            | SettingsField::AudioFormat => FieldKind::Cycle,
            SettingsField::EmbedThumbnail
            | SettingsField::EmbedMetadata
            | SettingsField::EmbedChapters
            | SettingsField::WriteSubtitles
            | SettingsField::EmbedSubtitles
            | SettingsField::WriteAutoSubs
            | SettingsField::UseArchive
            | SettingsField::PlaylistReverse
            | SettingsField::SponsorblockRemove => FieldKind::Toggle,
            _ => FieldKind::Text,
        }
    }

    /// Current value of a toggle field (`false` for any other kind).
    pub open spec fn spec_bool_value(self, s: SettingsModel) -> bool {
        match self {
            SettingsField::EmbedThumbnail => s.embed_thumbnail,
            SettingsField::EmbedMetadata => s.embed_metadata,
            SettingsField::EmbedChapters => s.embed_chapters,
            SettingsField::WriteSubtitles => s.write_subtitles,
            SettingsField::EmbedSubtitles => s.embed_subtitles,
            SettingsField::WriteAutoSubs => s.write_auto_subs,
            SettingsField::UseArchive => s.use_download_archive,
            SettingsField::PlaylistReverse => s.playlist_reverse,
            SettingsField::SponsorblockRemove => s.sponsorblock_remove,
            _ => false,
        }
    }

    /// Current value of a toggle field (meaningless for any other kind --
    /// returns `false`), so a checkbox can bind to a real `bool`.
    pub fn bool_value(self, s: &Settings) -> (r: bool)
        ensures
            r == self.spec_bool_value(s@),
    {
        match self {
            SettingsField::EmbedThumbnail => s.embed_thumbnail,
            SettingsField::EmbedMetadata => s.embed_metadata,
            SettingsField::EmbedChapters => s.embed_chapters,
            SettingsField::WriteSubtitles => s.write_subtitles,
            SettingsField::EmbedSubtitles => s.embed_subtitles,
            SettingsField::WriteAutoSubs => s.write_auto_subs,
            SettingsField::UseArchive => s.use_download_archive,
            SettingsField::PlaylistReverse => s.playlist_reverse,
            SettingsField::SponsorblockRemove => s.sponsorblock_remove,
            _ => false,
        }
    }

    /// The settings after toggling this field (unchanged unless it is a
    /// toggle field).
    pub open spec fn spec_toggle(self, s: SettingsModel) -> SettingsModel {
        match self {
            SettingsField::EmbedThumbnail => SettingsModel { embed_thumbnail: !s.embed_thumbnail, ..s },
            SettingsField::EmbedMetadata => SettingsModel { embed_metadata: !s.embed_metadata, ..s },
            SettingsField::EmbedChapters => SettingsModel { embed_chapters: !s.embed_chapters, ..s },
            SettingsField::WriteSubtitles => SettingsModel { write_subtitles: !s.write_subtitles, ..s },
            SettingsField::EmbedSubtitles => SettingsModel { embed_subtitles: !s.embed_subtitles, ..s },
            SettingsField::WriteAutoSubs => SettingsModel { write_auto_subs: !s.write_auto_subs, ..s },
            SettingsField::UseArchive => SettingsModel { use_download_archive: !s.use_download_archive, ..s },
            SettingsField::PlaylistReverse => SettingsModel { playlist_reverse: !s.playlist_reverse, ..s },
            SettingsField::SponsorblockRemove => SettingsModel { sponsorblock_remove: !s.sponsorblock_remove, ..s },
            _ => s,
        }
    }

    #[verifier::rlimit(60)]
    pub fn toggle(self, s: &mut Settings)
        ensures
            final(s)@ == self.spec_toggle(old(s)@),
    {
        match self {
            SettingsField::EmbedThumbnail => s.embed_thumbnail = !s.embed_thumbnail,
            SettingsField::EmbedMetadata => s.embed_metadata = !s.embed_metadata,
            SettingsField::EmbedChapters => s.embed_chapters = !s.embed_chapters,
            SettingsField::WriteSubtitles => s.write_subtitles = !s.write_subtitles,
            SettingsField::EmbedSubtitles => s.embed_subtitles = !s.embed_subtitles,
            SettingsField::WriteAutoSubs => s.write_auto_subs = !s.write_auto_subs,
            SettingsField::UseArchive => s.use_download_archive = !s.use_download_archive,
            SettingsField::PlaylistReverse => s.playlist_reverse = !s.playlist_reverse,
            SettingsField::SponsorblockRemove => s.sponsorblock_remove = !s.sponsorblock_remove,
            _ => {},
        }
    }

    /// The settings after cycling this field: one step forward for
    /// `dir >= 0`, one step backward otherwise.
    pub open spec fn spec_cycle(self, s: SettingsModel, dir: i32) -> SettingsModel {
        match self {
            SettingsField::MediaMode => SettingsModel {
                media_mode: if dir >= 0 {
                    s.media_mode.spec_next()
                } else {
                    s.media_mode.spec_prev()
                },
                ..s
            },
            SettingsField::VideoQuality => SettingsModel {
                video_quality: if dir >= 0 {
                    s.video_quality.spec_next()
                } else {
                    s.video_quality.spec_prev()
                },
                ..s
            },
            SettingsField::VideoContainer => SettingsModel {
                video_container: if dir >= 0 {
                    s.video_container.spec_next()
                } else {
                    s.video_container.spec_prev()
                },
                ..s
            },
            SettingsField::AudioFormat => SettingsModel {
                audio_format: if dir >= 0 {
                    s.audio_format.spec_next()
                } else {
                    s.audio_format.spec_prev()
                },
                ..s
            },
            _ => s,
        }
    }

    /// `dir`: +1 cycles forward, -1 cycles backward.
    pub fn cycle(self, s: &mut Settings, dir: i32)
        ensures
            final(s)@ == self.spec_cycle(old(s)@, dir),
    {
        match self {
            SettingsField::MediaMode => {
                s.media_mode = if dir >= 0 {
                    s.media_mode.next()
                } else {
                    s.media_mode.prev()
                }
            },
            SettingsField::VideoQuality => {
                s.video_quality = if dir >= 0 {
                    s.video_quality.next()
                } else {
                    s.video_quality.prev()
                }
            },
            SettingsField::VideoContainer => {
                s.video_container = if dir >= 0 {
                    s.video_container.next()
                } else {
                    s.video_container.prev()
                }
            },
            SettingsField::AudioFormat => {
                s.audio_format = if dir >= 0 {
                    s.audio_format.next()
                } else {
                    s.audio_format.prev()
                }
            },
            _ => {},
        }
    }

    /// Raw text of a text field (empty for other kinds, and for an unset
    /// playlist bound).
    pub open spec fn spec_text_value(self, s: SettingsModel) -> Seq<char> {
        match self {
            SettingsField::OutputDir => s.output_dir,
            SettingsField::FilenameTemplate => s.filename_template,
            SettingsField::Concurrency => dec(s.concurrency as nat),
            SettingsField::SubtitleLangs => s.subtitle_langs,
            SettingsField::RateLimit => s.rate_limit,
            SettingsField::Proxy => s.proxy,
            SettingsField::CookiesFile => s.cookies_file,
            SettingsField::ExtraArgs => s.extra_args,
            SettingsField::PlaylistStart => opt_text(s.playlist_start),
            SettingsField::PlaylistEnd => opt_text(s.playlist_end),
            SettingsField::Retries => dec(s.retries as nat),
            _ => Seq::empty(),
        }
    }

    /// Raw value used to seed the text-edit box when entering edit mode.
    pub fn text_value(self, s: &Settings) -> (r: String)
        ensures
            r@ == self.spec_text_value(s@),
    {
        match self {
            SettingsField::OutputDir => s.output_dir.clone(),
            SettingsField::FilenameTemplate => s.filename_template.clone(),
            SettingsField::Concurrency => u64_to_string(s.concurrency as u64),
            SettingsField::SubtitleLangs => s.subtitle_langs.clone(),
            SettingsField::RateLimit => s.rate_limit.clone(),
            SettingsField::Proxy => s.proxy.clone(),
            SettingsField::CookiesFile => s.cookies_file.clone(),
            SettingsField::ExtraArgs => s.extra_args.clone(),
            SettingsField::PlaylistStart => opt_text_exec(s.playlist_start),
            SettingsField::PlaylistEnd => opt_text_exec(s.playlist_end),
            SettingsField::Retries => u64_to_string(s.retries as u64),
            _ => String::new(),
        }
    }

    /// The settings after committing `value` to this field. The value is
    /// trimmed first; an empty output directory or filename template is
    /// ignored, a concurrency or retry count that does not parse is ignored
    /// (a parsed concurrency of 0 becomes 1), and a playlist bound that does
    /// not parse clears the bound. Other kinds are unchanged.
    pub open spec fn spec_set_text(self, s: SettingsModel, value: Seq<char>) -> SettingsModel {
        let t = trim(value);
        match self {
            SettingsField::OutputDir => if t.len() > 0 {
                SettingsModel { output_dir: t, ..s }
            } else {
                s
            },
            SettingsField::FilenameTemplate => if t.len() > 0 {
                SettingsModel { filename_template: t, ..s }
            } else {
                s
            },
            SettingsField::Concurrency => match parse_uint(t, usize::MAX as nat) {
                Some(n) => SettingsModel {
                    concurrency: if n >= 1 { n as usize } else { 1 },
                    ..s
                },
                None => s,
            },
            SettingsField::SubtitleLangs => SettingsModel { subtitle_langs: t, ..s },
            SettingsField::RateLimit => SettingsModel { rate_limit: t, ..s },
            SettingsField::Proxy => SettingsModel { proxy: t, ..s },
            SettingsField::CookiesFile => SettingsModel { cookies_file: t, ..s },
            SettingsField::ExtraArgs => SettingsModel { extra_args: t, ..s },
            SettingsField::PlaylistStart => SettingsModel {
                playlist_start: opt_u32(parse_uint(t, u32::MAX as nat)),
                ..s
            },
            SettingsField::PlaylistEnd => SettingsModel {
                playlist_end: opt_u32(parse_uint(t, u32::MAX as nat)),
                ..s
            },
            SettingsField::Retries => match parse_uint(t, u32::MAX as nat) {
                Some(n) => SettingsModel { retries: n as u32, ..s },
                None => s,
            },
            _ => s,
        }
    }

    #[verifier::rlimit(60)]
    pub fn set_text_value(self, s: &mut Settings, value: &str)
        ensures
            final(s)@ == self.spec_set_text(old(s)@, value@),
    {
        let v = chars_of(value);
        let tv = trim_chars(v.as_slice());
        let trimmed = string_of(tv.as_slice());
        match self {
            SettingsField::OutputDir => {
                if tv.len() > 0 {
                    s.output_dir = trimmed;
                }
            },
            SettingsField::FilenameTemplate => {
                if tv.len() > 0 {
                    s.filename_template = trimmed;
                }
            },
            SettingsField::Concurrency => {
                if let Some(n) = parse_unsigned(tv.as_slice(), usize::MAX as u64) {
                    s.concurrency = if n >= 1 { n as usize } else { 1 };
                }
            },
            SettingsField::SubtitleLangs => s.subtitle_langs = trimmed,
            SettingsField::RateLimit => s.rate_limit = trimmed,
            SettingsField::Proxy => s.proxy = trimmed,
            SettingsField::CookiesFile => s.cookies_file = trimmed,
            SettingsField::ExtraArgs => s.extra_args = trimmed,
            SettingsField::PlaylistStart => {
                s.playlist_start = parse_u32(tv.as_slice());
            },
            SettingsField::PlaylistEnd => {
                s.playlist_end = parse_u32(tv.as_slice());
            },
            SettingsField::Retries => {
                if let Some(n) = parse_u32(tv.as_slice()) {
                    s.retries = n;
                }
            },
            _ => {},
        }
    }

    /// Human-friendly rendering of the current value for the settings list.
    pub open spec fn spec_display_value(self, s: SettingsModel) -> Seq<char> {
        match self {
            SettingsField::MediaMode => s.media_mode.spec_label(),
            SettingsField::VideoQuality => s.video_quality.spec_label(),
            SettingsField::VideoContainer => s.video_container.spec_label(),
            SettingsField::AudioFormat => s.audio_format.spec_label(),
            SettingsField::EmbedThumbnail => spec_bool_label(s.embed_thumbnail),
            SettingsField::EmbedMetadata => spec_bool_label(s.embed_metadata),
            SettingsField::EmbedChapters => spec_bool_label(s.embed_chapters),
            SettingsField::WriteSubtitles => spec_bool_label(s.write_subtitles),
            SettingsField::EmbedSubtitles => spec_bool_label(s.embed_subtitles),
            SettingsField::WriteAutoSubs => spec_bool_label(s.write_auto_subs),
            SettingsField::UseArchive => spec_bool_label(s.use_download_archive),
            SettingsField::PlaylistReverse => spec_bool_label(s.playlist_reverse),
            SettingsField::SponsorblockRemove => spec_bool_label(s.sponsorblock_remove),
            SettingsField::PlaylistStart => match s.playlist_start {
                Some(v) => dec(v as nat),
                None => "(none)"@,
            },
            SettingsField::PlaylistEnd => match s.playlist_end {
                Some(v) => dec(v as nat),
                None => "(none)"@,
            },
            SettingsField::RateLimit => if s.rate_limit.len() == 0 {
                "unlimited"@
            } else {
                s.rate_limit
            },
            SettingsField::Proxy => or_none(s.proxy),
            SettingsField::CookiesFile => or_none(s.cookies_file),
            SettingsField::ExtraArgs => or_none(s.extra_args),
            _ => self.spec_text_value(s),
        }
    }

    pub fn display_value(self, s: &Settings) -> (r: String)
        ensures
            r@ == self.spec_display_value(s@),
    {
        proof {
            reveal_strlit("(none)");
        }
        match self {
            SettingsField::MediaMode => String::from_str(s.media_mode.label()),
            SettingsField::VideoQuality => String::from_str(s.video_quality.label()),
            SettingsField::VideoContainer => String::from_str(s.video_container.label()),
            SettingsField::AudioFormat => String::from_str(s.audio_format.label()),
            SettingsField::EmbedThumbnail => bool_label(s.embed_thumbnail),
            SettingsField::EmbedMetadata => bool_label(s.embed_metadata),
            SettingsField::EmbedChapters => bool_label(s.embed_chapters),
            SettingsField::WriteSubtitles => bool_label(s.write_subtitles),
            SettingsField::EmbedSubtitles => bool_label(s.embed_subtitles),
            SettingsField::WriteAutoSubs => bool_label(s.write_auto_subs),
            SettingsField::UseArchive => bool_label(s.use_download_archive),
            SettingsField::PlaylistReverse => bool_label(s.playlist_reverse),
            SettingsField::SponsorblockRemove => bool_label(s.sponsorblock_remove),
            SettingsField::PlaylistStart => match s.playlist_start {
                Some(v) => u64_to_string(v as u64),
                None => String::from_str("(none)"),
            },
            SettingsField::PlaylistEnd => match s.playlist_end {
                Some(v) => u64_to_string(v as u64),
                None => String::from_str("(none)"),
            },
            SettingsField::RateLimit => {
                if s.rate_limit.as_str().is_empty() {
                    String::from_str("unlimited")
                } else {
                    s.rate_limit.clone()
                }
            },
            SettingsField::Proxy => or_none_exec(&s.proxy),
            SettingsField::CookiesFile => or_none_exec(&s.cookies_file),
            SettingsField::ExtraArgs => or_none_exec(&s.extra_args),
            _ => self.text_value(s),
        }
    }

    /// Whether this row is meaningful in the given media mode; irrelevant
    /// rows are dimmed rather than hidden so the layout stays stable.
    pub open spec fn spec_relevant_for(self, mode: MediaMode) -> bool {
        match self {
            SettingsField::VideoQuality
            | SettingsField::VideoContainer
            | SettingsField::EmbedChapters => mode == MediaMode::VideoAudio,
            SettingsField::AudioFormat => mode == MediaMode::AudioOnly,
            _ => true,
        }
    }

    pub fn relevant_for(self, mode: MediaMode) -> (r: bool)
        ensures
            r == self.spec_relevant_for(mode),
    {
        match self {
            SettingsField::VideoQuality
            | SettingsField::VideoContainer
            | SettingsField::EmbedChapters => mode == MediaMode::VideoAudio,
            SettingsField::AudioFormat => mode == MediaMode::AudioOnly,
            _ => true,
        }
    }
}

/// `"On"` / `"Off"`.
pub open spec fn spec_bool_label(b: bool) -> Seq<char> {
    if b {
        "On"@
    } else {
        "Off"@
    }
}

pub fn bool_label(b: bool) -> (r: String)
    ensures
        r@ == spec_bool_label(b),
{
    if b {
        String::from_str("On")
    } else {
        String::from_str("Off")
    }
}

/// The text, or `(none)` when it is empty.
pub open spec fn or_none(s: Seq<char>) -> Seq<char> {
    if s.len() == 0 {
        "(none)"@
    } else {
        s
    }
}

fn or_none_exec(s: &String) -> (r: String)
    ensures
        r@ == or_none(s@),
{
    if s.as_str().is_empty() {
        String::from_str("(none)")
    } else {
        s.clone()
    }
}

/// A set bound's decimal text, or the empty string.
pub open spec fn opt_text(v: Option<u32>) -> Seq<char> {
    match v {
        Some(n) => dec(n as nat),
        None => Seq::empty(),
    }
}

fn opt_text_exec(v: Option<u32>) -> (r: String)
    ensures
        r@ == opt_text(v),
{
    match v {
        Some(n) => u64_to_string(n as u64),
        None => String::new(),
    }
}

pub open spec fn opt_u32(v: Option<nat>) -> Option<u32> {
    match v {
        Some(n) => Some(n as u32),
        None => None,
    }
}

/// `s.parse::<u32>().ok()`.
pub fn parse_u32(s: &[char]) -> (r: Option<u32>)
    ensures
        r == opt_u32(parse_uint(s@, u32::MAX as nat)),
{
    match parse_unsigned(s, u32::MAX as u64) {
        Some(n) => Some(n as u32),
        None => None,
    }
}


// ---------------------------------------------------------------------------
// Laws
// ---------------------------------------------------------------------------

proof fn lemma_trim_dec(n: nat)
    ensures
        trim(dec(n)) == dec(n),
        parse_uint(dec(n), n) == Some(n),
{
    lemma_dec_digits(n);
    let d = dec(n);
    assert(crate::text::is_digit(d[0]));
    assert(crate::text::is_digit(d.last()));
    assert(!is_ws(d[0]));
    assert(!is_ws(d.last()));
    assert(trim_start(d) == d);
    assert(trim_end(d) == d);
}

proof fn lemma_parse_dec(n: nat, max: nat)
    requires
        n <= max,
    ensures
        parse_uint(dec(n), max) == Some(n),
{
    lemma_trim_dec(n);
}

/// Toggling a field twice leaves the settings as they were, and toggling a
/// toggle field flips the value its checkbox shows.
#[verifier::rlimit(80)]
/// Toggling a field twice restores the settings, and toggling a toggle
/// field flips its value.
pub proof fn lemma_toggle_involutive(f: SettingsField, s: SettingsModel)
    ensures
        f.spec_toggle(f.spec_toggle(s)) == s,
        f.spec_kind() == FieldKind::Toggle ==> f.spec_bool_value(f.spec_toggle(s))
            == !f.spec_bool_value(s),
{
    match f {
        SettingsField::OutputDir => {
        },
        SettingsField::FilenameTemplate => {
        },
        SettingsField::Concurrency => {
        },
        SettingsField::MediaMode => {
        },
        SettingsField::VideoQuality => {
        },
        SettingsField::VideoContainer => {
        },
        SettingsField::AudioFormat => {
        },
        SettingsField::EmbedThumbnail => {
        },
        SettingsField::EmbedMetadata => {
        },
        SettingsField::EmbedChapters => {
        },
        SettingsField::WriteSubtitles => {
        },
        SettingsField::EmbedSubtitles => {
        },
        SettingsField::WriteAutoSubs => {
        },
        SettingsField::SubtitleLangs => {
        },
        SettingsField::UseArchive => {
        },
        SettingsField::PlaylistReverse => {
        },
        SettingsField::PlaylistStart => {
        },
        SettingsField::PlaylistEnd => {
        },
        SettingsField::RateLimit => {
        },
        SettingsField::Retries => {
        },
        SettingsField::Proxy => {
        },
        SettingsField::CookiesFile => {
        },
        SettingsField::SponsorblockRemove => {
        },
        SettingsField::ExtraArgs => {
        },
    }
}

/// Cycling any field forward and then backward (or the reverse) restores
/// the settings.
#[verifier::rlimit(60)]
pub proof fn lemma_cycle_back_and_forth(f: SettingsField, s: SettingsModel)
    ensures
        f.spec_cycle(f.spec_cycle(s, 1i32), -1i32) == s,
        f.spec_cycle(f.spec_cycle(s, -1i32), 1i32) == s,
{
    match f {
        SettingsField::VideoQuality => crate::models::lemma_video_quality_cycle(s.video_quality),
        SettingsField::MediaMode => {
            assert(s.media_mode.spec_next().spec_prev() == s.media_mode);
            assert(s.media_mode.spec_prev().spec_next() == s.media_mode);
        },
        SettingsField::VideoContainer => {
            assert(s.video_container.spec_next().spec_prev() == s.video_container);
            assert(s.video_container.spec_prev().spec_next() == s.video_container);
        },
        SettingsField::AudioFormat => {
            assert(s.audio_format.spec_next().spec_prev() == s.audio_format);
            assert(s.audio_format.spec_prev().spec_next() == s.audio_format);
        },
        _ => {},
    }
}

/// Each action only applies to its own kind of field: toggling a field that
/// is not a toggle, cycling one that is not a cycle, or committing text to
/// one that is not a text field changes nothing.
pub proof fn lemma_actions_respect_kind(
    f: SettingsField,
    s: SettingsModel,
    dir: i32,
    value: Seq<char>,
)
    ensures
        f.spec_kind() != FieldKind::Toggle ==> f.spec_toggle(s) == s,
        f.spec_kind() != FieldKind::Cycle ==> f.spec_cycle(s, dir) == s,
        f.spec_kind() != FieldKind::Text ==> f.spec_set_text(s, value) == s,
{
}

/// Committing the decimal text of a number `n` (with any surrounding
/// whitespace) stores that number in the field and changes nothing else:
/// the concurrency becomes `n` (at least 1), the retry count `n`, and a
/// playlist bound `Some(n)`, as far as the field's type holds `n`.
pub proof fn lemma_committed_number_is_stored(s: SettingsModel, value: Seq<char>, n: nat)
    requires
        trim(value) == dec(n),
    ensures
        n <= usize::MAX ==> SettingsField::Concurrency.spec_set_text(s, value) == (SettingsModel {
            concurrency: if n >= 1 { n as usize } else { 1 },
            ..s
        }),
        n <= u32::MAX ==> SettingsField::Retries.spec_set_text(s, value) == (SettingsModel {
            retries: n as u32,
            ..s
        }),
        n <= u32::MAX ==> SettingsField::PlaylistStart.spec_set_text(s, value) == (SettingsModel {
            playlist_start: Some(n as u32),
            ..s
        }),
        n <= u32::MAX ==> SettingsField::PlaylistEnd.spec_set_text(s, value) == (SettingsModel {
            playlist_end: Some(n as u32),
            ..s
        }),
{
    if n <= usize::MAX {
        lemma_parse_dec(n, usize::MAX as nat);
    }
    if n <= u32::MAX {
        lemma_parse_dec(n, u32::MAX as nat);
    }
}

/// Committing text to a free-text field stores it trimmed and changes
/// nothing else; the output directory and filename template take it only
/// when it is not blank, and keep their value otherwise. Blank text leaves
/// the concurrency and retry count as they were and clears a playlist
/// bound.
pub proof fn lemma_committed_text_is_stored(s: SettingsModel, value: Seq<char>)
    ensures
        trim(value).len() == 0 ==> SettingsField::Concurrency.spec_set_text(s, value) == s
            && SettingsField::Retries.spec_set_text(s, value) == s
            && SettingsField::PlaylistStart.spec_set_text(s, value) == (SettingsModel {
            playlist_start: None,
            ..s
        }) && SettingsField::PlaylistEnd.spec_set_text(s, value) == (SettingsModel {
            playlist_end: None,
            ..s
        }),
        SettingsField::SubtitleLangs.spec_set_text(s, value) == (SettingsModel {
            subtitle_langs: trim(value),
            ..s
        }),
        SettingsField::RateLimit.spec_set_text(s, value) == (SettingsModel { rate_limit: trim(value), ..s }),
        SettingsField::Proxy.spec_set_text(s, value) == (SettingsModel { proxy: trim(value), ..s }),
        SettingsField::CookiesFile.spec_set_text(s, value) == (SettingsModel {
            cookies_file: trim(value),
            ..s
        }),
        SettingsField::ExtraArgs.spec_set_text(s, value) == (SettingsModel { extra_args: trim(value), ..s }),
        SettingsField::OutputDir.spec_set_text(s, value) == (if trim(value).len() > 0 {
            (SettingsModel { output_dir: trim(value), ..s })
        } else {
            s
        }),
        SettingsField::FilenameTemplate.spec_set_text(s, value) == (if trim(value).len() > 0 {
            (SettingsModel { filename_template: trim(value), ..s })
        } else {
            s
        }),
{
}

/// Committing a field's own current text back to it changes nothing, as
/// long as the stored strings carry no surrounding whitespace (the text is
/// trimmed on commit) and the concurrency is at least 1 (0 is committed as
/// 1).
pub proof fn lemma_text_value_round_trip(f: SettingsField, s: SettingsModel)
    requires
        trim(s.output_dir) == s.output_dir,
        trim(s.filename_template) == s.filename_template,
        trim(s.subtitle_langs) == s.subtitle_langs,
        trim(s.rate_limit) == s.rate_limit,
        trim(s.proxy) == s.proxy,
        trim(s.cookies_file) == s.cookies_file,
        trim(s.extra_args) == s.extra_args,
        s.concurrency >= 1,
    ensures
        f.spec_set_text(s, f.spec_text_value(s)) == s,
{
    match f {
        SettingsField::Concurrency => {
            lemma_trim_dec(s.concurrency as nat);
            lemma_parse_dec(s.concurrency as nat, usize::MAX as nat);
        },
        SettingsField::Retries => {
            lemma_trim_dec(s.retries as nat);
            lemma_parse_dec(s.retries as nat, u32::MAX as nat);
        },
        SettingsField::PlaylistStart => {
            match s.playlist_start {
                Some(n) => {
                    lemma_trim_dec(n as nat);
                    lemma_parse_dec(n as nat, u32::MAX as nat);
                },
                None => {
                    assert(trim(Seq::<char>::empty()) == Seq::<char>::empty());
                },
            }
        },
        SettingsField::PlaylistEnd => {
            match s.playlist_end {
                Some(n) => {
                    lemma_trim_dec(n as nat);
                    lemma_parse_dec(n as nat, u32::MAX as nat);
                },
                None => {
                    assert(trim(Seq::<char>::empty()) == Seq::<char>::empty());
                },
            }
        },
        SettingsField::OutputDir => {},
        SettingsField::FilenameTemplate => {},
        _ => {},
    }
}

} // verus!
