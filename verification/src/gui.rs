//! The desktop GUI's state and message handling. Navigation is tab-based:
//! Download, History, Settings, Updates and About are always one click
//! away. The window, widgets and the async tasks live outside the library;
//! `GuiState::update` decides, for every message, how the state changes and
//! which piece of outside work (an `Effect`) to start, and the `on_*`
//! methods take that work's result back.

use vstd::prelude::*;

use crate::config::Settings;
use crate::downloader::{BinaryPaths, DownloadEvent, binary_paths_of, paths_from};
use crate::history::{HistoryEntry, HistoryVideoEntry, recorded_videos};
use crate::models::{
    AudioFormat, DownloadItem, MediaMode, PlaylistInfo, VideoContainer, VideoQuality, clone_opt_string,
    };
use crate::session::{
    completes_batch,
    Batch, BatchError, MISSING_YTDLP, apply_event, event_applied, count_true, filtered_video_indices, invert_selection_at,
    new_items, prepare_batch, select_all, selected_count, set_selection_at, spec_batch_settings,
    spec_filtered, spec_invert_at, spec_selected_videos, spec_set_at, spec_toggle, toggle_selected,
};
use crate::paths::target_is_windows;
use crate::settings_fields::SettingsField;
use crate::text::{concat, trim, trim_str};
use crate::update_check::UpdateInfo;
use crate::ytdlp::{BinaryStatus, JsRuntime, YtDlp};

verus! {

// ---------------------------------------------------------------------------
// Tabs and screens
// ---------------------------------------------------------------------------

#[derive(Debug, Clone, Copy, PartialEq, Eq, Structural)]
pub enum Tab {
    Download,
    History,
    Settings,
    Updates,
    About,
}

#[derive(Debug, Clone, Copy, PartialEq, Eq, Structural)]
pub enum Screen {
    UrlInput,
    VideoList,
    Downloading,
    HistoryList,
    /// Drilled into one playlist/channel history entry.
    HistoryPlaylist,
    /// One video's recorded outcome, reached either from `HistoryPlaylist`
    /// or straight from `HistoryList` for a single-video entry.
    HistoryVideoDetail,
    Settings,
    Updates,
    About,
}

impl Tab {
    pub const ALL: [Tab; 5] = [Tab::Download, Tab::History, Tab::Settings, Tab::Updates, Tab::About];

    pub open spec fn spec_label(self) -> Seq<char> {
        match self {
            Tab::Download => "Download"@,
            Tab::History => "History"@,
            Tab::Settings => "Settings"@,
            Tab::Updates => "Updates"@,
            Tab::About => "About"@,
        }
    }

    pub fn label(self) -> (r: &'static str)
        ensures
            r@ == self.spec_label(),
    {
        match self {
            Tab::Download => "Download",
            Tab::History => "History",
            Tab::Settings => "Settings",
            Tab::Updates => "Updates",
            Tab::About => "About",
        }
    }

    pub open spec fn spec_home_screen(self) -> Screen {
        match self {
            Tab::Download => Screen::UrlInput,
            Tab::History => Screen::HistoryList,
            Tab::Settings => Screen::Settings,
            Tab::Updates => Screen::Updates,
            Tab::About => Screen::About,
        }
    }

    /// The screen shown when this tab is first selected.
    pub fn home_screen(self) -> (r: Screen)
        ensures
            r == self.spec_home_screen(),
    {
        match self {
            Tab::Download => Screen::UrlInput,
            Tab::History => Screen::HistoryList,
            Tab::Settings => Screen::Settings,
            Tab::Updates => Screen::Updates,
            Tab::About => Screen::About,
        }
    }
}

impl Screen {
    pub open spec fn spec_tab(self) -> Tab {
        match self {
            Screen::UrlInput | Screen::VideoList | Screen::Downloading => Tab::Download,
            Screen::HistoryList | Screen::HistoryPlaylist | Screen::HistoryVideoDetail => Tab::History,
            Screen::Settings => Tab::Settings,
            Screen::Updates => Tab::Updates,
            Screen::About => Tab::About,
        }
    }

    /// The tab a screen belongs to.
    pub fn tab(self) -> (r: Tab)
        ensures
            r == self.spec_tab(),
    {
        match self {
            Screen::UrlInput | Screen::VideoList | Screen::Downloading => Tab::Download,
            Screen::HistoryList | Screen::HistoryPlaylist | Screen::HistoryVideoDetail => Tab::History,
            Screen::Settings => Tab::Settings,
            Screen::Updates => Tab::Updates,
            Screen::About => Tab::About,
        }
    }
}

/// Selecting a tab lands on one of that tab's own screens: every tab's
/// home screen belongs to the tab.
pub proof fn lemma_home_screen_belongs_to_tab(t: Tab)
    ensures
        t.spec_home_screen().spec_tab() == t,
{
}

#[derive(Debug, Clone, Copy, PartialEq, Eq, Structural)]
pub enum StatusKind {
    Info,
    Error,
}

#[derive(Debug)]
pub struct StatusMessage {
    pub text: String,
    pub kind: StatusKind,
}

/// Where a check for updates currently stands.
#[derive(Debug)]
pub enum UpdateStatus {
    Idle,
    Checking,
    UpToDate,
    Available(UpdateInfo),
    Installing,
    Error(String),
}

impl Default for UpdateStatus {
    fn default() -> (r: Self)
        ensures
            r is Idle,
    {
        UpdateStatus::Idle
    }
}

// ---------------------------------------------------------------------------
// State
// ---------------------------------------------------------------------------

/// The URL box and the fetch it starts.
#[derive(Debug)]
pub struct UrlEntry {
    pub url_input: String,
    pub fetching: bool,
    pub pending_url: String,
    /// From the command line; fetched automatically once the tool check
    /// confirms yt-dlp is ready.
    pub initial_url: Option<String>,
}

/// The resolved playlist, which of its videos are selected, and the
/// filter text.
#[derive(Debug)]
pub struct VideoList {
    pub playlist: Option<PlaylistInfo>,
    pub selected: Vec<bool>,
    pub filter: String,
}

/// The download queue's rows, which rows show their raw log, and whether
/// the batch has finished.
#[derive(Debug)]
pub struct Queue {
    pub items: Vec<DownloadItem>,
    pub expanded_items: Vec<usize>,
    pub batch_done: bool,
}

/// The download history, and which entry (and which of its videos) is
/// open.
#[derive(Debug)]
pub struct HistoryView {
    pub entries: Vec<HistoryEntry>,
    pub open: Option<usize>,
    pub video_open: Option<usize>,
}

/// Everything the window shows and the message handling changes.
#[derive(Debug)]
pub struct GuiState {
    pub settings: Settings,
    pub binary_status: BinaryStatus,
    /// Tells "not checked yet" from "checked, and missing".
    pub tools_checked: bool,
    pub screen: Screen,
    pub status: Option<StatusMessage>,
    pub settings_saved_flash: bool,
    pub show_settings: bool,
    pub url: UrlEntry,
    pub list: VideoList,
    pub queue: Queue,
    pub history: HistoryView,
    pub update_status: UpdateStatus,
    /// Whether paths are joined the Windows way (the platform the library
    /// was built for).
    pub windows: bool,
}

/// A message from the window or from finished outside work.
#[derive(Debug)]
pub enum Message {
    /// The startup tool probe completed.
    ToolsChecked(BinaryStatus),
    UrlChanged(String),
    FetchPressed,
    FetchCompleted(Result<PlaylistInfo, String>),
    ToggleVideo(usize),
    SelectAll,
    SelectNone,
    InvertSelection,
    FilterChanged(String),
    BackToUrlInput,
    StartDownloadsPressed,
    OpenSettings,
    CloseSettings,
    SettingsToggled(SettingsField),
    SettingsTextChanged(SettingsField, String),
    MediaModePicked(MediaMode),
    VideoQualityPicked(VideoQuality),
    VideoContainerPicked(VideoContainer),
    AudioFormatPicked(AudioFormat),
    SaveSettingsPressed,
    DownloadEvent(DownloadEvent),
    PauseItem(usize),
    ResumeItem(usize),
    CancelItem(usize),
    CancelAllPressed,
    ToggleItemDetails(usize),
    BackToVideoList,
    StartOverPressed,
    OpenHistoryEntry(usize),
    OpenHistoryVideo(usize),
    BackFromHistoryPlaylist,
    BackFromHistoryVideoDetail,
}

/// What to fetch, and with what.
#[derive(Debug)]
pub struct FetchRequest {
    pub url: String,
    pub settings: Settings,
    pub ytdlp: YtDlp,
    pub js_runtime: Option<JsRuntime>,
}

/// Outside work a message starts. Results come back through the `on_*`
/// methods (or as further messages).
#[derive(Debug)]
pub enum Effect {
    Nothing,
    /// Resolve the URL; the result comes back as `FetchCompleted`.
    Fetch(FetchRequest),
    /// Write `settings` to the config file; the result goes to
    /// `on_settings_saved`.
    SaveSettings,
    /// Act on the running batch, if there is one.
    PauseItem(usize),
    ResumeItem(usize),
    CancelItem(usize),
    CancelAll,
    /// Create the batch's directories, then call `on_batch_dirs` with the
    /// outcome.
    PrepareBatch(Batch),
    /// Drop the handle of the batch that was running, if any.
    ForgetBatch,
    /// Append the finished batch to the history file; a failure goes to
    /// `on_history_save_failed`.
    RecordHistory(HistoryEntry),
}

/// `text` as a status line of the given kind.
pub open spec fn status_is(s: Option<StatusMessage>, text: Seq<char>, kind: StatusKind) -> bool {
    s matches Some(m) && m.text@ == text && m.kind == kind
}

/// Whether `e` asks to fetch `url` with a copy of `st`'s settings and
/// tools.
pub open spec fn fetches(e: Effect, url: Seq<char>, st: GuiState) -> bool {
    e matches Effect::Fetch(req) && req.url@ == url && req.settings@ == st.settings@
        && st.binary_status.ytdlp == Some(req.ytdlp) && (req.js_runtime is Some
        == st.binary_status.js_runtime is Some)
}

/// Two history entries with the same fields (videos compared by contents).
pub open spec fn same_entry(a: HistoryEntry, b: HistoryEntry) -> bool {
    &&& a.id == b.id
    &&& a.title == b.title
    &&& a.source_url == b.source_url
    &&& a.uploader == b.uploader
    &&& a.is_playlist == b.is_playlist
    &&& a.finished_at == b.finished_at
    &&& a.videos@ == b.videos@
}

/// The selection of a video list as a sequence.
pub open spec fn filtered_of(l: VideoList) -> Seq<usize> {
    spec_filtered(l.playlist, l.filter@)
}

/// `t` is `s` with only the status changed, to `text` of kind `kind`.
pub open spec fn status_set(s: GuiState, t: GuiState, text: Seq<char>, kind: StatusKind) -> bool {
    t == GuiState { status: t.status, ..s } && status_is(t.status, text, kind)
}

/// `t` is `s` after starting to fetch `url`: pending and fetching, status
/// cleared, and `e` asks for the fetch.
pub open spec fn fetch_started(s: GuiState, t: GuiState, url: Seq<char>, e: Effect) -> bool {
    &&& t == GuiState {
        url: UrlEntry { pending_url: t.url.pending_url, fetching: true, ..s.url },
        status: None,
        ..s
    }
    &&& t.url.pending_url@ == url
    &&& fetches(e, url, s)
}

/// `t` is `s` with only the selection changed.
pub open spec fn selection_changed(s: GuiState, t: GuiState) -> bool {
    t == GuiState { list: VideoList { selected: t.list.selected, ..s.list }, ..s }
}

/// Whether a history entry is a lone video.
pub open spec fn entry_is_single(h: HistoryEntry) -> bool {
    !h.is_playlist && h.videos@.len() == 1
}

/// Whether the history entry at `i` exists and is a lone video.
pub open spec fn single_at(entries: Seq<HistoryEntry>, i: Option<usize>) -> bool {
    i matches Some(k) && k < entries.len() && entry_is_single(entries[k as int])
}

/// What `GuiState::update` does with each message: the next state `t` and
/// the effect `e`, from the state `s`.
#[verifier::opaque]
pub open spec fn update_spec(s: GuiState, msg: Message, t: GuiState, e: Effect) -> bool {
    match msg {
        Message::ToolsChecked(st) => {
            let base = GuiState {
                binary_status: st,
                tools_checked: true,
                url: UrlEntry { initial_url: None, ..s.url },
                ..s
            };
            if st.ytdlp is None {
                e is Nothing && status_set(base, t, MISSING_YTDLP(), StatusKind::Error)
            } else {
                match s.url.initial_url {
                    Some(u) => fetch_started(base, t, u@, e),
                    None => e is Nothing && t == base,
                }
            }
        },
        Message::UrlChanged(v) => e is Nothing && t == GuiState {
            url: UrlEntry { url_input: v, ..s.url },
            ..s
        },
        Message::FetchPressed => {
            let url = trim(s.url.url_input@);
            if url.len() == 0 {
                e is Nothing && status_set(
                    s,
                    t,
                    "Enter a playlist or video URL first"@,
                    StatusKind::Error,
                )
            } else if s.binary_status.ytdlp is None {
                e is Nothing && status_set(s, t, MISSING_YTDLP(), StatusKind::Error)
            } else {
                fetch_started(s, t, url, e)
            }
        },
        Message::FetchCompleted(Ok(p)) => {
            &&& e is Nothing
            &&& t == GuiState {
                list: VideoList { playlist: Some(p), selected: t.list.selected, filter: t.list.filter },
                url: UrlEntry { fetching: false, ..s.url },
                screen: Screen::VideoList,
                ..s
            }
            &&& t.list.selected@ == Seq::new(p.videos@.len(), |i: int| true)
            &&& t.list.filter@.len() == 0
        },
        Message::FetchCompleted(Err(m)) => e is Nothing && status_set(
            GuiState { url: UrlEntry { fetching: false, ..s.url }, ..s },
            t,
            "Failed to resolve URL: "@ + m@,
            StatusKind::Error,
        ),
        Message::ToggleVideo(i) => e is Nothing && selection_changed(s, t) && t.list.selected@
            == spec_toggle(s.list.selected@, i as int),
        Message::SelectAll => e is Nothing && selection_changed(s, t) && t.list.selected@
            == spec_set_at(s.list.selected@, filtered_of(s.list), true),
        Message::SelectNone => e is Nothing && selection_changed(s, t) && t.list.selected@
            == spec_set_at(s.list.selected@, filtered_of(s.list), false),
        Message::InvertSelection => e is Nothing && selection_changed(s, t) && t.list.selected@
            == spec_invert_at(s.list.selected@, filtered_of(s.list)),
        Message::FilterChanged(v) => e is Nothing && t == GuiState {
            list: VideoList { filter: v, ..s.list },
            ..s
        },
        Message::BackToUrlInput => {
            &&& e is Nothing
            &&& t == GuiState {
                list: VideoList { playlist: None, selected: t.list.selected, filter: t.list.filter },
                screen: Screen::UrlInput,
                ..s
            }
            &&& t.list.selected@.len() == 0
            &&& t.list.filter@.len() == 0
        },
        Message::StartDownloadsPressed => if s.binary_status.ytdlp is None {
            e is Nothing && status_set(s, t, MISSING_YTDLP(), StatusKind::Error)
        } else {
            match s.list.playlist {
                None => e is Nothing && t == s,
                Some(p) => {
                    let vs = spec_selected_videos(p.videos@, s.list.selected@);
                    if vs.len() == 0 {
                        e is Nothing && status_set(
                            s,
                            t,
                            "Select at least one video first"@,
                            StatusKind::Error,
                        )
                    } else {
                        t == s && (e matches Effect::PrepareBatch(b) && b.videos@ == vs
                            && b.settings@ == spec_batch_settings(
                            s.settings@,
                            p.title@,
                            p.is_playlist,
                            s.windows,
                        ))
                    }
                },
            }
        },
        Message::OpenSettings => e is Nothing && t == GuiState {
            show_settings: true,
            settings_saved_flash: false,
            ..s
        },
        Message::CloseSettings => e is Nothing && t == GuiState { show_settings: false, ..s },
        Message::SettingsToggled(f) => e is Nothing && t == GuiState { settings: t.settings, ..s }
            && t.settings@ == f.spec_toggle(s.settings@),
        Message::SettingsTextChanged(f, v) => e is Nothing && t == GuiState {
            settings: t.settings,
            ..s
        } && t.settings@ == f.spec_set_text(s.settings@, v@),
        Message::MediaModePicked(v) => e is Nothing && t == GuiState {
            settings: Settings { media_mode: v, ..s.settings },
            ..s
        },
        Message::VideoQualityPicked(v) => e is Nothing && t == GuiState {
            settings: Settings { video_quality: v, ..s.settings },
            ..s
        },
        Message::VideoContainerPicked(v) => e is Nothing && t == GuiState {
            settings: Settings { video_container: v, ..s.settings },
            ..s
        },
        Message::AudioFormatPicked(v) => e is Nothing && t == GuiState {
            settings: Settings { audio_format: v, ..s.settings },
            ..s
        },
        Message::SaveSettingsPressed => e is SaveSettings && t == s,
        Message::DownloadEvent(ev) => {
            &&& t == GuiState { queue: Queue { items: t.queue.items, batch_done: t.queue.batch_done, ..s.queue }, history: t.history, ..s }
            &&& exists|r: bool|
                event_applied(
                    s.queue.items@,
                    s.queue.batch_done,
                    ev,
                    t.queue.items@,
                    t.queue.batch_done,
                    r,
                )
            &&& e is Nothing || e is RecordHistory
            &&& e is RecordHistory == (!s.queue.batch_done && completes_batch(t.queue.items@, ev)
                && s.list.playlist is Some && recorded_videos(t.queue.items@).len() > 0)
            &&& e is Nothing ==> t.history == s.history
            &&& e matches Effect::RecordHistory(h) ==> {
                &&& t.queue.batch_done && !s.queue.batch_done
                &&& t.history == HistoryView { entries: t.history.entries, ..s.history }
                &&& t.history.entries@.len() == s.history.entries@.len() + 1
                &&& t.history.entries@.skip(1) == s.history.entries@
                &&& same_entry(t.history.entries@[0], h)
                &&& s.list.playlist matches Some(p) && h.title == p.title && h.source_url
                    == p.source_url && h.uploader == p.uploader && h.is_playlist == p.is_playlist
                    && h.videos@ == recorded_videos(t.queue.items@)
            }
        },
        Message::PauseItem(i) => t == s && e == Effect::PauseItem(i),
        Message::ResumeItem(i) => t == s && e == Effect::ResumeItem(i),
        Message::CancelItem(i) => t == s && e == Effect::CancelItem(i),
        Message::CancelAllPressed => t == s && e is CancelAll,
        Message::ToggleItemDetails(i) => {
            &&& e is Nothing
            &&& t == GuiState {
                queue: Queue { expanded_items: t.queue.expanded_items, ..s.queue },
                ..s
            }
            &&& forall|x: usize|
                #[trigger] t.queue.expanded_items@.contains(x) == if x == i {
                    !s.queue.expanded_items@.contains(x)
                } else {
                    s.queue.expanded_items@.contains(x)
                }
        },
        Message::BackToVideoList => e is Nothing && t == GuiState {
            screen: Screen::VideoList,
            ..s
        },
        Message::StartOverPressed => {
            &&& e is ForgetBatch
            &&& t == GuiState {
                screen: Screen::UrlInput,
                list: VideoList { playlist: None, selected: t.list.selected, filter: t.list.filter },
                queue: Queue {
                    items: t.queue.items,
                    expanded_items: t.queue.expanded_items,
                    batch_done: false,
                },
                url: UrlEntry { url_input: t.url.url_input, ..s.url },
                ..s
            }
            &&& t.list.selected@.len() == 0
            &&& t.list.filter@.len() == 0
            &&& t.queue.items@.len() == 0
            &&& t.queue.expanded_items@.len() == 0
            &&& t.url.url_input@.len() == 0
        },
        Message::OpenHistoryEntry(i) => {
            let single = single_at(s.history.entries@, Some(i));
            e is Nothing && t == GuiState {
                history: HistoryView {
                    open: Some(i),
                    video_open: if single {
                        Some(0)
                    } else {
                        None
                    },
                    ..s.history
                },
                screen: if single {
                    Screen::HistoryVideoDetail
                } else {
                    Screen::HistoryPlaylist
                },
                ..s
            }
        },
        Message::OpenHistoryVideo(i) => e is Nothing && t == GuiState {
            history: HistoryView { video_open: Some(i), ..s.history },
            screen: Screen::HistoryVideoDetail,
            ..s
        },
        Message::BackFromHistoryPlaylist => e is Nothing && t == GuiState {
            history: HistoryView { open: None, ..s.history },
            screen: Screen::UrlInput,
            ..s
        },
        Message::BackFromHistoryVideoDetail => e is Nothing && if single_at(
            s.history.entries@,
            s.history.open,
        ) {
            t == GuiState {
                history: HistoryView { open: None, ..s.history },
                screen: Screen::UrlInput,
                ..s
            }
        } else {
            t == GuiState {
                history: HistoryView { video_open: None, ..s.history },
                screen: Screen::HistoryPlaylist,
                ..s
            }
        },
    }
}

impl GuiState {
    /// The state at startup: the Download tab's URL box (pre-filled with a
    /// command-line URL), tools not checked yet, the given history.
    pub fn new(settings: Settings, initial_url: Option<String>, history: Vec<HistoryEntry>) -> (r:
        Self)
        ensures
            r.settings == settings,
            r.screen == Screen::UrlInput,
            !r.tools_checked,
            r.binary_status.ytdlp is None,
            r.status is None,
            r.url.url_input@ == match initial_url {
                Some(u) => u@,
                None => Seq::<char>::empty(),
            },
            r.url.initial_url == initial_url,
            !r.url.fetching,
            r.list.playlist is None,
            r.list.selected@.len() == 0,
            r.queue.items@.len() == 0,
            !r.queue.batch_done,
            r.history.entries == history,
            r.history.open is None,
            r.update_status is Idle,
    {
        let url_input = match &initial_url {
            Some(u) => u.clone(),
            None => String::new(),
        };
        GuiState {
            settings,
            binary_status: BinaryStatus {
                ytdlp: None,
                ytdlp_version: None,
                ffmpeg_path: None,
                js_runtime: None,
            },
            tools_checked: false,
            screen: Screen::UrlInput,
            status: None,
            settings_saved_flash: false,
            show_settings: false,
            url: UrlEntry { url_input, fetching: false, pending_url: String::new(), initial_url },
            list: VideoList { playlist: None, selected: Vec::new(), filter: String::new() },
            queue: Queue { items: Vec::new(), expanded_items: Vec::new(), batch_done: false },
            history: HistoryView { entries: history, open: None, video_open: None },
            update_status: UpdateStatus::Idle,
            windows: target_is_windows(),
        }
    }

    pub fn set_status(&mut self, text: String, kind: StatusKind)
        ensures
            status_set(*old(self), *final(self), text@, kind),
    {
        self.status = Some(StatusMessage { text, kind });
    }

    /// Switches to `tab`'s home screen; re-selecting a tab you are already
    /// mid-flow on resets to its start. Selecting Settings clears the
    /// "saved" flash.
    pub fn switch_tab(&mut self, tab: Tab)
        ensures
            *final(self) == (GuiState {
                screen: tab.spec_home_screen(),
                settings_saved_flash: old(self).settings_saved_flash && tab != Tab::Settings,
                ..*old(self)
            }),
    {
        if tab == Tab::Settings {
            self.settings_saved_flash = false;
        }
        self.screen = tab.home_screen();
    }

    /// Indices of the playlist's videos matching the filter.
    pub fn filtered_video_indices(&self) -> (r: Vec<usize>)
        ensures
            r@ == filtered_of(self.list),
    {
        filtered_video_indices(self.list.playlist.as_ref(), self.list.filter.as_str())
    }

    pub fn toggle_selected(&mut self, index: usize)
        ensures
            selection_changed(*old(self), *final(self)),
            final(self).list.selected@ == spec_toggle(old(self).list.selected@, index as int),
    {
        toggle_selected(&mut self.list.selected, index);
    }

    /// Selects (or deselects) every video the filter shows.
    pub fn set_filtered_selection(&mut self, value: bool)
        ensures
            selection_changed(*old(self), *final(self)),
            final(self).list.selected@ == spec_set_at(
                old(self).list.selected@,
                filtered_of(old(self).list),
                value,
            ),
    {
        let indices = self.filtered_video_indices();
        set_selection_at(&mut self.list.selected, &indices, value);
    }

    /// Flips the selection of every video the filter shows.
    pub fn invert_filtered_selection(&mut self)
        ensures
            selection_changed(*old(self), *final(self)),
            final(self).list.selected@ == spec_invert_at(
                old(self).list.selected@,
                filtered_of(old(self).list),
            ),
    {
        let indices = self.filtered_video_indices();
        invert_selection_at(&mut self.list.selected, &indices);
    }

    pub fn selected_count(&self) -> (r: usize)
        ensures
            r == count_true(self.list.selected@),
    {
        selected_count(&self.list.selected)
    }

    /// The history entry currently open, if any.
    pub fn current_history_entry(&self) -> (r: Option<&HistoryEntry>)
        ensures
            r == match self.history.open {
                Some(i) => if i < self.history.entries@.len() {
                    Some(&self.history.entries@[i as int])
                } else {
                    None
                },
                None => None,
            },
    {
        match self.history.open {
            Some(i) => if i < self.history.entries.len() {
                Some(&self.history.entries[i])
            } else {
                None
            },
            None => None,
        }
    }

    /// The video open within the open history entry, if any.
    pub fn current_history_video(&self) -> (r: Option<&HistoryVideoEntry>)
        ensures
            r == match (self.history.open, self.history.video_open) {
                (Some(i), Some(j)) => if i < self.history.entries@.len() && j
                    < self.history.entries@[i as int].videos@.len() {
                    Some(&self.history.entries@[i as int].videos@[j as int])
                } else {
                    None
                },
                _ => None,
            },
    {
        let e = match self.current_history_entry() {
            Some(e) => e,
            None => return None,
        };
        match self.history.video_open {
            Some(j) => if j < e.videos.len() {
                Some(&e.videos[j])
            } else {
                None
            },
            None => None,
        }
    }

    /// The binaries a batch runs with: the found yt-dlp, ffmpeg and JS
    /// runtime.
    pub fn binary_paths(&self) -> (r: Option<BinaryPaths>)
        ensures
            r is Some == self.binary_status.ytdlp is Some,
            r matches Some(b) ==> paths_from(b, self.binary_status),
    {
        binary_paths_of(&self.binary_status)
    }

    fn missing_ytdlp(&mut self)
        ensures
            status_set(*old(self), *final(self), MISSING_YTDLP(), StatusKind::Error),
    {
        let text = String::from_str("yt-dlp runtime not found -- reinstall the app (see README)");
        assert(text@ == MISSING_YTDLP());
        self.set_status(text, StatusKind::Error);
    }

    /// Starts resolving `url` (or reports that yt-dlp is missing).
    fn begin_fetch(&mut self, url: String) -> (e: Effect)
        ensures
            old(self).binary_status.ytdlp is None ==> e is Nothing && status_set(
                *old(self),
                *final(self),
                MISSING_YTDLP(),
                StatusKind::Error,
            ),
            old(self).binary_status.ytdlp is Some ==> fetch_started(
                *old(self),
                *final(self),
                url@,
                e,
            ),
    {
        let ytdlp = match &self.binary_status.ytdlp {
            Some(y) => y.clone(),
            None => {
                self.missing_ytdlp();
                return Effect::Nothing;
            },
        };
        let settings = self.settings.clone();
        let js_runtime = match &self.binary_status.js_runtime {
            Some(js) => Some(js.clone()),
            None => None,
        };
        self.url.pending_url = url.clone();
        self.url.fetching = true;
        self.status = None;
        Effect::Fetch(FetchRequest { url, settings, ytdlp, js_runtime })
    }

    /// The outcome of creating a batch's directories: on failure, an error
    /// status (`output` tells the output directory from the archive's);
    /// on success the queue is set up for `batch`'s videos and the
    /// Downloading screen shown -- the batch itself is started outside.
    pub fn on_batch_dirs(&mut self, batch: &Batch, result: Result<(), (bool, String)>)
        ensures
            match result {
                Err((output, e)) => status_set(
                    *old(self),
                    *final(self),
                    (if output {
                        "Could not create output directory: "@
                    } else {
                        "Could not create archive directory: "@
                    }) + e@,
                    StatusKind::Error,
                ),
                Ok(()) => {
                    &&& *final(self) == (GuiState {
                        screen: Screen::Downloading,
                        queue: Queue {
                            items: final(self).queue.items,
                            expanded_items: final(self).queue.expanded_items,
                            batch_done: false,
                        },
                        ..*old(self)
                    })
                    &&& final(self).queue.items@.len() == batch.videos@.len()
                    &&& forall|i: int|
                        0 <= i < batch.videos@.len() ==> (#[trigger] final(self).queue.items@[i]).video
                            == batch.videos@[i] && final(self).queue.items@[i].state is Queued
                            && final(self).queue.items@[i].log@.len() == 0
                            && final(self).queue.items@[i].last_progress is None
                    &&& final(self).queue.expanded_items@.len() == 0
                },
            },
    {
        match result {
            Err((output, e)) => {
                let head = if output {
                    "Could not create output directory: "
                } else {
                    "Could not create archive directory: "
                };
                self.set_status(concat(head, e.as_str()), StatusKind::Error);
            },
            Ok(()) => {
                self.queue.items = new_items(&batch.videos);
                self.queue.expanded_items = Vec::new();
                self.queue.batch_done = false;
                self.screen = Screen::Downloading;
            },
        }
    }

    /// The outcome of saving the settings.
    pub fn on_settings_saved(&mut self, result: Result<(), String>)
        ensures
            match result {
                Ok(()) => status_set(
                    GuiState { settings_saved_flash: true, ..*old(self) },
                    *final(self),
                    "Settings saved"@,
                    StatusKind::Info,
                ),
                Err(e) => status_set(
                    *old(self),
                    *final(self),
                    "Could not save settings: "@ + e@,
                    StatusKind::Error,
                ),
            },
    {
        match result {
            Ok(()) => {
                self.settings_saved_flash = true;
                let text = String::from_str("Settings saved");
                assert(text@ == "Settings saved"@);
                self.set_status(text, StatusKind::Info);
            },
            Err(e) => {
                self.set_status(concat("Could not save settings: ", e.as_str()), StatusKind::Error);
            },
        }
    }

    /// Writing the history file failed.
    pub fn on_history_save_failed(&mut self, error: &str)
        ensures
            status_set(
                *old(self),
                *final(self),
                "Could not save download history: "@ + error@,
                StatusKind::Error,
            ),
    {
        self.set_status(concat("Could not save download history: ", error), StatusKind::Error);
    }

    /// Folds a queue event into the rows; when it completes the batch, the
    /// batch goes to the front of the history (if it recorded anything) and
    /// is handed out to be written to the history file.
    fn apply_download_event(&mut self, event: DownloadEvent) -> (e: Effect)
        ensures
            update_spec(*old(self), Message::DownloadEvent(event), *final(self), e),
    {
        proof {
            reveal(update_spec);
        }
        let ghost ev = event;
        let completed = apply_event(&mut self.queue.items, &mut self.queue.batch_done, event);
        if !completed {
            return Effect::Nothing;
        }
        let playlist = match &self.list.playlist {
            Some(p) => p,
            None => return Effect::Nothing,
        };
        let entry = match HistoryEntry::from_batch(playlist, self.queue.items.as_slice()) {
            Some(e) => e,
            None => return Effect::Nothing,
        };
        let copy = entry.clone();
        self.history.entries.insert(0, entry);
        proof {
            assert(self.history.entries@.skip(1) =~= old(self).history.entries@);
        }
        Effect::RecordHistory(copy)
    }

    /// Flips whether a queue row shows its raw log.
    fn toggle_item_details(&mut self, index: usize)
        ensures
            *final(self) == (GuiState {
                queue: Queue { expanded_items: final(self).queue.expanded_items, ..old(self).queue },
                ..*old(self)
            }),
            forall|x: usize|
                #[trigger] final(self).queue.expanded_items@.contains(x) == if x == index {
                    !old(self).queue.expanded_items@.contains(x)
                } else {
                    old(self).queue.expanded_items@.contains(x)
                },
    {
        let ghost before = self.queue.expanded_items@;
        let mut kept: Vec<usize> = Vec::new();
        let mut found = false;
        let mut i: usize = 0;
        while i < self.queue.expanded_items.len()
            invariant
                i <= before.len(),
                self.queue.expanded_items@ == before,
                found == before.take(i as int).contains(index),
                forall|x: usize|
                    #[trigger] kept@.contains(x) == (x != index && before.take(i as int).contains(x)),
            decreases before.len() - i,
        {
            let x = self.queue.expanded_items[i];
            let ghost prefix = before.take(i as int);
            let ghost kb = kept@;
            assert(before.take(i + 1) =~= prefix.push(x));
            assert forall|y: usize| #[trigger] before.take(i + 1).contains(y) == (prefix.contains(y)
                || y == x) by {
                vstd::seq_lib::lemma_seq_contains_after_push(prefix, x, y);
            }
            if x != index {
                kept.push(x);
                assert forall|y: usize| #[trigger] kept@.contains(y) == (kb.contains(y) || y == x) by {
                    vstd::seq_lib::lemma_seq_contains_after_push(kb, x, y);
                }
            } else {
                found = true;
            }
            i = i + 1;
        }
        assert(before.take(before.len() as int) =~= before);
        if !found {
            let ghost kb = kept@;
            kept.push(index);
            assert forall|y: usize| #[trigger] kept@.contains(y) == (kb.contains(y) || y == index) by {
                vstd::seq_lib::lemma_seq_contains_after_push(kb, index, y);
            }
        }
        self.queue.expanded_items = kept;
    }

    fn tools_checked(&mut self, status: BinaryStatus) -> (e: Effect)
        ensures
            update_spec(*old(self), Message::ToolsChecked(status), *final(self), e),
    {
        proof {
            reveal(update_spec);
        }
        self.binary_status = status;
        self.tools_checked = true;
        let ready = self.binary_status.ready();
        let initial = self.url.initial_url.take();
        if !ready {
            self.missing_ytdlp();
            return Effect::Nothing;
        }
        match initial {
            Some(url) => self.begin_fetch(url),
            None => Effect::Nothing,
        }
    }

    fn fetch_pressed(&mut self) -> (e: Effect)
        ensures
            update_spec(*old(self), Message::FetchPressed, *final(self), e),
    {
        proof {
            reveal(update_spec);
        }
        let url = trim_str(self.url.url_input.as_str());
        if crate::text::chars_of(url.as_str()).len() == 0 {
            let text = String::from_str("Enter a playlist or video URL first");
            assert(text@ == "Enter a playlist or video URL first"@);
            self.set_status(text, StatusKind::Error);
            return Effect::Nothing;
        }
        if !self.binary_status.ready() {
            self.missing_ytdlp();
            return Effect::Nothing;
        }
        self.begin_fetch(url)
    }

    fn fetch_completed(&mut self, result: Result<PlaylistInfo, String>) -> (e: Effect)
        ensures
            update_spec(*old(self), Message::FetchCompleted(result), *final(self), e),
    {
        proof {
            reveal(update_spec);
        }
        match result {
            Ok(playlist) => {
                self.list.selected = select_all(playlist.videos.len());
                self.list.playlist = Some(playlist);
                self.list.filter = String::new();
                self.url.fetching = false;
                self.screen = Screen::VideoList;
                Effect::Nothing
            },
            Err(message) => {
                self.url.fetching = false;
                self.set_status(concat("Failed to resolve URL: ", message.as_str()), StatusKind::Error);
                Effect::Nothing
            },
        }
    }

    fn start_downloads(&mut self) -> (e: Effect)
        ensures
            update_spec(*old(self), Message::StartDownloadsPressed, *final(self), e),
    {
        proof {
            reveal(update_spec);
        }
        let ready = self.binary_status.ready();
        match prepare_batch(
            ready,
            self.list.playlist.as_ref(),
            &self.list.selected,
            &self.settings,
            self.windows,
        ) {
            Err(BatchError::NoYtDlp) => {
                self.missing_ytdlp();
                Effect::Nothing
            },
            Err(BatchError::NothingSelected) => {
                let text = String::from_str("Select at least one video first");
                assert(text@ == "Select at least one video first"@);
                self.set_status(text, StatusKind::Error);
                Effect::Nothing
            },
            Ok(None) => Effect::Nothing,
            Ok(Some(batch)) => Effect::PrepareBatch(batch),
        }
    }

    fn start_over(&mut self) -> (e: Effect)
        ensures
            update_spec(*old(self), Message::StartOverPressed, *final(self), e),
    {
        proof {
            reveal(update_spec);
        }
        self.screen = Screen::UrlInput;
        self.list.playlist = None;
        self.list.selected = Vec::new();
        self.list.filter = String::new();
        self.queue.items = Vec::new();
        self.queue.batch_done = false;
        self.queue.expanded_items = Vec::new();
        self.url.url_input = String::new();
        Effect::ForgetBatch
    }

    fn open_history_entry(&mut self, index: usize) -> (e: Effect)
        ensures
            update_spec(*old(self), Message::OpenHistoryEntry(index), *final(self), e),
    {
        proof {
            reveal(update_spec);
        }
        self.history.open = Some(index);
        self.history.video_open = None;
        let single = index < self.history.entries.len() && self.history.entries[index].is_single_video();
        if single {
            self.history.video_open = Some(0);
            self.screen = Screen::HistoryVideoDetail;
        } else {
            self.screen = Screen::HistoryPlaylist;
        }
        Effect::Nothing
    }

    fn back_from_history_video_detail(&mut self) -> (e: Effect)
        ensures
            update_spec(*old(self), Message::BackFromHistoryVideoDetail, *final(self), e),
    {
        proof {
            reveal(update_spec);
        }
        let single = match self.current_history_entry() {
            Some(entry) => entry.is_single_video(),
            None => false,
        };
        if single {
            self.history.open = None;
            self.screen = Screen::UrlInput;
        } else {
            self.history.video_open = None;
            self.screen = Screen::HistoryPlaylist;
        }
        Effect::Nothing
    }

    fn update_fetching(&mut self, message: Message) -> (e: Effect)
        requires
            message_group(message) == 0,
        ensures
            update_spec(*old(self), message, *final(self), e),
    {
        match message {
            Message::ToolsChecked(status) => self.tools_checked(status),
            Message::UrlChanged(value) => {
                proof {
                    reveal(update_spec);
                }
                self.url.url_input = value;
                Effect::Nothing
            },
            Message::FetchPressed => self.fetch_pressed(),
            Message::FetchCompleted(result) => self.fetch_completed(result),
            _ => Effect::Nothing,
        }
    }

    fn update_list(&mut self, message: Message) -> (e: Effect)
        requires
            message_group(message) == 1,
            !(message is StartDownloadsPressed),
        ensures
            update_spec(*old(self), message, *final(self), e),
    {
        proof {
            reveal(update_spec);
        }
        match message {
            Message::ToggleVideo(index) => {
                self.toggle_selected(index);
                Effect::Nothing
            },
            Message::SelectAll => {
                self.set_filtered_selection(true);
                Effect::Nothing
            },
            Message::SelectNone => {
                self.set_filtered_selection(false);
                Effect::Nothing
            },
            Message::InvertSelection => {
                self.invert_filtered_selection();
                Effect::Nothing
            },
            Message::FilterChanged(value) => {
                self.list.filter = value;
                Effect::Nothing
            },
            Message::BackToUrlInput => {
                self.list.playlist = None;
                self.list.selected = Vec::new();
                self.list.filter = String::new();
                self.screen = Screen::UrlInput;
                Effect::Nothing
            },
            _ => Effect::Nothing,
        }
    }

    #[verifier::rlimit(90)]
    fn update_settings(&mut self, message: Message) -> (e: Effect)
        requires
            message_group(message) == 2,
        ensures
            update_spec(*old(self), message, *final(self), e),
    {
        proof {
            reveal(update_spec);
        }
        match message {
            Message::OpenSettings => {
                self.show_settings = true;
                self.settings_saved_flash = false;
                Effect::Nothing
            },
            Message::CloseSettings => {
                self.show_settings = false;
                Effect::Nothing
            },
            Message::SettingsToggled(field) => {
                field.toggle(&mut self.settings);
                Effect::Nothing
            },
            Message::SettingsTextChanged(field, value) => {
                field.set_text_value(&mut self.settings, value.as_str());
                Effect::Nothing
            },
            Message::MediaModePicked(v) => {
                self.settings.media_mode = v;
                Effect::Nothing
            },
            Message::VideoQualityPicked(v) => {
                self.settings.video_quality = v;
                Effect::Nothing
            },
            Message::VideoContainerPicked(v) => {
                self.settings.video_container = v;
                Effect::Nothing
            },
            Message::AudioFormatPicked(v) => {
                self.settings.audio_format = v;
                Effect::Nothing
            },
            Message::SaveSettingsPressed => Effect::SaveSettings,
            _ => Effect::Nothing,
        }
    }

    fn update_queue(&mut self, message: Message) -> (e: Effect)
        requires
            message_group(message) == 3,
        ensures
            update_spec(*old(self), message, *final(self), e),
    {
        match message {
            Message::DownloadEvent(event) => self.apply_download_event(event),
            Message::PauseItem(index) => {
                proof {
                    reveal(update_spec);
                }
                Effect::PauseItem(index)
            },
            Message::ResumeItem(index) => {
                proof {
                    reveal(update_spec);
                }
                Effect::ResumeItem(index)
            },
            Message::CancelItem(index) => {
                proof {
                    reveal(update_spec);
                }
                Effect::CancelItem(index)
            },
            Message::CancelAllPressed => {
                proof {
                    reveal(update_spec);
                }
                Effect::CancelAll
            },
            Message::ToggleItemDetails(index) => {
                proof {
                    reveal(update_spec);
                }
                self.toggle_item_details(index);
                Effect::Nothing
            },
            Message::BackToVideoList => {
                proof {
                    reveal(update_spec);
                }
                self.screen = Screen::VideoList;
                Effect::Nothing
            },
            Message::StartOverPressed => self.start_over(),
            _ => Effect::Nothing,
        }
    }

    fn update_history(&mut self, message: Message) -> (e: Effect)
        requires
            message_group(message) == 4,
        ensures
            update_spec(*old(self), message, *final(self), e),
    {
        match message {
            Message::OpenHistoryEntry(index) => self.open_history_entry(index),
            Message::OpenHistoryVideo(index) => {
                proof {
                    reveal(update_spec);
                }
                self.history.video_open = Some(index);
                self.screen = Screen::HistoryVideoDetail;
                Effect::Nothing
            },
            Message::BackFromHistoryPlaylist => {
                proof {
                    reveal(update_spec);
                }
                self.history.open = None;
                self.screen = Screen::UrlInput;
                Effect::Nothing
            },
            Message::BackFromHistoryVideoDetail => self.back_from_history_video_detail(),
            _ => Effect::Nothing,
        }
    }

    /// Handles one message: the state changes as `update_spec` describes,
    /// and the returned effect is the outside work to start.
    pub fn update(&mut self, message: Message) -> (e: Effect)
        ensures
            update_spec(*old(self), message, *final(self), e),
    {
        let group = group_of(&message);
        if group == 0 {
            self.update_fetching(message)
        } else if group == 1 {
            if matches!(message, Message::StartDownloadsPressed) {
                self.start_downloads()
            } else {
                self.update_list(message)
            }
        } else if group == 2 {
            self.update_settings(message)
        } else if group == 3 {
            self.update_queue(message)
        } else {
            self.update_history(message)
        }
    }
}

/// Which part of the window a message is about: fetching (0), the video
/// list (1), settings (2), the queue (3) or the history (4).
pub open spec fn message_group(m: Message) -> nat {
    match m {
        Message::ToolsChecked(_) | Message::UrlChanged(_) | Message::FetchPressed
        | Message::FetchCompleted(_) => 0,
        Message::ToggleVideo(_) | Message::SelectAll | Message::SelectNone
        | Message::InvertSelection | Message::FilterChanged(_) | Message::BackToUrlInput
        | Message::StartDownloadsPressed => 1,
        Message::OpenSettings | Message::CloseSettings | Message::SettingsToggled(_)
        | Message::SettingsTextChanged(_, _) | Message::MediaModePicked(_)
        | Message::VideoQualityPicked(_) | Message::VideoContainerPicked(_)
        | Message::AudioFormatPicked(_) | Message::SaveSettingsPressed => 2,
        Message::DownloadEvent(_) | Message::PauseItem(_) | Message::ResumeItem(_)
        | Message::CancelItem(_) | Message::CancelAllPressed | Message::ToggleItemDetails(_)
        | Message::BackToVideoList | Message::StartOverPressed => 3,
        Message::OpenHistoryEntry(_) | Message::OpenHistoryVideo(_)
        | Message::BackFromHistoryPlaylist | Message::BackFromHistoryVideoDetail => 4,
    }
}

fn group_of(m: &Message) -> (r: u8)
    ensures
        r == message_group(*m),
{
    match m {
        Message::ToolsChecked(_) | Message::UrlChanged(_) | Message::FetchPressed
        | Message::FetchCompleted(_) => 0,
        Message::ToggleVideo(_) | Message::SelectAll | Message::SelectNone
        | Message::InvertSelection | Message::FilterChanged(_) | Message::BackToUrlInput
        | Message::StartDownloadsPressed => 1,
        Message::OpenSettings | Message::CloseSettings | Message::SettingsToggled(_)
        | Message::SettingsTextChanged(_, _) | Message::MediaModePicked(_)
        | Message::VideoQualityPicked(_) | Message::VideoContainerPicked(_)
        | Message::AudioFormatPicked(_) | Message::SaveSettingsPressed => 2,
        Message::DownloadEvent(_) | Message::PauseItem(_) | Message::ResumeItem(_)
        | Message::CancelItem(_) | Message::CancelAllPressed | Message::ToggleItemDetails(_)
        | Message::BackToVideoList | Message::StartOverPressed => 3,
        Message::OpenHistoryEntry(_) | Message::OpenHistoryVideo(_)
        | Message::BackFromHistoryPlaylist | Message::BackFromHistoryVideoDetail => 4,
    }
}

} // verus!
