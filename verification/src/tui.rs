//! The terminal UI's state machine: everything needed to render the
//! current screen and react to input. The terminal, the text-input widgets
//! and the background tasks live outside the library: `App::handle_key`
//! takes a key press and returns the outside work to do (an `Action`), and
//! the `on_*` methods take background results back.

use vstd::prelude::*;

use crate::config::Settings;
use crate::downloader::{BinaryPaths, DownloadEvent, binary_paths_of, paths_from};
use crate::gui::FetchRequest;
use crate::history::{HistoryEntry, HistoryVideoEntry, recorded_videos};
use crate::models::{DownloadItem, PlaylistInfo};
use crate::session::{
    completes_batch,
    Batch, BatchError, MISSING_YTDLP, apply_event, count_true, event_applied, filtered_video_indices,
    invert_selection_at, new_items, prepare_batch, select_all, selected_count, set_selection_at,
    spec_batch_settings, spec_filtered, spec_invert_at, spec_selected_videos, spec_set_at, spec_toggle,
    toggle_selected,
};
use crate::paths::target_is_windows;
use crate::settings_fields::{FieldKind, SettingsField};
use crate::text::{concat, trim, trim_str};
use crate::ytdlp::BinaryStatus;

verus! {

#[derive(Debug, Clone, Copy, PartialEq, Eq, Structural)]
pub enum Screen {
    UrlInput,
    Fetching,
    VideoList,
    Settings,
    Downloading,
    /// Drilled into one playlist/channel history entry, showing its videos.
    HistoryPlaylist,
    /// One video's recorded outcome.
    HistoryVideoDetail,
}

#[derive(Debug, Clone, Copy, PartialEq, Eq, Structural)]
pub enum MessageKind {
    Info,
    Error,
}

#[derive(Debug)]
pub struct StatusMessage {
    pub text: String,
    pub kind: MessageKind,
}

/// Which screen a Settings visit was entered from, so leaving returns the
/// user to the right place.
#[derive(Debug, Clone, Copy, PartialEq, Eq, Structural)]
pub enum SettingsOrigin {
    UrlInput,
    VideoList,
}

#[derive(Debug, Clone, Copy, PartialEq, Eq, Structural)]
pub enum FieldAction {
    Activate,
    Left,
    Right,
}

/// A key, as far as the screens tell keys apart.
#[derive(Debug, Clone, Copy, PartialEq, Eq, Structural)]
pub enum Key {
    Char(char),
    F(u8),
    Enter,
    Esc,
    Up,
    Down,
    Left,
    Right,
    Home,
    End,
    /// Any other key (it may still edit the focused text box).
    Other,
}

/// One key event.
#[derive(Debug, Clone, Copy, PartialEq, Eq, Structural)]
pub struct KeyPress {
    pub key: Key,
    pub ctrl: bool,
    /// A key release (only presses and repeats do anything).
    pub release: bool,
}

/// The URL box and the fetch it starts.
#[derive(Debug)]
pub struct UrlScreen {
    /// The URL box's text.
    pub url_input: String,
    pub pending_url: String,
    /// A fetch is running.
    pub fetching: bool,
    pub spinner_frame: usize,
}

/// Recent download batches, newest first, and which one is open.
#[derive(Debug)]
pub struct HistoryBrowser {
    pub entries: Vec<HistoryEntry>,
    /// Whether Up/Down/Enter act on the history list rather than the URL
    /// box.
    pub focused: bool,
    pub cursor: usize,
    pub open: Option<usize>,
    pub video_cursor: usize,
}

/// The resolved playlist with its selection, cursor and filter.
#[derive(Debug)]
pub struct ListScreen {
    pub playlist: Option<PlaylistInfo>,
    pub selected: Vec<bool>,
    pub cursor: usize,
    pub filtering: bool,
    /// The filter box's text.
    pub filter: String,
}

/// The settings screen: where it was entered from, which field the cursor
/// is on, and the text being edited.
#[derive(Debug)]
pub struct SettingsScreen {
    pub origin: SettingsOrigin,
    pub cursor: usize,
    pub editing: bool,
    /// The edit box's text.
    pub edit_value: String,
}

/// The download queue's rows and cursor.
#[derive(Debug)]
pub struct QueueScreen {
    pub items: Vec<DownloadItem>,
    pub cursor: usize,
    pub batch_done: bool,
}

#[derive(Debug)]
pub struct App {
    pub settings: Settings,
    pub binary_status: BinaryStatus,
    pub screen: Screen,
    pub should_quit: bool,
    pub show_help: bool,
    pub status: Option<StatusMessage>,
    pub url: UrlScreen,
    pub history: HistoryBrowser,
    pub list: ListScreen,
    pub settings_ui: SettingsScreen,
    pub queue: QueueScreen,
    /// Whether paths are joined the Windows way (the platform the library
    /// was built for).
    pub windows: bool,
}

/// Outside work a key press or a result asks for.
#[derive(Debug)]
pub enum Action {
    Nothing,
    /// Resolve a URL; the result goes to `on_fetch_result`.
    Fetch(FetchRequest),
    /// Forget the running fetch.
    DropFetch,
    /// Pass the key on to the URL box, then copy its text to `url_input`.
    FeedUrlInput,
    /// Pass the key on to the filter box, then copy its text to `filter`.
    FeedFilterInput,
    /// Empty the filter box.
    ClearFilterInput,
    /// Pass the key on to the edit box, then copy its text to `edit_value`.
    FeedEditInput,
    /// Put this text in the edit box.
    SetEditInput(String),
    /// Create the batch's directories, then call `on_batch_dirs`.
    PrepareBatch(Batch),
    /// Write the settings; the result goes to `on_settings_saved`.
    SaveSettings,
    CancelItem(usize),
    CancelAll,
    /// The running batch's channel is gone; drop its handle.
    ForgetBatch,
    /// Append the finished batch to the history file; a failure goes to
    /// `on_history_save_failed`.
    RecordHistory(HistoryEntry),
}

pub open spec fn status_is(s: Option<StatusMessage>, text: Seq<char>, kind: MessageKind) -> bool {
    s matches Some(m) && m.text@ == text && m.kind == kind
}

/// `t` is `s` with only the status changed, to `text` of kind `kind`.
pub open spec fn status_set(s: App, t: App, text: Seq<char>, kind: MessageKind) -> bool {
    t == App { status: t.status, ..s } && status_is(t.status, text, kind)
}

/// Starting a fetch of `url` from `s`: without yt-dlp an error status and
/// nothing else; otherwise the Fetching screen, the URL pending, and the
/// fetch requested with a copy of the settings and tools.
pub open spec fn fetch_begun(s: App, t: App, url: Seq<char>, a: Action) -> bool {
    if s.binary_status.ytdlp is None {
        a is Nothing && status_set(s, t, MISSING_YTDLP(), MessageKind::Error)
    } else {
        &&& t == App {
            url: UrlScreen { pending_url: t.url.pending_url, fetching: true, ..s.url },
            screen: Screen::Fetching,
            ..s
        }
        &&& t.url.pending_url@ == url
        &&& a matches Action::Fetch(req) && req.url@ == url && req.settings@ == s.settings@
            && s.binary_status.ytdlp == Some(req.ytdlp)
    }
}

pub open spec fn filtered_of(l: ListScreen) -> Seq<usize> {
    spec_filtered(l.playlist, l.filter@)
}

/// `t` is `s` with only the selection changed.
pub open spec fn selection_changed(s: App, t: App) -> bool {
    t == App { list: ListScreen { selected: t.list.selected, ..s.list }, ..s }
}

/// `n - 1`, or 0 for 0.
pub open spec fn last_index(n: nat) -> usize {
    if n == 0 {
        0
    } else {
        (n - 1) as usize
    }
}

/// The cursor one step down, never past `max`.
pub open spec fn step_down(cursor: usize, max: usize) -> usize {
    if cursor < max {
        (cursor + 1) as usize
    } else {
        max
    }
}

/// The cursor one step up, never below 0.
pub open spec fn step_up(cursor: usize) -> usize {
    if cursor > 0 {
        (cursor - 1) as usize
    } else {
        0
    }
}

pub open spec fn is_char(k: Key, c: char) -> bool {
    k == Key::Char(c)
}

/// The settings after a field action: activating a toggle field flips it,
/// Left/Right cycle a cycle field backwards/forwards; anything else does
/// nothing.
pub open spec fn spec_field_action(s: crate::config::SettingsModel, f: SettingsField, a: FieldAction) -> crate::config::SettingsModel {
    match (f.spec_kind(), a) {
        (FieldKind::Toggle, FieldAction::Activate) => f.spec_toggle(s),
        (FieldKind::Cycle, FieldAction::Left) => f.spec_cycle(s, -1i32),
        (FieldKind::Cycle, FieldAction::Right) => f.spec_cycle(s, 1i32),
        _ => s,
    }
}

/// The well-formedness the screens keep: the settings cursor is on a
/// field.
pub open spec fn app_wf(s: App) -> bool {
    s.settings_ui.cursor < 24
}

/// The field under the settings cursor.
pub open spec fn current_field_of(s: App) -> SettingsField {
    SettingsField::ALL@[s.settings_ui.cursor as int]
}

/// What a key does on the URL screen.
pub open spec fn url_key_spec(s: App, k: Key, t: App, a: Action) -> bool {
    if k == Key::Enter {
        let url = trim(s.url.url_input@);
        if url.len() == 0 {
            a is Nothing && status_set(s, t, "Enter a playlist or video URL first"@, MessageKind::Error)
        } else if s.binary_status.ytdlp is None {
            a is Nothing && status_set(
                s,
                t,
                "yt-dlp was not found on PATH -- install it before fetching"@,
                MessageKind::Error,
            )
        } else {
            fetch_begun(s, t, url, a)
        }
    } else if k == Key::F(2) {
        a is Nothing && t == App {
            settings_ui: SettingsScreen { origin: SettingsOrigin::UrlInput, ..s.settings_ui },
            screen: Screen::Settings,
            ..s
        }
    } else {
        a is FeedUrlInput && t == s
    }
}

/// What a key does while a fetch runs: Esc abandons it.
pub open spec fn fetching_key_spec(s: App, k: Key, t: App, a: Action) -> bool {
    if k == Key::Esc {
        a is DropFetch && status_set(
            App { url: UrlScreen { fetching: false, ..s.url }, screen: Screen::UrlInput, ..s },
            t,
            "Fetch cancelled"@,
            MessageKind::Info,
        )
    } else {
        a is Nothing && t == s
    }
}

/// What a key does on the video list.
pub open spec fn list_key_spec(s: App, k: Key, t: App, a: Action) -> bool {
    let filtered = filtered_of(s.list);
    let max = last_index(filtered.len());
    let cur = s.list.cursor;
    if s.list.filtering {
        if k == Key::Enter {
            a is Nothing && t == App { list: ListScreen { filtering: false, ..s.list }, ..s }
        } else if k == Key::Esc {
            a is ClearFilterInput && t == App {
                list: ListScreen { filtering: false, filter: t.list.filter, ..s.list },
                ..s
            } && t.list.filter@.len() == 0
        } else {
            a is FeedFilterInput && t == App { list: ListScreen { cursor: 0, ..s.list }, ..s }
        }
    } else if k == Key::Up || is_char(k, 'k') {
        a is Nothing && t == App { list: ListScreen { cursor: step_up(cur), ..s.list }, ..s }
    } else if k == Key::Down || is_char(k, 'j') {
        a is Nothing && t == App { list: ListScreen { cursor: step_down(cur, max), ..s.list }, ..s }
    } else if k == Key::Home {
        a is Nothing && t == App { list: ListScreen { cursor: 0, ..s.list }, ..s }
    } else if k == Key::End {
        a is Nothing && t == App { list: ListScreen { cursor: max, ..s.list }, ..s }
    } else if is_char(k, ' ') {
        a is Nothing && selection_changed(s, t) && t.list.selected@ == if cur < filtered.len() {
            spec_toggle(s.list.selected@, filtered[cur as int] as int)
        } else {
            s.list.selected@
        }
    } else if is_char(k, 'a') {
        a is Nothing && selection_changed(s, t) && t.list.selected@ == spec_set_at(
            s.list.selected@,
            filtered,
            true,
        )
    } else if is_char(k, 'n') {
        a is Nothing && selection_changed(s, t) && t.list.selected@ == spec_set_at(
            s.list.selected@,
            filtered,
            false,
        )
    } else if is_char(k, 'i') {
        a is Nothing && selection_changed(s, t) && t.list.selected@ == spec_invert_at(
            s.list.selected@,
            filtered,
        )
    } else if is_char(k, '/') {
        a is Nothing && t == App { list: ListScreen { filtering: true, ..s.list }, ..s }
    } else if k == Key::F(2) || is_char(k, 's') {
        a is Nothing && t == App {
            settings_ui: SettingsScreen { origin: SettingsOrigin::VideoList, ..s.settings_ui },
            screen: Screen::Settings,
            ..s
        }
    } else if k == Key::Esc {
        a is Nothing && t == App {
            list: ListScreen { playlist: None, selected: t.list.selected, ..s.list },
            screen: Screen::UrlInput,
            ..s
        } && t.list.selected@.len() == 0
    } else if k == Key::Enter {
        start_spec(s, t, a)
    } else if is_char(k, 'q') {
        a is Nothing && t == App { should_quit: true, ..s }
    } else {
        a is Nothing && t == s
    }
}

/// Starting downloads: the batch is prepared (see `prepare_batch`), or
/// the reason it cannot be is shown.
pub open spec fn start_spec(s: App, t: App, a: Action) -> bool {
    if s.binary_status.ytdlp is None {
        a is Nothing && status_set(s, t, MISSING_YTDLP(), MessageKind::Error)
    } else {
        match s.list.playlist {
            None => a is Nothing && t == s,
            Some(p) => {
                let vs = spec_selected_videos(p.videos@, s.list.selected@);
                if vs.len() == 0 {
                    a is Nothing && status_set(
                        s,
                        t,
                        "Select at least one video first"@,
                        MessageKind::Error,
                    )
                } else {
                    t == s && (a matches Action::PrepareBatch(b) && b.videos@ == vs && b.settings@
                        == spec_batch_settings(s.settings@, p.title@, p.is_playlist, s.windows))
                }
            },
        }
    }
}

/// What a key does on the settings screen.
pub open spec fn settings_key_spec(s: App, k: Key, t: App, a: Action) -> bool {
    let field = current_field_of(s);
    let cur = s.settings_ui.cursor;
    if s.settings_ui.editing {
        if k == Key::Enter {
            a is Nothing && t == App {
                settings: t.settings,
                settings_ui: SettingsScreen { editing: false, ..s.settings_ui },
                ..s
            } && t.settings@ == field.spec_set_text(s.settings@, s.settings_ui.edit_value@)
        } else if k == Key::Esc {
            a is Nothing && t == App {
                settings_ui: SettingsScreen { editing: false, ..s.settings_ui },
                ..s
            }
        } else {
            a is FeedEditInput && t == s
        }
    } else if k == Key::Up || is_char(k, 'k') {
        a is Nothing && t == App {
            settings_ui: SettingsScreen { cursor: step_up(cur), ..s.settings_ui },
            ..s
        }
    } else if k == Key::Down || is_char(k, 'j') {
        a is Nothing && t == App {
            settings_ui: SettingsScreen { cursor: step_down(cur, 23), ..s.settings_ui },
            ..s
        }
    } else if k == Key::Left || is_char(k, 'h') {
        a is Nothing && t == App { settings: t.settings, ..s } && t.settings@ == spec_field_action(
            s.settings@,
            field,
            FieldAction::Left,
        )
    } else if k == Key::Right || is_char(k, 'l') {
        a is Nothing && t == App { settings: t.settings, ..s } && t.settings@ == spec_field_action(
            s.settings@,
            field,
            FieldAction::Right,
        )
    } else if k == Key::Enter || is_char(k, ' ') {
        match field.spec_kind() {
            FieldKind::Toggle => a is Nothing && t == App { settings: t.settings, ..s }
                && t.settings@ == field.spec_toggle(s.settings@),
            FieldKind::Cycle => a is Nothing && t == App { settings: t.settings, ..s }
                && t.settings@ == field.spec_cycle(s.settings@, 1i32),
            FieldKind::Text => t == App {
                settings_ui: SettingsScreen { editing: true, ..s.settings_ui },
                ..s
            } && (a matches Action::SetEditInput(v) && v@ == field.spec_text_value(s.settings@)),
        }
    } else if is_char(k, 'S') {
        a is SaveSettings && t == s
    } else if k == Key::Esc || k == Key::F(2) {
        a is Nothing && t == App {
            screen: match s.settings_ui.origin {
                SettingsOrigin::UrlInput => Screen::UrlInput,
                SettingsOrigin::VideoList => Screen::VideoList,
            },
            ..s
        }
    } else {
        a is Nothing && t == s
    }
}

/// What a key does on the downloading screen.
pub open spec fn downloading_key_spec(s: App, k: Key, t: App, a: Action) -> bool {
    let max = last_index(s.queue.items@.len());
    let cur = s.queue.cursor;
    if k == Key::Up || is_char(k, 'k') {
        a is Nothing && t == App { queue: QueueScreen { cursor: step_up(cur), ..s.queue }, ..s }
    } else if k == Key::Down || is_char(k, 'j') {
        a is Nothing && t == App { queue: QueueScreen { cursor: step_down(cur, max), ..s.queue }, ..s }
    } else if is_char(k, 'c') {
        a == Action::CancelItem(cur) && t == s
    } else if is_char(k, 'C') {
        a is CancelAll && t == s
    } else if k == Key::Esc {
        a is Nothing && t == App { screen: Screen::VideoList, ..s }
    } else if is_char(k, 'q') {
        a is Nothing && t == App { should_quit: true, ..s }
    } else {
        a is Nothing && t == s
    }
}

/// What a key press does: releases nothing; Ctrl+C quits from anywhere;
/// F1 toggles the help, which while shown swallows every key (Esc, F1 or
/// `q` close it); otherwise the current screen decides.
#[verifier::opaque]
pub open spec fn key_spec(s: App, key: KeyPress, t: App, a: Action) -> bool {
    let k = key.key;
    if key.release {
        a is Nothing && t == s
    } else if is_char(k, 'c') && key.ctrl {
        a is Nothing && t == App { should_quit: true, ..s }
    } else if k == Key::F(1) {
        a is Nothing && t == App { show_help: !s.show_help, ..s }
    } else if s.show_help {
        a is Nothing && t == App {
            show_help: !(k == Key::Esc || is_char(k, 'q')),
            ..s
        }
    } else {
        match s.screen {
            Screen::UrlInput => url_key_spec(s, k, t, a),
            Screen::Fetching => fetching_key_spec(s, k, t, a),
            Screen::VideoList => list_key_spec(s, k, t, a),
            Screen::Settings => settings_key_spec(s, k, t, a),
            Screen::Downloading => downloading_key_spec(s, k, t, a),
            Screen::HistoryPlaylist | Screen::HistoryVideoDetail => a is Nothing && t == s,
        }
    }
}

impl App {
    /// The state at startup, on the URL screen with the given history.
    pub fn new(settings: Settings, binary_status: BinaryStatus, history: Vec<HistoryEntry>) -> (r:
        Self)
        ensures
            r.settings == settings,
            r.binary_status == binary_status,
            r.screen == Screen::UrlInput,
            !r.should_quit,
            !r.show_help,
            r.status is None,
            r.url.url_input@.len() == 0,
            !r.url.fetching,
            r.history.entries == history,
            r.history.open is None,
            r.list.playlist is None,
            r.list.selected@.len() == 0,
            r.settings_ui.cursor == 0,
            r.settings_ui.origin == SettingsOrigin::UrlInput,
            !r.settings_ui.editing,
            r.queue.items@.len() == 0,
            !r.queue.batch_done,
            app_wf(r),
    {
        App {
            settings,
            binary_status,
            screen: Screen::UrlInput,
            should_quit: false,
            show_help: false,
            status: None,
            url: UrlScreen {
                url_input: String::new(),
                pending_url: String::new(),
                fetching: false,
                spinner_frame: 0,
            },
            history: HistoryBrowser {
                entries: history,
                focused: false,
                cursor: 0,
                open: None,
                video_cursor: 0,
            },
            list: ListScreen {
                playlist: None,
                selected: Vec::new(),
                cursor: 0,
                filtering: false,
                filter: String::new(),
            },
            settings_ui: SettingsScreen {
                origin: SettingsOrigin::UrlInput,
                cursor: 0,
                editing: false,
                edit_value: String::new(),
            },
            queue: QueueScreen { items: Vec::new(), cursor: 0, batch_done: false },
            windows: target_is_windows(),
        }
    }

    /// Starting with a URL from the command line: the URL box shows it and
    /// it is fetched straight away.
    pub fn start_with_url(&mut self, url: String) -> (a: Action)
        ensures
            fetch_begun(
                App { url: UrlScreen { url_input: url, ..old(self).url }, ..*old(self) },
                *final(self),
                url@,
                a,
            ),
    {
        self.url.url_input = url.clone();
        self.begin_fetch(url)
    }

    pub fn set_status(&mut self, text: String, kind: MessageKind)
        ensures
            status_set(*old(self), *final(self), text@, kind),
    {
        self.status = Some(StatusMessage { text, kind });
    }

    fn set_status_str(&mut self, text: &str, kind: MessageKind)
        ensures
            status_set(*old(self), *final(self), text@, kind),
    {
        self.set_status(String::from_str(text), kind);
    }

    /// Starts resolving `url`; see `fetch_begun`.
    pub fn begin_fetch(&mut self, url: String) -> (a: Action)
        ensures
            fetch_begun(*old(self), *final(self), url@, a),
    {
        let ytdlp = match &self.binary_status.ytdlp {
            Some(y) => y.clone(),
            None => {
                self.set_status_str(
                    "yt-dlp runtime not found -- reinstall the app (see README)",
                    MessageKind::Error,
                );
                return Action::Nothing;
            },
        };
        let settings = self.settings.clone();
        let js_runtime = match &self.binary_status.js_runtime {
            Some(js) => Some(js.clone()),
            None => None,
        };
        self.url.pending_url = url.clone();
        self.url.fetching = true;
        self.screen = Screen::Fetching;
        Action::Fetch(FetchRequest { url, settings, ytdlp, js_runtime })
    }

    /// A fetch finished: on success the video list opens with every video
    /// selected; on failure the error is shown back on the URL screen.
    pub fn on_fetch_result(&mut self, result: Result<PlaylistInfo, String>)
        ensures
            match result {
                Ok(p) => {
                    &&& *final(self) == (App {
                        list: ListScreen {
                            playlist: Some(p),
                            selected: final(self).list.selected,
                            cursor: 0,
                            ..old(self).list
                        },
                        url: UrlScreen { fetching: false, ..old(self).url },
                        screen: Screen::VideoList,
                        ..*old(self)
                    })
                    &&& final(self).list.selected@ == Seq::new(p.videos@.len(), |i: int| true)
                },
                Err(e) => status_set(
                    App {
                        url: UrlScreen { fetching: false, ..old(self).url },
                        screen: Screen::UrlInput,
                        ..*old(self)
                    },
                    *final(self),
                    "Failed to resolve URL: "@ + e@,
                    MessageKind::Error,
                ),
            },
    {
        self.url.fetching = false;
        match result {
            Ok(playlist) => {
                self.list.selected = select_all(playlist.videos.len());
                self.list.cursor = 0;
                self.list.playlist = Some(playlist);
                self.screen = Screen::VideoList;
            },
            Err(e) => {
                self.screen = Screen::UrlInput;
                self.set_status(concat("Failed to resolve URL: ", e.as_str()), MessageKind::Error);
            },
        }
    }

    pub fn filtered_video_indices(&self) -> (r: Vec<usize>)
        ensures
            r@ == filtered_of(self.list),
    {
        filtered_video_indices(self.list.playlist.as_ref(), self.list.filter.as_str())
    }

    pub fn toggle_selected(&mut self, index: usize)
        ensures
            selection_changed(*old(self), *final(self)),
            final(self).list.selected@ == spec_toggle(old(self).list.selected@, index as int),
    {
        toggle_selected(&mut self.list.selected, index);
    }

    pub fn set_filtered_selection(&mut self, value: bool)
        ensures
            selection_changed(*old(self), *final(self)),
            final(self).list.selected@ == spec_set_at(
                old(self).list.selected@,
                filtered_of(old(self).list),
                value,
            ),
    {
        let indices = self.filtered_video_indices();
        set_selection_at(&mut self.list.selected, &indices, value);
    }

    pub fn invert_filtered_selection(&mut self)
        ensures
            selection_changed(*old(self), *final(self)),
            final(self).list.selected@ == spec_invert_at(
                old(self).list.selected@,
                filtered_of(old(self).list),
            ),
    {
        let indices = self.filtered_video_indices();
        invert_selection_at(&mut self.list.selected, &indices);
    }

    pub fn selected_count(&self) -> (r: usize)
        ensures
            r == count_true(self.list.selected@),
    {
        selected_count(&self.list.selected)
    }

    /// Starts downloading the selected videos; see `start_spec`.
    pub fn start_downloads(&mut self) -> (a: Action)
        ensures
            start_spec(*old(self), *final(self), a),
    {
        let ready = self.binary_status.ready();
        match prepare_batch(
            ready,
            self.list.playlist.as_ref(),
            &self.list.selected,
            &self.settings,
            self.windows,
        ) {
            Err(BatchError::NoYtDlp) => {
                self.set_status_str(
                    "yt-dlp runtime not found -- reinstall the app (see README)",
                    MessageKind::Error,
                );
                Action::Nothing
            },
            Err(BatchError::NothingSelected) => {
                self.set_status_str("Select at least one video first", MessageKind::Error);
                Action::Nothing
            },
            Ok(None) => Action::Nothing,
            Ok(Some(batch)) => Action::PrepareBatch(batch),
        }
    }

    /// The outcome of creating a batch's directories: on failure an error
    /// status (`output` tells the output directory from the archive's); on
    /// success fresh rows for `batch`'s videos, the cursor on the first, and
    /// the Downloading screen -- the batch itself is started outside.
    pub fn on_batch_dirs(&mut self, batch: &Batch, result: Result<(), (bool, String)>)
        ensures
            match result {
                Err((output, e)) => status_set(
                    *old(self),
                    *final(self),
                    (if output {
                        "Could not create output directory: "@
                    } else {
                        "Could not create archive directory: "@
                    }) + e@,
                    MessageKind::Error,
                ),
                Ok(()) => {
                    &&& *final(self) == (App {
                        screen: Screen::Downloading,
                        queue: QueueScreen {
                            items: final(self).queue.items,
                            cursor: 0,
                            batch_done: false,
                        },
                        ..*old(self)
                    })
                    &&& final(self).queue.items@.len() == batch.videos@.len()
                    &&& forall|i: int|
                        0 <= i < batch.videos@.len() ==> (#[trigger] final(self).queue.items@[i]).video
                            == batch.videos@[i] && final(self).queue.items@[i].state is Queued
                            && final(self).queue.items@[i].log@.len() == 0
                            && final(self).queue.items@[i].last_progress is None
                },
            },
    {
        match result {
            Err((output, e)) => {
                let head = if output {
                    "Could not create output directory: "
                } else {
                    "Could not create archive directory: "
                };
                self.set_status(concat(head, e.as_str()), MessageKind::Error);
            },
            Ok(()) => {
                self.queue.items = new_items(&batch.videos);
                self.queue.cursor = 0;
                self.queue.batch_done = false;
                self.screen = Screen::Downloading;
            },
        }
    }

    /// The finished batch as a history entry, put at the front of the
    /// history, and handed out to be written to the history file.
    fn record_history(&mut self) -> (a: Action)
        ensures
            a is Nothing || a is RecordHistory,
            a is RecordHistory == (old(self).list.playlist is Some && recorded_videos(
                old(self).queue.items@,
            ).len() > 0),
            a is Nothing ==> *final(self) == *old(self),
            a matches Action::RecordHistory(h) ==> {
                &&& *final(self) == (App {
                    history: HistoryBrowser { entries: final(self).history.entries, ..old(self).history },
                    ..*old(self)
                })
                &&& final(self).history.entries@.len() == old(self).history.entries@.len() + 1
                &&& final(self).history.entries@.skip(1) == old(self).history.entries@
                &&& crate::gui::same_entry(final(self).history.entries@[0], h)
                &&& old(self).list.playlist matches Some(p) && h.title == p.title && h.source_url
                    == p.source_url && h.uploader == p.uploader && h.is_playlist == p.is_playlist
                    && h.videos@ == recorded_videos(old(self).queue.items@)
            },
    {
        let playlist = match &self.list.playlist {
            Some(p) => p,
            None => return Action::Nothing,
        };
        let entry = match HistoryEntry::from_batch(playlist, self.queue.items.as_slice()) {
            Some(e) => e,
            None => return Action::Nothing,
        };
        let copy = entry.clone();
        self.history.entries.insert(0, entry);
        proof {
            assert(self.history.entries@.skip(1) =~= old(self).history.entries@);
        }
        Action::RecordHistory(copy)
    }

    /// Folds a queue event into the rows; when it completes the batch, the
    /// batch is recorded in the history.
    pub fn on_download_event(&mut self, event: DownloadEvent) -> (a: Action)
        ensures
            exists|r: bool|
                event_applied(
                    old(self).queue.items@,
                    old(self).queue.batch_done,
                    event,
                    final(self).queue.items@,
                    final(self).queue.batch_done,
                    r,
                ) && (!r ==> a is Nothing),
            *final(self) == (App {
                queue: QueueScreen {
                    items: final(self).queue.items,
                    batch_done: final(self).queue.batch_done,
                    ..old(self).queue
                },
                history: final(self).history,
                ..*old(self)
            }),
            a is Nothing || a is RecordHistory,
            a is RecordHistory == (!old(self).queue.batch_done && completes_batch(
                final(self).queue.items@,
                event,
            ) && old(self).list.playlist is Some && recorded_videos(final(self).queue.items@).len()
                > 0),
            a is Nothing ==> final(self).history == old(self).history,
            a matches Action::RecordHistory(h) ==> {
                &&& final(self).history.entries@.skip(1) == old(self).history.entries@
                &&& final(self).history.entries@.len() == old(self).history.entries@.len() + 1
                &&& crate::gui::same_entry(final(self).history.entries@[0], h)
                &&& h.videos@ == recorded_videos(final(self).queue.items@)
            },
    {
        let completed = apply_event(&mut self.queue.items, &mut self.queue.batch_done, event);
        if completed {
            self.record_history()
        } else {
            Action::Nothing
        }
    }

    /// The queue's channel closed: the batch is over, recorded in the
    /// history if no event completed it before.
    pub fn on_download_channel_closed(&mut self) -> (a: (Action, Action))
        ensures
            a.0 is ForgetBatch,
            old(self).queue.batch_done ==> a.1 is Nothing && *final(self) == *old(self),
            !old(self).queue.batch_done ==> final(self).queue.batch_done,
            !old(self).queue.batch_done ==> (a.1 is Nothing || a.1 is RecordHistory),
            a.1 is RecordHistory == (!old(self).queue.batch_done && old(self).list.playlist is Some
                && recorded_videos(old(self).queue.items@).len() > 0),
            a.1 matches Action::RecordHistory(h) ==> {
                &&& final(self).history.entries@.skip(1) == old(self).history.entries@
                &&& crate::gui::same_entry(final(self).history.entries@[0], h)
                &&& h.videos@ == recorded_videos(old(self).queue.items@)
            },
    {
        if !self.queue.batch_done {
            self.queue.batch_done = true;
            let r = self.record_history();
            (Action::ForgetBatch, r)
        } else {
            (Action::ForgetBatch, Action::Nothing)
        }
    }

    /// Enter on the selected history row: a lone video opens its detail
    /// straight away, a playlist/channel its video list.
    pub fn open_selected_history_entry(&mut self)
        ensures
            old(self).history.cursor < old(self).history.entries@.len() ==> *final(self) == (App {
                history: HistoryBrowser {
                    open: Some(old(self).history.cursor),
                    video_cursor: 0,
                    ..old(self).history
                },
                screen: if crate::gui::entry_is_single(
                    old(self).history.entries@[old(self).history.cursor as int],
                ) {
                    Screen::HistoryVideoDetail
                } else {
                    Screen::HistoryPlaylist
                },
                ..*old(self)
            }),
            old(self).history.cursor >= old(self).history.entries@.len() ==> *final(self) == *old(
            self),
    {
        if self.history.cursor >= self.history.entries.len() {
            return;
        }
        let single = self.history.entries[self.history.cursor].is_single_video();
        self.history.open = Some(self.history.cursor);
        self.history.video_cursor = 0;
        self.screen = if single {
            Screen::HistoryVideoDetail
        } else {
            Screen::HistoryPlaylist
        };
    }

    pub fn open_selected_history_video(&mut self)
        ensures
            *final(self) == (App { screen: Screen::HistoryVideoDetail, ..*old(self) }),
    {
        self.screen = Screen::HistoryVideoDetail;
    }

    pub fn current_history_entry(&self) -> (r: Option<&HistoryEntry>)
        ensures
            r == match self.history.open {
                Some(i) => if i < self.history.entries@.len() {
                    Some(&self.history.entries@[i as int])
                } else {
                    None
                },
                None => None,
            },
    {
        match self.history.open {
            Some(i) => if i < self.history.entries.len() {
                Some(&self.history.entries[i])
            } else {
                None
            },
            None => None,
        }
    }

    pub fn current_history_video(&self) -> (r: Option<&HistoryVideoEntry>)
        ensures
            r == match self.history.open {
                Some(i) => if i < self.history.entries@.len() && self.history.video_cursor
                    < self.history.entries@[i as int].videos@.len() {
                    Some(&self.history.entries@[i as int].videos@[self.history.video_cursor as int])
                } else {
                    None
                },
                None => None,
            },
    {
        let e = match self.current_history_entry() {
            Some(e) => e,
            None => return None,
        };
        if self.history.video_cursor < e.videos.len() {
            Some(&e.videos[self.history.video_cursor])
        } else {
            None
        }
    }

    /// Esc from a video's detail: back to the entry's video list, or, for a
    /// lone-video entry, straight back to the URL screen.
    pub fn back_from_history_video_detail(&mut self)
        ensures
            crate::gui::single_at(old(self).history.entries@, old(self).history.open) ==> *final(self)
                == (App {
                history: HistoryBrowser { open: None, ..old(self).history },
                screen: Screen::UrlInput,
                ..*old(self)
            }),
            !crate::gui::single_at(old(self).history.entries@, old(self).history.open) ==> *final(
            self) == (App { screen: Screen::HistoryPlaylist, ..*old(self) }),
    {
        let single = match self.current_history_entry() {
            Some(e) => e.is_single_video(),
            None => false,
        };
        if single {
            self.history.open = None;
            self.screen = Screen::UrlInput;
        } else {
            self.screen = Screen::HistoryPlaylist;
        }
    }

    pub fn back_from_history_playlist(&mut self)
        ensures
            *final(self) == (App {
                history: HistoryBrowser { open: None, ..old(self).history },
                screen: Screen::UrlInput,
                ..*old(self)
            }),
    {
        self.history.open = None;
        self.screen = Screen::UrlInput;
    }

    /// Advances the fetch spinner (wrapping around).
    pub fn on_tick(&mut self)
        ensures
            *final(self) == (App {
                url: UrlScreen {
                    spinner_frame: if old(self).url.spinner_frame == usize::MAX {
                        0
                    } else {
                        (old(self).url.spinner_frame + 1) as usize
                    },
                    ..old(self).url
                },
                ..*old(self)
            }),
    {
        self.url.spinner_frame = if self.url.spinner_frame == usize::MAX {
            0
        } else {
            self.url.spinner_frame + 1
        };
    }

    /// The binaries a batch runs with; `None` when yt-dlp was not found.
    pub fn binary_paths(&self) -> (r: Option<BinaryPaths>)
        ensures
            r is Some == self.binary_status.ytdlp is Some,
            r matches Some(b) ==> paths_from(b, self.binary_status),
    {
        binary_paths_of(&self.binary_status)
    }

    /// The field under the settings cursor.
    pub fn current_field(&self) -> (f: SettingsField)
        requires
            app_wf(*self),
        ensures
            f == current_field_of(*self),
    {
        SettingsField::ALL[self.settings_ui.cursor]
    }

    /// Applies a field action to the settings; see `spec_field_action`.
    pub fn apply_settings_action(&mut self, field: SettingsField, action: FieldAction)
        ensures
            *final(self) == (App { settings: final(self).settings, ..*old(self) }),
            final(self).settings@ == spec_field_action(old(self).settings@, field, action),
    {
        match (field.kind(), action) {
            (FieldKind::Toggle, FieldAction::Activate) => field.toggle(&mut self.settings),
            (FieldKind::Cycle, FieldAction::Left) => field.cycle(&mut self.settings, -1),
            (FieldKind::Cycle, FieldAction::Right) => field.cycle(&mut self.settings, 1),
            _ => {},
        }
    }

    /// Starts editing a text field: the edit box gets its current value.
    pub fn begin_edit_field(&mut self, field: SettingsField) -> (a: Action)
        ensures
            *final(self) == (App {
                settings_ui: SettingsScreen { editing: true, ..old(self).settings_ui },
                ..*old(self)
            }),
            a matches Action::SetEditInput(v) && v@ == field.spec_text_value(old(self).settings@),
    {
        let current = field.text_value(&self.settings);
        self.settings_ui.editing = true;
        Action::SetEditInput(current)
    }

    /// Stores the edited text in the field.
    pub fn commit_edit_field(&mut self, field: SettingsField)
        ensures
            *final(self) == (App {
                settings: final(self).settings,
                settings_ui: SettingsScreen { editing: false, ..old(self).settings_ui },
                ..*old(self)
            }),
            final(self).settings@ == field.spec_set_text(
                old(self).settings@,
                old(self).settings_ui.edit_value@,
            ),
    {
        field.set_text_value(&mut self.settings, self.settings_ui.edit_value.as_str());
        self.settings_ui.editing = false;
    }

    pub fn cancel_edit(&mut self)
        ensures
            *final(self) == (App {
                settings_ui: SettingsScreen { editing: false, ..old(self).settings_ui },
                ..*old(self)
            }),
    {
        self.settings_ui.editing = false;
    }

    /// The outcome of saving the settings.
    pub fn on_settings_saved(&mut self, result: Result<(), String>)
        ensures
            match result {
                Ok(()) => status_set(*old(self), *final(self), "Settings saved"@, MessageKind::Info),
                Err(e) => status_set(
                    *old(self),
                    *final(self),
                    "Could not save settings: "@ + e@,
                    MessageKind::Error,
                ),
            },
    {
        match result {
            Ok(()) => self.set_status_str("Settings saved", MessageKind::Info),
            Err(e) => self.set_status(concat("Could not save settings: ", e.as_str()), MessageKind::Error),
        }
    }

    /// Writing the history file failed.
    pub fn on_history_save_failed(&mut self, error: &str)
        ensures
            status_set(
                *old(self),
                *final(self),
                "Could not save download history: "@ + error@,
                MessageKind::Error,
            ),
    {
        self.set_status(concat("Could not save download history: ", error), MessageKind::Error);
    }

    fn handle_url_input(&mut self, k: Key) -> (a: Action)
        ensures
            url_key_spec(*old(self), k, *final(self), a),
    {
        if k == Key::Enter {
            let url = trim_str(self.url.url_input.as_str());
            if crate::text::chars_of(url.as_str()).len() == 0 {
                self.set_status_str("Enter a playlist or video URL first", MessageKind::Error);
                Action::Nothing
            } else if !self.binary_status.ready() {
                self.set_status_str(
                    "yt-dlp was not found on PATH -- install it before fetching",
                    MessageKind::Error,
                );
                Action::Nothing
            } else {
                self.begin_fetch(url)
            }
        } else if k == Key::F(2) {
            self.settings_ui.origin = SettingsOrigin::UrlInput;
            self.screen = Screen::Settings;
            Action::Nothing
        } else {
            Action::FeedUrlInput
        }
    }

    fn handle_fetching(&mut self, k: Key) -> (a: Action)
        ensures
            fetching_key_spec(*old(self), k, *final(self), a),
    {
        if k == Key::Esc {
            self.url.fetching = false;
            self.screen = Screen::UrlInput;
            self.set_status_str("Fetch cancelled", MessageKind::Info);
            Action::DropFetch
        } else {
            Action::Nothing
        }
    }

    fn handle_video_list(&mut self, k: Key) -> (a: Action)
        ensures
            list_key_spec(*old(self), k, *final(self), a),
    {
        if self.list.filtering {
            if k == Key::Enter {
                self.list.filtering = false;
                return Action::Nothing;
            } else if k == Key::Esc {
                self.list.filter = String::new();
                self.list.filtering = false;
                return Action::ClearFilterInput;
            } else {
                self.list.cursor = 0;
                return Action::FeedFilterInput;
            }
        }
        let filtered = self.filtered_video_indices();
        let max: usize = if filtered.len() > 0 { filtered.len() - 1 } else { 0 };
        let cur = self.list.cursor;
        if k == Key::Up || k == Key::Char('k') {
            self.list.cursor = if cur > 0 { cur - 1 } else { 0 };
        } else if k == Key::Down || k == Key::Char('j') {
            self.list.cursor = if cur < max { cur + 1 } else { max };
        } else if k == Key::Home {
            self.list.cursor = 0;
        } else if k == Key::End {
            self.list.cursor = max;
        } else if k == Key::Char(' ') {
            if cur < filtered.len() {
                let index = filtered[cur];
                self.toggle_selected(index);
            }
        } else if k == Key::Char('a') {
            self.set_filtered_selection(true);
        } else if k == Key::Char('n') {
            self.set_filtered_selection(false);
        } else if k == Key::Char('i') {
            self.invert_filtered_selection();
        } else if k == Key::Char('/') {
            self.list.filtering = true;
        } else if k == Key::F(2) || k == Key::Char('s') {
            self.settings_ui.origin = SettingsOrigin::VideoList;
            self.screen = Screen::Settings;
        } else if k == Key::Esc {
            self.list.playlist = None;
            self.list.selected = Vec::new();
            self.screen = Screen::UrlInput;
        } else if k == Key::Enter {
            return self.start_downloads();
        } else if k == Key::Char('q') {
            self.should_quit = true;
        }
        Action::Nothing
    }

    fn handle_settings(&mut self, k: Key) -> (a: Action)
        requires
            app_wf(*old(self)),
        ensures
            settings_key_spec(*old(self), k, *final(self), a),
            app_wf(*final(self)),
    {
        if self.settings_ui.editing {
            if k == Key::Enter {
                let field = self.current_field();
                self.commit_edit_field(field);
            } else if k == Key::Esc {
                self.cancel_edit();
            } else {
                return Action::FeedEditInput;
            }
            return Action::Nothing;
        }
        let last: usize = 23;
        let cur = self.settings_ui.cursor;
        if k == Key::Up || k == Key::Char('k') {
            self.settings_ui.cursor = if cur > 0 { cur - 1 } else { 0 };
        } else if k == Key::Down || k == Key::Char('j') {
            self.settings_ui.cursor = if cur < last { cur + 1 } else { last };
        } else if k == Key::Left || k == Key::Char('h') {
            let field = self.current_field();
            self.apply_settings_action(field, FieldAction::Left);
        } else if k == Key::Right || k == Key::Char('l') {
            let field = self.current_field();
            self.apply_settings_action(field, FieldAction::Right);
        } else if k == Key::Enter || k == Key::Char(' ') {
            let field = self.current_field();
            match field.kind() {
                FieldKind::Toggle => self.apply_settings_action(field, FieldAction::Activate),
                FieldKind::Cycle => self.apply_settings_action(field, FieldAction::Right),
                FieldKind::Text => return self.begin_edit_field(field),
            }
        } else if k == Key::Char('S') {
            return Action::SaveSettings;
        } else if k == Key::Esc || k == Key::F(2) {
            self.screen = match self.settings_ui.origin {
                SettingsOrigin::UrlInput => Screen::UrlInput,
                SettingsOrigin::VideoList => Screen::VideoList,
            };
        }
        Action::Nothing
    }

    fn handle_downloading(&mut self, k: Key) -> (a: Action)
        ensures
            downloading_key_spec(*old(self), k, *final(self), a),
    {
        let n = self.queue.items.len();
        let max: usize = if n > 0 { n - 1 } else { 0 };
        let cur = self.queue.cursor;
        if k == Key::Up || k == Key::Char('k') {
            self.queue.cursor = if cur > 0 { cur - 1 } else { 0 };
        } else if k == Key::Down || k == Key::Char('j') {
            self.queue.cursor = if cur < max { cur + 1 } else { max };
        } else if k == Key::Char('c') {
            return Action::CancelItem(cur);
        } else if k == Key::Char('C') {
            return Action::CancelAll;
        } else if k == Key::Esc {
            self.screen = Screen::VideoList;
        } else if k == Key::Char('q') {
            self.should_quit = true;
        }
        Action::Nothing
    }

    /// Handles one key press; see `key_spec`.
    pub fn handle_key(&mut self, key: KeyPress) -> (a: Action)
        requires
            app_wf(*old(self)),
        ensures
            key_spec(*old(self), key, *final(self), a),
            app_wf(*final(self)),
    {
        proof {
            reveal(key_spec);
        }
        let k = key.key;
        if key.release {
            return Action::Nothing;
        }
        if k == Key::Char('c') && key.ctrl {
            self.should_quit = true;
            return Action::Nothing;
        }
        if k == Key::F(1) {
            self.show_help = !self.show_help;
            return Action::Nothing;
        }
        if self.show_help {
            if k == Key::Esc || k == Key::Char('q') {
                self.show_help = false;
            }
            return Action::Nothing;
        }
        match self.screen {
            Screen::UrlInput => self.handle_url_input(k),
            Screen::Fetching => self.handle_fetching(k),
            Screen::VideoList => self.handle_video_list(k),
            Screen::Settings => self.handle_settings(k),
            Screen::Downloading => self.handle_downloading(k),
            Screen::HistoryPlaylist | Screen::HistoryVideoDetail => Action::Nothing,
        }
    }
}

} // verus!
