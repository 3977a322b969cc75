use vidsave_core::config::Settings;
use vidsave_core::downloader::DownloadEvent;
use vidsave_core::history::HistoryEntry;
use vidsave_core::models::{DownloadItem, DownloadState, PlaylistInfo, Video};
use vidsave_core::settings_fields::SettingsField;
use vidsave_core::tui::{Action, App, Key, KeyPress, MessageKind, Screen, SettingsOrigin};
use vidsave_core::ytdlp::{BinaryStatus, YtDlp};

fn ready() -> BinaryStatus {
    BinaryStatus {
        ytdlp: Some(YtDlp { python_path: "/p".into(), src_dir: "/s".into() }),
        ytdlp_version: None,
        ffmpeg_path: None,
        js_runtime: None,
    }
}

fn press(key: Key) -> KeyPress {
    KeyPress { key, ctrl: false, release: false }
}

fn video(id: &str) -> Video {
    Video {
        id: id.into(),
        title: format!("Video {id}"),
        uploader: None,
        duration_secs: None,
        playlist_index: None,
        url: format!("https://example.com/{id}"),
        filesize_bytes: None,
    }
}

fn playlist(n: usize, is_playlist: bool) -> PlaylistInfo {
    PlaylistInfo {
        title: "List".into(),
        uploader: None,
        videos: (0..n).map(|i| video(&i.to_string())).collect(),
        is_playlist,
        source_url: "u".into(),
    }
}

#[test]
fn enter_fetches_the_url() {
    let mut app = App::new(Settings::default(), ready(), vec![]);
    app.url.url_input = " https://example.com/list ".into();
    match app.handle_key(press(Key::Enter)) {
        Action::Fetch(req) => assert_eq!(req.url, "https://example.com/list"),
        other => panic!("expected a fetch, got {other:?}"),
    }
    assert_eq!(app.screen, Screen::Fetching);
    assert!(matches!(app.handle_key(press(Key::Esc)), Action::DropFetch));
    assert_eq!(app.screen, Screen::UrlInput);
    let status = app.status.as_ref().unwrap();
    assert_eq!(status.text, "Fetch cancelled");
    assert_eq!(status.kind, MessageKind::Info);
}

#[test]
fn fetching_without_ytdlp_is_refused() {
    let mut app = App::new(Settings::default(), BinaryStatus::default(), vec![]);
    app.url.url_input = "https://example.com".into();
    assert!(matches!(app.handle_key(press(Key::Enter)), Action::Nothing));
    assert_eq!(
        app.status.as_ref().unwrap().text,
        "yt-dlp was not found on PATH -- install it before fetching"
    );
}

#[test]
fn video_list_keys_move_select_and_filter() {
    let mut app = App::new(Settings::default(), ready(), vec![]);
    app.on_fetch_result(Ok(playlist(3, true)));
    assert_eq!(app.screen, Screen::VideoList);
    app.handle_key(press(Key::Down));
    app.handle_key(press(Key::Down));
    app.handle_key(press(Key::Down));
    assert_eq!(app.list.cursor, 2);
    app.handle_key(press(Key::Char(' ')));
    assert_eq!(app.list.selected, vec![true, true, false]);
    app.handle_key(press(Key::Char('i')));
    assert_eq!(app.list.selected, vec![false, false, true]);
    app.handle_key(press(Key::Char('/')));
    assert!(app.list.filtering);
    assert!(matches!(app.handle_key(press(Key::Char('x'))), Action::FeedFilterInput));
    assert_eq!(app.list.cursor, 0);
    assert!(matches!(app.handle_key(press(Key::Esc)), Action::ClearFilterInput));
    assert!(!app.list.filtering);
    app.handle_key(press(Key::Char('q')));
    assert!(app.should_quit);
}

#[test]
fn help_swallows_keys_until_closed() {
    let mut app = App::new(Settings::default(), ready(), vec![]);
    app.handle_key(press(Key::F(1)));
    assert!(app.show_help);
    assert!(matches!(app.handle_key(press(Key::Enter)), Action::Nothing));
    assert!(app.show_help);
    app.handle_key(press(Key::Char('q')));
    assert!(!app.show_help);
    app.handle_key(KeyPress { key: Key::Char('c'), ctrl: true, release: false });
    assert!(app.should_quit);
}

#[test]
fn settings_screen_edits_fields_and_returns_to_its_origin() {
    let mut app = App::new(Settings::default(), ready(), vec![]);
    app.handle_key(press(Key::F(2)));
    assert_eq!(app.screen, Screen::Settings);
    assert_eq!(app.settings_ui.origin, SettingsOrigin::UrlInput);
    assert_eq!(app.current_field(), SettingsField::OutputDir);
    match app.handle_key(press(Key::Enter)) {
        Action::SetEditInput(v) => assert_eq!(v, app.settings.output_dir),
        other => panic!("expected the edit box to be filled, got {other:?}"),
    }
    app.settings_ui.edit_value = "  /tmp/videos ".into();
    app.handle_key(press(Key::Enter));
    assert_eq!(app.settings.output_dir, "/tmp/videos");
    assert!(!app.settings_ui.editing);
    assert!(matches!(app.handle_key(press(Key::Char('S'))), Action::SaveSettings));
    app.handle_key(press(Key::Esc));
    assert_eq!(app.screen, Screen::UrlInput);
}

#[test]
fn downloads_finish_and_are_recorded_once() {
    let mut app = App::new(Settings::default(), ready(), vec![]);
    app.on_fetch_result(Ok(playlist(1, false)));
    let batch = match app.start_downloads() {
        Action::PrepareBatch(b) => b,
        other => panic!("expected a batch, got {other:?}"),
    };
    app.on_batch_dirs(&batch, Ok(()));
    assert_eq!(app.screen, Screen::Downloading);
    assert!(matches!(app.handle_key(press(Key::Char('c'))), Action::CancelItem(0)));
    match app.on_download_event(DownloadEvent::Finished(0, Ok(()))) {
        Action::RecordHistory(entry) => assert!(entry.is_single_video()),
        other => panic!("expected the batch to be recorded, got {other:?}"),
    }
    let (forget, again) = app.on_download_channel_closed();
    assert!(matches!(forget, Action::ForgetBatch));
    assert!(matches!(again, Action::Nothing));
    assert_eq!(app.history.entries.len(), 1);
}

#[test]
fn history_drill_down_and_back() {
    let mut done = DownloadItem::new(video("a"));
    done.set_state(DownloadState::Done);
    let entry = HistoryEntry::from_batch_at(&playlist(1, false), &[done], "1".into(), 1).unwrap();
    let mut app = App::new(Settings::default(), ready(), vec![entry]);
    app.open_selected_history_entry();
    assert_eq!(app.screen, Screen::HistoryVideoDetail);
    assert_eq!(app.current_history_video().unwrap().title, "Video a");
    app.back_from_history_video_detail();
    assert_eq!(app.screen, Screen::UrlInput);
    assert!(app.history.open.is_none());
}

#[test]
fn spinner_wraps_around() {
    let mut app = App::new(Settings::default(), ready(), vec![]);
    app.url.spinner_frame = usize::MAX;
    app.on_tick();
    assert_eq!(app.url.spinner_frame, 0);
    app.on_tick();
    assert_eq!(app.url.spinner_frame, 1);
}

#[test]
fn a_closed_channel_records_an_unfinished_batch() {
    let mut app = App::new(Settings::default(), ready(), vec![]);
    app.on_fetch_result(Ok(playlist(2, true)));
    let batch = match app.start_downloads() {
        Action::PrepareBatch(b) => b,
        other => panic!("expected a batch, got {other:?}"),
    };
    app.on_batch_dirs(&batch, Ok(()));
    assert!(matches!(app.on_download_event(DownloadEvent::Finished(0, Ok(()))), Action::Nothing));
    assert!(!app.queue.batch_done);
    let (forget, record) = app.on_download_channel_closed();
    assert!(matches!(forget, Action::ForgetBatch));
    match record {
        Action::RecordHistory(entry) => assert_eq!(entry.videos.len(), 1),
        other => panic!("expected the finished video to be recorded, got {other:?}"),
    }
    assert!(app.queue.batch_done);
    assert_eq!(app.history.entries.len(), 1);
}

#[test]
fn a_paused_item_keeps_the_batch_open() {
    let mut app = App::new(Settings::default(), ready(), vec![]);
    app.on_fetch_result(Ok(playlist(2, true)));
    let batch = match app.start_downloads() {
        Action::PrepareBatch(b) => b,
        other => panic!("expected a batch, got {other:?}"),
    };
    app.on_batch_dirs(&batch, Ok(()));
    assert!(matches!(app.on_download_event(DownloadEvent::Paused(0)), Action::Nothing));
    assert!(matches!(app.on_download_event(DownloadEvent::Finished(1, Ok(()))), Action::Nothing));
    assert!(!app.queue.batch_done);
    assert!(app.history.entries.is_empty());
}
