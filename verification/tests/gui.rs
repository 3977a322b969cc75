use vidsave_core::config::Settings;
use vidsave_core::downloader::DownloadEvent;
use vidsave_core::gui::{Effect, GuiState, Message, Screen, StatusKind, Tab};
use vidsave_core::models::{DownloadItem, DownloadState, PlaylistInfo, Video};
use vidsave_core::ytdlp::{BinaryStatus, YtDlp};

fn ytdlp_found() -> BinaryStatus {
    BinaryStatus {
        ytdlp: Some(YtDlp { python_path: "/p/python3".into(), src_dir: "/p/src".into() }),
        ytdlp_version: Some("2026.01.01".into()),
        ffmpeg_path: None,
        js_runtime: None,
    }
}

fn video(id: &str) -> Video {
    Video {
        id: id.into(),
        title: format!("Video {id}"),
        uploader: None,
        duration_secs: None,
        playlist_index: None,
        url: format!("https://example.com/{id}"),
        filesize_bytes: None,
    }
}

fn playlist() -> PlaylistInfo {
    PlaylistInfo {
        title: "List".into(),
        uploader: None,
        videos: vec![video("a"), video("b")],
        is_playlist: true,
        source_url: "https://example.com/list".into(),
    }
}

fn state() -> GuiState {
    GuiState::new(Settings { output_dir: "/out".into(), ..Settings::default() }, None, vec![])
}

#[test]
fn every_tab_opens_on_one_of_its_screens() {
    for tab in Tab::ALL {
        assert_eq!(tab.home_screen().tab(), tab);
    }
    assert_eq!(Tab::Download.label(), "Download");
    assert_eq!(Screen::HistoryVideoDetail.tab(), Tab::History);
}

#[test]
fn command_line_url_is_fetched_once_tools_are_ready() {
    let mut st = GuiState::new(Settings::default(), Some("https://example.com/x".into()), vec![]);
    assert_eq!(st.url.url_input, "https://example.com/x");
    match st.update(Message::ToolsChecked(ytdlp_found())) {
        Effect::Fetch(req) => assert_eq!(req.url, "https://example.com/x"),
        other => panic!("expected a fetch, got {other:?}"),
    }
    assert!(st.url.fetching);
    assert!(st.url.initial_url.is_none());
}

#[test]
fn missing_ytdlp_is_reported() {
    let mut st = state();
    assert!(matches!(st.update(Message::ToolsChecked(BinaryStatus::default())), Effect::Nothing));
    let status = st.status.as_ref().unwrap();
    assert_eq!(status.text, "yt-dlp runtime not found -- reinstall the app (see README)");
    assert_eq!(status.kind, StatusKind::Error);
}

#[test]
fn blank_url_is_refused() {
    let mut st = state();
    st.update(Message::ToolsChecked(ytdlp_found()));
    st.update(Message::UrlChanged("   ".into()));
    assert!(matches!(st.update(Message::FetchPressed), Effect::Nothing));
    assert_eq!(st.status.as_ref().unwrap().text, "Enter a playlist or video URL first");
}

#[test]
fn fetched_playlist_opens_fully_selected() {
    let mut st = state();
    st.update(Message::FetchCompleted(Ok(playlist())));
    assert_eq!(st.screen, Screen::VideoList);
    assert_eq!(st.list.selected, vec![true, true]);
    st.update(Message::ToggleVideo(0));
    assert_eq!(st.selected_count(), 1);
    st.update(Message::FetchCompleted(Err("no network".into())));
    assert_eq!(st.status.as_ref().unwrap().text, "Failed to resolve URL: no network");
}

#[test]
fn a_batch_runs_to_completion_and_is_recorded() {
    let mut st = state();
    st.update(Message::ToolsChecked(ytdlp_found()));
    st.update(Message::FetchCompleted(Ok(playlist())));
    let batch = match st.update(Message::StartDownloadsPressed) {
        Effect::PrepareBatch(b) => b,
        other => panic!("expected a batch, got {other:?}"),
    };
    assert_eq!(batch.settings.output_dir, "/out/List");
    st.on_batch_dirs(&batch, Ok(()));
    assert_eq!(st.screen, Screen::Downloading);
    assert!(matches!(st.update(Message::DownloadEvent(DownloadEvent::Finished(0, Ok(())))), Effect::Nothing));
    match st.update(Message::DownloadEvent(DownloadEvent::Skipped(1))) {
        Effect::RecordHistory(entry) => {
            assert_eq!(entry.title, "List");
            assert_eq!(entry.videos.len(), 2);
        }
        other => panic!("expected the batch to be recorded, got {other:?}"),
    }
    assert!(st.queue.batch_done);
    assert_eq!(st.history.entries.len(), 1);
    assert_eq!(st.queue.items[1].state, DownloadState::Skipped);
}

#[test]
fn nothing_selected_is_refused() {
    let mut st = state();
    st.update(Message::ToolsChecked(ytdlp_found()));
    st.update(Message::FetchCompleted(Ok(playlist())));
    st.update(Message::SelectNone);
    assert!(matches!(st.update(Message::StartDownloadsPressed), Effect::Nothing));
    assert_eq!(st.status.as_ref().unwrap().text, "Select at least one video first");
}

#[test]
fn item_details_toggle_and_start_over_resets() {
    let mut st = state();
    st.queue.items = vec![DownloadItem::new(video("a"))];
    st.update(Message::ToggleItemDetails(0));
    assert_eq!(st.queue.expanded_items, vec![0]);
    st.update(Message::ToggleItemDetails(0));
    assert!(st.queue.expanded_items.is_empty());
    assert!(matches!(st.update(Message::StartOverPressed), Effect::ForgetBatch));
    assert!(st.queue.items.is_empty());
    assert_eq!(st.screen, Screen::UrlInput);
}

#[test]
fn settings_messages_edit_the_settings() {
    let mut st = state();
    st.update(Message::OpenSettings);
    assert!(st.show_settings);
    assert!(matches!(st.update(Message::SaveSettingsPressed), Effect::SaveSettings));
    st.on_settings_saved(Ok(()));
    assert!(st.settings_saved_flash);
    assert_eq!(st.status.as_ref().unwrap().text, "Settings saved");
    st.switch_tab(Tab::Settings);
    assert!(!st.settings_saved_flash);
    assert_eq!(st.screen, Screen::Settings);
}
