use vidsave_core::config::Settings;
use vidsave_core::gui::{GuiState, Screen, StatusKind, StatusMessage, Tab, UpdateStatus};
use vidsave_core::history::{HistoryEntry, HistoryOutcome, HistoryVideoEntry};
use vidsave_core::models::{
    AudioFormat, DownloadItem, DownloadProgress, DownloadState, MediaMode, PlaylistInfo, Video,
    VideoContainer, VideoQuality,
};
use vidsave_core::screens::{
    activity_text, cycle_choices, detail_line, details_label, log_text, detail_rows, download_button, empty_list_text, entry_header,
    entry_header_line, failure_note, fetch_button, fetching_text, field_line, help_lines, field_shade,
    gui_status_bar, history_line, history_row, history_title, item_status_line, item_tenths,
    outcome_text, pause_control, playlist_counts, playlist_header, queue_line, queue_summary,
    recorded_video_line, recorded_video_row, settings_rows, setup_notice, shows_cancel, summary_line,
    summary_line_overall, tab_caption, tool_lines, tui_status_bar, update_panel, video_line,
    video_list_title, video_row_label, PauseControl, SettingsRow, Shade,
};
use vidsave_core::settings_fields::SettingsField;
use vidsave_core::downloader::binary_paths_of;
use vidsave_core::tui::{App, MessageKind, Screen as TuiScreen};
use vidsave_core::update_check::UpdateInfo;
use vidsave_core::ytdlp::{BinaryStatus, JsRuntime, YtDlp};

fn video(title: &str, index: Option<u64>) -> Video {
    Video {
        id: title.to_string(),
        title: title.to_string(),
        uploader: Some("Uploader".to_string()),
        duration_secs: Some(125),
        playlist_index: index,
        url: format!("https://example.com/{title}"),
        filesize_bytes: Some(1024 * 1024),
    }
}

fn progress(percent_tenths: u128) -> DownloadProgress {
    DownloadProgress {
        percent_tenths,
        speed: Some("1.0MiB/s".to_string()),
        eta: None,
        downloaded_bytes: None,
        total_bytes: None,
    }
}

fn item(state: DownloadState) -> DownloadItem {
    let mut i = DownloadItem::new(video("clip", Some(1)));
    i.set_state(state);
    i
}

fn recorded(title: &str, outcome: HistoryOutcome) -> HistoryVideoEntry {
    HistoryVideoEntry {
        title: title.to_string(),
        uploader: None,
        duration_secs: Some(3725),
        filesize_bytes: None,
        url: format!("https://example.com/{title}"),
        outcome,
    }
}

fn entry(is_playlist: bool, videos: Vec<HistoryVideoEntry>) -> HistoryEntry {
    HistoryEntry {
        id: "1".to_string(),
        title: "Mix".to_string(),
        source_url: "https://example.com/list".to_string(),
        uploader: Some("Chan".to_string()),
        is_playlist,
        finished_at: 0,
        videos,
    }
}

fn ready_tools() -> BinaryStatus {
    BinaryStatus {
        ytdlp: Some(YtDlp { python_path: "/p/python3".into(), src_dir: "/p/src".into() }),
        ytdlp_version: Some("2026.01.01".into()),
        ffmpeg_path: None,
        js_runtime: None,
    }
}

#[test]
fn queue_summary_counts_states_and_averages_progress() {
    let items = vec![
        item(DownloadState::Done),
        item(DownloadState::Skipped),
        item(DownloadState::Failed("boom".into())),
        item(DownloadState::Cancelled),
        item(DownloadState::Downloading(progress(500))),
        item(DownloadState::Queued),
        item(DownloadState::PostProcessing),
    ];
    let s = queue_summary(&items);
    assert_eq!((s.total, s.finished, s.failed, s.cancelled), (7, 2, 1, 1));
    // (4 * 100 + 50 + 0 + 95) / 7 = 77.86
    assert_eq!(s.overall_percent, 78);
    assert_eq!(summary_line(&s), "2/7 done   1 failed   1 cancelled   78%");
    assert_eq!(summary_line_overall(&s), "2/7 done   1 failed   1 cancelled   78% overall");
}

#[test]
fn empty_queue_shows_nothing_done() {
    let s = queue_summary(&vec![]);
    assert_eq!(s.overall_percent, 0);
    assert_eq!(summary_line(&s), "0/0 done   0 failed   0 cancelled   0%");
}

#[test]
fn finished_queue_shows_full_progress() {
    let items = vec![item(DownloadState::Done), item(DownloadState::Failed("x".into()))];
    assert_eq!(queue_summary(&items).overall_percent, 100);
}

#[test]
fn paused_item_keeps_its_last_position() {
    let mut i = item(DownloadState::Downloading(progress(423)));
    i.set_state(DownloadState::Paused);
    assert_eq!(item_tenths(&i), 423);
    assert_eq!(item_tenths(&item(DownloadState::Paused)), 0);
    assert_eq!(item_tenths(&item(DownloadState::Downloading(progress(2000)))), 1000);
    assert_eq!(item_status_line(&i), "Paused  1.0MiB/s  eta --");
}

#[test]
fn queue_rows_show_status_title_and_extra() {
    let d = item(DownloadState::Downloading(progress(250)));
    assert_eq!(queue_line(&d), "v  25.0%     clip  1.0MiB/s  eta --");
    let f = item(DownloadState::Failed("boom".into()));
    assert_eq!(queue_line(&f), "! Failed     clip  boom");
    assert_eq!(item_status_line(&f), "Failed  boom");
    assert_eq!(queue_line(&item(DownloadState::Queued)), "o Queued     clip");
}

#[test]
fn row_controls_follow_the_state() {
    assert_eq!(pause_control(&DownloadState::Paused), PauseControl::Resume);
    assert_eq!(pause_control(&DownloadState::Starting), PauseControl::Pause);
    assert_eq!(pause_control(&DownloadState::Done), PauseControl::Hidden);
    assert!(shows_cancel(&DownloadState::Paused));
    assert!(!shows_cancel(&DownloadState::Cancelled));
}

#[test]
fn video_list_labels() {
    let p = PlaylistInfo {
        title: "List".into(),
        uploader: Some("Chan".into()),
        videos: vec![video("a", Some(7)), video("b", None)],
        is_playlist: true,
        source_url: "u".into(),
    };
    assert_eq!(playlist_counts(&p, 1), "2 videos, 1 selected  --  Chan");
    assert_eq!(playlist_header(&p, 0), "List   (2 videos, 0 selected  --  Chan)");
    assert_eq!(video_row_label(&p.videos[0]), "  7. a  (2:05, 1.0MiB)");
    assert_eq!(video_row_label(&p.videos[1]), "b  (2:05, 1.0MiB)");
    assert_eq!(video_line(&p.videos[0], true), "[x]   7  2:05     1.0MiB    a");
    assert_eq!(video_line(&p.videos[1], false), "[ ]   -  2:05     1.0MiB    b");
    assert_eq!(empty_list_text(""), "This playlist has no videos");
    assert_eq!(empty_list_text("x"), "No videos match that filter");
    assert_eq!(video_list_title(0, "x"), "Videos (no matches)");
    assert_eq!(video_list_title(0, ""), "Videos");
    assert_eq!(download_button(0), ("Download".to_string(), false));
    assert_eq!(download_button(3), ("Download 3 selected".to_string(), true));
}

#[test]
fn history_labels() {
    let e = entry(
        true,
        vec![
            recorded("a", HistoryOutcome::Done),
            recorded("b", HistoryOutcome::Failed("gone".into())),
        ],
    );
    let (first, second) = history_row(&e);
    assert_eq!(first, "▤ Mix");
    assert_eq!(second, "1/2 done, 1 failed   1970-01-01 00:00 UTC");
    assert_eq!(history_line(&e), "▤ 1970-01-01 00:00 UTC 1/2 done, 1 failed   Mix");
    assert_eq!(entry_header(&e), "2 videos, 1 done, 1 failed  --  Chan   --   1970-01-01 00:00 UTC");
    assert_eq!(
        entry_header_line(&e),
        "Mix   (2 videos, 1 done, 1 failed  --  Chan)   1970-01-01 00:00 UTC"
    );
    let single = entry(false, vec![recorded("a", HistoryOutcome::Done)]);
    assert_eq!(history_row(&single).0, "• Mix");
    assert_eq!(history_row(&single).1, "1/1 done   1970-01-01 00:00 UTC");
}

#[test]
fn recorded_video_details() {
    let v = recorded("b", HistoryOutcome::Failed("gone".into()));
    let (first, second) = recorded_video_row(&v);
    assert_eq!(first, "! b");
    assert_eq!(second, "1:02:05   --   Failed");
    assert_eq!(recorded_video_line(&v), "! 1:02:05  --        b");
    assert_eq!(outcome_text(&HistoryOutcome::Skipped), "Skipped (already had it)");
    let rows = detail_rows(&v);
    assert_eq!(rows[1], ("Uploader", "--".to_string()));
    assert_eq!(rows[5], ("Result", "Failed".to_string()));
    assert_eq!(detail_line("Title", "b"), "Title:      b");
    assert_eq!(failure_note(&v.outcome), Some("Error: gone".to_string()));
    assert_eq!(failure_note(&HistoryOutcome::Done), None);
}

#[test]
fn desktop_status_bar_and_tabs() {
    let mut st = GuiState::new(Settings::default(), None, vec![]);
    assert_eq!(activity_text(&st), "Starting up...");
    st.tools_checked = true;
    assert_eq!(gui_status_bar(&st), ("Ready".to_string(), Shade::Gray));
    st.screen = Screen::Downloading;
    st.queue.batch_done = true;
    assert_eq!(activity_text(&st), "All downloads finished");
    st.status = Some(StatusMessage { text: "Oops".into(), kind: StatusKind::Error });
    assert_eq!(gui_status_bar(&st), ("Oops".to_string(), Shade::Red));
    assert_eq!(tab_caption(Tab::Settings), "⚙ Settings");
}

#[test]
fn setup_notice_and_fetch_button() {
    let mut st = GuiState::new(Settings::default(), None, vec![]);
    assert_eq!(setup_notice(&st), vec![("Checking your setup...", Shade::Gray)]);
    assert_eq!(fetch_button(&st), ("Fetch", false));
    st.tools_checked = true;
    st.binary_status = ready_tools();
    assert_eq!(setup_notice(&st).len(), 2);
    assert_eq!(fetch_button(&st), ("Fetch", true));
    st.binary_status.ffmpeg_path = Some("/usr/bin/ffmpeg".into());
    st.binary_status.js_runtime = Some(JsRuntime { name: "deno", path: "/usr/bin/deno".into() });
    assert_eq!(setup_notice(&st), vec![("Ready", Shade::Green)]);
    st.url.fetching = true;
    assert_eq!(fetch_button(&st), ("Resolving...", false));
}

#[test]
fn update_panel_per_state() {
    let p = update_panel(&UpdateStatus::Idle);
    assert!(p.lines.is_empty());
    assert_eq!(p.button, Some("Check for updates"));
    let info = UpdateInfo {
        version: "3.1.0".into(),
        notes: "  ".into(),
        asset_url: "u".into(),
        asset_name: "n".into(),
    };
    let p = update_panel(&UpdateStatus::Available(info));
    assert_eq!(p.lines, vec![("VidSave 3.1.0 is available".to_string(), Shade::Plain)]);
    assert_eq!(p.notes, None);
    let p = update_panel(&UpdateStatus::Error("offline".into()));
    assert_eq!(p.lines[0].0, "Couldn't check for updates: offline");
    assert_eq!(p.button, Some("Try again"));
}

#[test]
fn terminal_chrome() {
    let mut app = App::new(Settings::default(), ready_tools(), vec![]);
    app.url.pending_url = "https://example.com/x".into();
    app.url.spinner_frame = 3;
    assert_eq!(fetching_text(&app), "/ Resolving https://example.com/x ...\n\nEsc to cancel");
    app.url.spinner_frame = 7;
    assert!(fetching_text(&app).starts_with("\\ "));
    assert_eq!(tui_status_bar(&app), ("F1 help".to_string(), Shade::Gray));
    app.status = Some(vidsave_core::tui::StatusMessage { text: "Saved".into(), kind: MessageKind::Info });
    assert_eq!(tui_status_bar(&app), ("Saved".to_string(), Shade::Green));
    assert_eq!(history_title(false), "Download history  (Tab to browse)");
    let lines = tool_lines(&app.binary_status);
    assert_eq!(lines.len(), 4);
    assert_eq!(lines[1], ("yt-dlp: 2026.01.01  (/p/python3)".to_string(), Shade::Green));
    let missing = BinaryStatus { ytdlp: None, ytdlp_version: None, ffmpeg_path: None, js_runtime: None };
    let lines = tool_lines(&missing);
    assert_eq!(lines.len(), 5);
    assert_eq!(lines[4].1, Shade::Red);
}

#[test]
fn settings_rows_put_headers_before_sections() {
    let (rows, at) = settings_rows(0);
    assert_eq!(rows.len(), 24 + 7);
    assert!(matches!(rows[0], SettingsRow::Header("Output")));
    assert!(matches!(rows[at], SettingsRow::Field(SettingsField::OutputDir)));
    assert_eq!(at, 1);
    let (rows, at) = settings_rows(3);
    assert_eq!(at, 5);
    assert!(matches!(rows[4], SettingsRow::Header("Media")));
    let settings = Settings { media_mode: MediaMode::AudioOnly, ..Settings::default() };
    assert_eq!(field_shade(SettingsField::VideoQuality, &settings), Shade::Gray);
    assert!(field_line(SettingsField::Concurrency, &settings).starts_with("Concurrent downloads"));
}

#[test]
fn help_overlay_lists_keys_per_screen() {
    assert_eq!(
        help_lines(TuiScreen::Fetching),
        vec!["Global: F1 help   Ctrl+C quit", "", "Esc            Cancel fetch"]
    );
    assert_eq!(help_lines(TuiScreen::VideoList).len(), 10);
    assert_eq!(help_lines(TuiScreen::HistoryVideoDetail)[3], "q              Quit");
}

#[test]
fn batch_binaries_come_from_the_tool_check() {
    let mut b = ready_tools();
    b.ffmpeg_path = Some("/usr/bin/ffmpeg".into());
    let p = binary_paths_of(&b).unwrap();
    assert_eq!(p.ytdlp.python_path, "/p/python3");
    assert_eq!(p.ffmpeg, Some("/usr/bin/ffmpeg".to_string()));
    assert!(p.js_runtime.is_none());
    let missing = BinaryStatus { ytdlp: None, ytdlp_version: None, ffmpeg_path: None, js_runtime: None };
    assert!(binary_paths_of(&missing).is_none());
}

#[test]
fn option_lists_follow_the_cycles() {
    for (i, q) in VideoQuality::ALL.iter().enumerate() {
        assert_eq!(q.next(), VideoQuality::ALL[(i + 1) % VideoQuality::ALL.len()]);
    }
    for (i, c) in VideoContainer::ALL.iter().enumerate() {
        assert_eq!(c.next(), VideoContainer::ALL[(i + 1) % VideoContainer::ALL.len()]);
    }
    for (i, a) in AudioFormat::ALL.iter().enumerate() {
        assert_eq!(a.next(), AudioFormat::ALL[(i + 1) % AudioFormat::ALL.len()]);
    }
}

#[test]
fn dropdowns_for_cycling_settings() {
    let settings = Settings {
        video_quality: VideoQuality::P720,
        audio_format: AudioFormat::Best,
        ..Settings::default()
    };
    let (labels, at) = cycle_choices(SettingsField::VideoQuality, &settings).unwrap();
    assert_eq!(labels.len(), 8);
    assert_eq!(labels[at], VideoQuality::P720.label());
    let (labels, at) = cycle_choices(SettingsField::AudioFormat, &settings).unwrap();
    assert_eq!((labels.len(), at), (6, 5));
    let (labels, at) = cycle_choices(SettingsField::MediaMode, &settings).unwrap();
    assert_eq!(labels, vec!["Video + Audio", "Audio only"]);
    assert_eq!(at, 0);
    assert_eq!(cycle_choices(SettingsField::VideoContainer, &settings).unwrap().1, 0);
    assert!(cycle_choices(SettingsField::Proxy, &settings).is_none());
}

#[test]
fn row_log_and_details_toggle() {
    let mut i = item(DownloadState::Starting);
    assert_eq!(log_text(&i), "No output yet");
    i.push_log("one".into());
    i.push_log("two".into());
    assert_eq!(log_text(&i), "one\ntwo");
    assert_eq!(details_label(true), "Hide details");
    assert_eq!(details_label(false), "Details");
}

#[test]
fn cycling_a_setting_backward_steps_back() {
    let mut s = Settings { video_container: VideoContainer::Mp4, ..Settings::default() };
    SettingsField::VideoContainer.cycle(&mut s, -1);
    assert_eq!(s.video_container, VideoContainer::Webm);
    SettingsField::VideoContainer.cycle(&mut s, 1);
    assert_eq!(s.video_container, VideoContainer::Mp4);
    SettingsField::AudioFormat.cycle(&mut s, -1);
    assert_eq!(s.audio_format, AudioFormat::Best);
}
