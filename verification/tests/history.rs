use vidsave_core::history::{
    civil_from_days, format_unix_utc, history_path_in, push_entry, unique_id_at, HistoryEntry,
    HistoryOutcome, HistoryVideoEntry, MAX_ENTRIES,
};
use vidsave_core::models::{DownloadItem, DownloadProgress, DownloadState, PlaylistInfo, Video};

fn video(title: &str) -> Video {
    Video {
        id: title.to_string(),
        title: title.to_string(),
        uploader: Some("Uploader".to_string()),
        duration_secs: Some(125),
        playlist_index: Some(1),
        url: format!("https://example.com/{title}"),
        filesize_bytes: Some(1024 * 1024),
    }
}

fn playlist() -> PlaylistInfo {
    PlaylistInfo {
        title: "My Playlist".to_string(),
        uploader: Some("Uploader".to_string()),
        videos: vec![],
        is_playlist: true,
        source_url: "https://example.com/list".to_string(),
    }
}

#[test]
fn from_batch_maps_terminal_states_to_outcomes() {
    let mut done = DownloadItem::new(video("a"));
    done.set_state(DownloadState::Done);
    let mut failed = DownloadItem::new(video("b"));
    failed.set_state(DownloadState::Failed("boom".to_string()));

    let entry = HistoryEntry::from_batch(&playlist(), &[done, failed]).unwrap();
    assert_eq!(entry.videos.len(), 2);
    assert_eq!(entry.done_count(), 1);
    assert_eq!(entry.failed_count(), 1);
    assert_eq!(entry.videos[1].outcome, HistoryOutcome::Failed("boom".into()));
}

#[test]
fn from_batch_ignores_non_terminal_items() {
    let mut still_going = DownloadItem::new(video("a"));
    still_going.set_state(DownloadState::Downloading(DownloadProgress::default()));
    assert!(HistoryEntry::from_batch(&playlist(), &[still_going]).is_none());
}

#[test]
fn from_batch_returns_none_for_empty_items() {
    assert!(HistoryEntry::from_batch(&playlist(), &[]).is_none());
}

#[test]
fn single_video_batch_is_not_treated_as_playlist_drill_down() {
    let mut item = DownloadItem::new(video("solo"));
    item.set_state(DownloadState::Done);
    let mut info = playlist();
    info.is_playlist = false;
    let entry = HistoryEntry::from_batch(&info, &[item]).unwrap();
    assert!(entry.is_single_video());
}

#[test]
fn civil_from_days_matches_known_date() {
    // 2024-01-01 is 19723 days after the unix epoch.
    assert_eq!(civil_from_days(19723), (2024, 1, 1));
    // The epoch itself.
    assert_eq!(civil_from_days(0), (1970, 1, 1));
}

#[test]
fn civil_from_days_handles_leap_days_and_dates_before_the_epoch() {
    // 2024-02-29 is 19782 days after the epoch; 1969-12-31 is one before.
    assert_eq!(civil_from_days(19782), (2024, 2, 29));
    assert_eq!(civil_from_days(-1), (1969, 12, 31));
    // 2000-03-01 follows a century leap day.
    assert_eq!(civil_from_days(11017), (2000, 3, 1));
}

#[test]
fn format_unix_utc_renders_date_and_time() {
    assert_eq!(format_unix_utc(1_704_067_200), "2024-01-01 00:00 UTC");
    assert_eq!(format_unix_utc(1_709_217_000), "2024-02-29 14:30 UTC");
    assert_eq!(format_unix_utc(0), "1970-01-01 00:00 UTC");
}

#[test]
fn finished_at_label_uses_utc_format() {
    let mut item = DownloadItem::new(video("a"));
    item.set_state(DownloadState::Done);
    let mut entry = HistoryEntry::from_batch_at(&playlist(), &[item], "id".to_string(), 0).unwrap();
    entry.finished_at = 1_704_067_200;
    assert_eq!(entry.finished_at_label(), "2024-01-01 00:00 UTC");
}

#[test]
fn from_batch_at_keeps_order_and_metadata() {
    let mut a = DownloadItem::new(video("a"));
    a.set_state(DownloadState::Skipped);
    let b = DownloadItem::new(video("b"));
    let mut c = DownloadItem::new(video("c"));
    c.set_state(DownloadState::Cancelled);
    let entry =
        HistoryEntry::from_batch_at(&playlist(), &[a, b, c], "42-7".to_string(), 42).unwrap();
    assert_eq!(entry.id, "42-7");
    assert_eq!(entry.finished_at, 42);
    assert_eq!(entry.title, "My Playlist");
    assert_eq!(entry.source_url, "https://example.com/list");
    let titles: Vec<&str> = entry.videos.iter().map(|v| v.title.as_str()).collect();
    assert_eq!(titles, vec!["a", "c"]);
    assert_eq!(entry.videos[0].outcome, HistoryOutcome::Skipped);
    assert_eq!(entry.videos[1].outcome, HistoryOutcome::Cancelled);
    assert_eq!(entry.done_count(), 0);
}

#[test]
fn outcome_labels_and_sizes() {
    assert_eq!(HistoryOutcome::Done.label(), "Done");
    assert_eq!(HistoryOutcome::Failed("x".into()).label(), "Failed");
    let v = HistoryVideoEntry {
        title: "t".into(),
        uploader: None,
        duration_secs: Some(125),
        filesize_bytes: Some(5 * 1024 * 1024),
        url: "u".into(),
        outcome: HistoryOutcome::Done,
    };
    assert_eq!(v.size_label(), "5.0MiB");
    assert_eq!(v.duration_label(), "2:05");
    let unknown = HistoryVideoEntry { filesize_bytes: None, duration_secs: None, ..v };
    assert_eq!(unknown.size_label(), "--");
    assert_eq!(unknown.duration_label(), "--:--");
}

#[test]
fn unique_id_joins_seconds_and_nanoseconds() {
    assert_eq!(unique_id_at(1700000000, 123), "1700000000-123");
    assert_eq!(unique_id_at(0, 0), "0-0");
}

#[test]
fn history_lives_in_the_data_directory() {
    assert_eq!(
        history_path_in(Some("/home/u/.local/share/vidsave".to_string()), false),
        Some("/home/u/.local/share/vidsave/history.json".to_string())
    );
    assert_eq!(history_path_in(None, false), None);
    assert_eq!(
        history_path_in(Some("C:\\Users\\u\\AppData\\Roaming\\ytb-dl-tui\\data".to_string()), true),
        Some("C:\\Users\\u\\AppData\\Roaming\\ytb-dl-tui\\data\\history.json".to_string())
    );
}

#[test]
fn pushing_entries_keeps_newest_first_and_caps_the_list() {
    let mut item = DownloadItem::new(video("a"));
    item.set_state(DownloadState::Done);
    let make = |id: u64| {
        HistoryEntry::from_batch_at(&playlist(), &[DownloadItem { state: DownloadState::Done, ..DownloadItem::new(video("a")) }], id.to_string(), id)
            .unwrap()
    };
    let mut entries = Vec::new();
    for id in 0..(MAX_ENTRIES as u64 + 5) {
        push_entry(&mut entries, make(id));
    }
    assert_eq!(entries.len(), MAX_ENTRIES);
    assert_eq!(entries[0].id, (MAX_ENTRIES as u64 + 4).to_string());
    assert_eq!(entries[MAX_ENTRIES - 1].id, "5");
    drop(item);
}

#[test]
fn the_app_is_looked_up_under_its_own_name() {
    assert_eq!(vidsave_core::config::app_identity(), ("dev", "ytb-dl-tui", "ytb-dl-tui"));
}
