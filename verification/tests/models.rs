use vidsave_core::models::{
    format_duration, sanitize_path_component, AudioFormat, DownloadItem, DownloadProgress,
    DownloadState, MediaMode, Video, VideoContainer, VideoQuality,
};

#[test]
fn sanitize_replaces_reserved_characters() {
    assert_eq!(
        sanitize_path_component("Best of: Cats/Dogs? \"Vol 1\""),
        "Best of_ Cats_Dogs_ _Vol 1_"
    );
}

#[test]
fn sanitize_trims_trailing_dots_and_spaces() {
    assert_eq!(sanitize_path_component("My Playlist. . "), "My Playlist");
}

#[test]
fn sanitize_avoids_reserved_windows_names() {
    assert_eq!(sanitize_path_component("con"), "_con");
    assert_eq!(sanitize_path_component("COM1"), "_COM1");
}

#[test]
fn sanitize_falls_back_when_empty() {
    assert_eq!(sanitize_path_component("///"), "playlist");
    assert_eq!(sanitize_path_component("   "), "playlist");
}

#[test]
fn sanitize_caps_length() {
    let long = "a".repeat(500);
    assert_eq!(sanitize_path_component(&long).chars().count(), 150);
}

#[test]
fn sanitize_replaces_control_characters_and_keeps_other_text() {
    assert_eq!(sanitize_path_component("a\tb\u{7f}c"), "a_b_c");
    assert_eq!(sanitize_path_component("  Ünïcödé  "), "Ünïcödé");
    assert_eq!(sanitize_path_component("LPT9.txt"), "LPT9.txt");
    assert_eq!(sanitize_path_component("nul"), "_nul");
}

#[test]
fn format_duration_uses_hours_only_when_needed() {
    assert_eq!(format_duration(0), "0:00");
    assert_eq!(format_duration(65), "1:05");
    assert_eq!(format_duration(3600), "1:00:00");
    assert_eq!(format_duration(3 * 3600 + 7 * 60 + 9), "3:07:09");
    assert_eq!(format_duration(600), "10:00");
}

#[test]
fn option_enums_cycle_through_every_value() {
    let mut q = VideoQuality::Best;
    let mut seen = Vec::new();
    for _ in 0..8 {
        seen.push(q);
        q = q.next();
    }
    assert_eq!(q, VideoQuality::Best);
    assert_eq!(seen.len(), 8);
    assert_eq!(VideoQuality::Best.prev(), VideoQuality::Worst);
    assert_eq!(VideoQuality::P720.next().prev(), VideoQuality::P720);
    assert_eq!(MediaMode::VideoAudio.next(), MediaMode::AudioOnly);
    assert_eq!(VideoContainer::Webm.next(), VideoContainer::Mp4);
    assert_eq!(AudioFormat::Best.next(), AudioFormat::Mp3);
    assert_eq!(VideoQuality::P1440.height_cap(), Some(1440));
    assert_eq!(VideoQuality::Worst.height_cap(), None);
    assert_eq!(AudioFormat::Best.ytdlp_name(), None);
    assert_eq!(AudioFormat::M4a.ytdlp_name(), Some("m4a"));
    assert_eq!(VideoQuality::P2160.label(), "2160p (4K)");
}

fn video(title: &str) -> Video {
    Video {
        id: title.to_string(),
        title: title.to_string(),
        uploader: None,
        duration_secs: Some(125),
        playlist_index: Some(1),
        url: format!("https://example.com/{title}"),
        filesize_bytes: None,
    }
}

#[test]
fn download_item_remembers_last_progress_and_caps_log() {
    let mut item = DownloadItem::new(video("a"));
    assert_eq!(item.state, DownloadState::Queued);
    let p = DownloadProgress { percent_tenths: 250, ..DownloadProgress::default() };
    item.set_state(DownloadState::Downloading(p.clone()));
    item.set_state(DownloadState::Paused);
    assert_eq!(item.last_progress, Some(p));
    for i in 0..205 {
        item.push_log(format!("line {i}"));
    }
    assert_eq!(item.log.len(), 200);
    assert_eq!(item.log[0], "line 5");
    assert_eq!(item.log[199], "line 204");
    assert_eq!(item.video.duration_label(), "2:05");
}

#[test]
fn download_state_labels_and_terminality() {
    let p = DownloadProgress { percent_tenths: 250, ..DownloadProgress::default() };
    assert_eq!(DownloadState::Downloading(p).label(), " 25.0%");
    let full = DownloadProgress { percent_tenths: 1000, ..DownloadProgress::default() };
    assert_eq!(DownloadState::Downloading(full).label(), "100.0%");
    assert_eq!(DownloadState::Failed("x".into()).label(), "Failed");
    assert!(DownloadState::Skipped.is_terminal());
    assert!(!DownloadState::Paused.is_terminal());
    assert_eq!(DownloadState::default(), DownloadState::Queued);
}

#[test]
fn sanitize_never_leaves_a_dot_after_the_cut() {
    let name = format!("{}.b", "a".repeat(149));
    let out = sanitize_path_component(&name);
    assert_eq!(out, "a".repeat(149));
    assert!(!out.ends_with('.'));
}

#[test]
fn option_values_step_back_as_well_as_forward() {
    assert_eq!(VideoContainer::Mp4.prev(), VideoContainer::Webm);
    assert_eq!(AudioFormat::Mp3.prev(), AudioFormat::Best);
    assert_eq!(MediaMode::AudioOnly.prev(), MediaMode::VideoAudio);
    for c in VideoContainer::ALL {
        assert_eq!(c.next().prev(), c);
    }
}
