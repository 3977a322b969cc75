use vidsave_core::config::Settings;
use vidsave_core::downloader::DownloadEvent;
use vidsave_core::models::{DownloadProgress, DownloadState, PlaylistInfo, Video};
use vidsave_core::session::{
    apply_event, batch_settings, filtered_video_indices, invert_selection_at, matching_indices,
    new_items, prepare_batch, selected_count, selected_videos, set_selection_at,
    toggle_selected, BatchError,
};

fn video(id: &str, title: &str, uploader: Option<&str>) -> Video {
    Video {
        id: id.into(),
        title: title.into(),
        uploader: uploader.map(|u| u.to_string()),
        duration_secs: None,
        playlist_index: None,
        url: format!("https://example.com/{id}"),
        filesize_bytes: None,
    }
}

fn playlist() -> PlaylistInfo {
    PlaylistInfo {
        title: "Mix: Best/Of".into(),
        uploader: None,
        videos: vec![
            video("a", "Rust Tutorial", Some("Ferris")),
            video("b", "Cooking Pasta", Some("Chef RUST")),
            video("c", "Gardening", None),
        ],
        is_playlist: true,
        source_url: "u".into(),
    }
}

#[test]
fn filter_matches_title_or_uploader_ignoring_case() {
    let p = playlist();
    assert_eq!(filtered_video_indices(Some(&p), "  rust "), vec![0, 1]);
    assert_eq!(filtered_video_indices(Some(&p), "GARDEN"), vec![2]);
    assert_eq!(filtered_video_indices(Some(&p), "   "), vec![0, 1, 2]);
    assert_eq!(filtered_video_indices(None, "x"), Vec::<usize>::new());
    assert_eq!(filtered_video_indices(Some(&p), "zzz"), Vec::<usize>::new());
}

#[test]
fn matching_indices_on_lowercased_text() {
    let lowered = vec![("abc".to_string(), None), ("xyz".to_string(), Some("abc".to_string()))];
    assert_eq!(matching_indices(&lowered, "bc"), vec![0, 1]);
    assert_eq!(matching_indices(&lowered, "y"), vec![1]);
}

#[test]
fn selection_operations() {
    let mut sel = vec![true, false, true];
    toggle_selected(&mut sel, 1);
    assert_eq!(sel, vec![true, true, true]);
    toggle_selected(&mut sel, 7);
    assert_eq!(sel, vec![true, true, true]);
    set_selection_at(&mut sel, &vec![0, 2, 9], false);
    assert_eq!(sel, vec![false, true, false]);
    invert_selection_at(&mut sel, &vec![1, 2]);
    assert_eq!(sel, vec![false, false, true]);
    assert_eq!(selected_count(&sel), 1);
}

#[test]
fn batch_takes_selected_videos_into_a_playlist_folder() {
    let p = playlist();
    let settings = Settings { output_dir: "/media".into(), ..Settings::default() };
    let picked = selected_videos(&p.videos, &vec![false, true]);
    assert_eq!(picked.len(), 1);
    assert_eq!(picked[0].id, "b");
    assert_eq!(batch_settings(&settings, &p, false).output_dir, "/media/Mix_ Best_Of");
    let lone = PlaylistInfo { is_playlist: false, ..playlist() };
    assert_eq!(batch_settings(&settings, &lone, false).output_dir, "/media");

    let batch = prepare_batch(true, Some(&p), &vec![true, false, true], &settings, false).unwrap().unwrap();
    assert_eq!(batch.videos.len(), 2);
    assert_eq!(batch.settings.output_dir, "/media/Mix_ Best_Of");
    assert_eq!(
        prepare_batch(true, Some(&p), &vec![false, false, false], &settings, false).unwrap_err(),
        BatchError::NothingSelected
    );
    assert_eq!(prepare_batch(false, Some(&p), &vec![true], &settings, false).unwrap_err(), BatchError::NoYtDlp);
    assert!(prepare_batch(true, None, &vec![true], &settings, false).unwrap().is_none());
    assert_eq!(BatchError::NothingSelected.message(), "Select at least one video first");
}

#[test]
fn events_fold_into_rows_and_complete_the_batch_once() {
    let p = playlist();
    let mut items = new_items(&p.videos[..2].to_vec());
    let mut done = false;
    assert!(!apply_event(&mut items, &mut done, DownloadEvent::Started(0)));
    assert_eq!(items[0].state, DownloadState::Starting);
    let progress = DownloadProgress { percent_tenths: 500, ..DownloadProgress::default() };
    apply_event(&mut items, &mut done, DownloadEvent::Progress(0, progress.clone()));
    assert_eq!(items[0].last_progress, Some(progress));
    apply_event(&mut items, &mut done, DownloadEvent::Log(0, "line".into()));
    assert_eq!(items[0].log, vec!["line".to_string()]);
    assert!(!apply_event(&mut items, &mut done, DownloadEvent::Finished(0, Ok(()))));
    assert!(!apply_event(&mut items, &mut done, DownloadEvent::Paused(1)));
    assert!(!done);
    assert!(apply_event(&mut items, &mut done, DownloadEvent::Finished(1, Err("boom".into()))));
    assert!(done);
    assert_eq!(items[1].state, DownloadState::Failed("boom".into()));
    // Further terminal events never complete the batch a second time.
    assert!(!apply_event(&mut items, &mut done, DownloadEvent::Cancelled(1)));
    // Events for rows that do not exist change nothing.
    assert!(!apply_event(&mut items, &mut done, DownloadEvent::Started(9)));
}

#[test]
fn inverting_the_same_videos_twice_restores_the_selection() {
    let start = vec![true, false, false, true, false];
    let mut sel = start.clone();
    let indices = vec![4, 1, 3, 1];
    invert_selection_at(&mut sel, &indices);
    assert_eq!(sel, vec![true, false, false, false, true]);
    invert_selection_at(&mut sel, &indices);
    assert_eq!(sel, start);
}

#[test]
fn selecting_the_same_videos_twice_changes_nothing() {
    let mut sel = vec![false, true, false];
    let indices = vec![2, 0, 9];
    set_selection_at(&mut sel, &indices, true);
    assert_eq!(sel, vec![true, true, true]);
    set_selection_at(&mut sel, &indices, true);
    assert_eq!(sel, vec![true, true, true]);
}

#[test]
fn playlist_folder_is_joined_the_windows_way_on_windows() {
    let p = playlist();
    let settings = Settings { output_dir: "C:\\media".into(), ..Settings::default() };
    assert_eq!(batch_settings(&settings, &p, true).output_dir, "C:\\media\\Mix_ Best_Of");
}
