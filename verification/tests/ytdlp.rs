use vidsave_core::config::Settings;
use vidsave_core::json::{parse_json, round_number, JsonNumber, JsonValue};
use vidsave_core::models::{AudioFormat, MediaMode, Video, VideoContainer, VideoQuality};
use vidsave_core::settings_fields::SettingsField;
use vidsave_core::ytdlp::{
    build_download_args, build_download_args_with_archive, bundled_python_path, human_bytes,
    human_duration, parse_bytes, parse_playlist_json, parse_progress_line,
    playlist_from_stdout, render_filename_template, resolve_js_runtime, JsRuntime, PlaylistError, ProgressLine,
    DL_MARKER, PP_MARKER,
};

#[test]
fn parses_downloading_progress_line() {
    let line = format!("{DL_MARKER}downloading\t25000\t100000\t100000\t51200\t75");
    match parse_progress_line(&line) {
        ProgressLine::Downloading(p) => {
            assert_eq!(p.percent_tenths, 250);
            assert_eq!(p.downloaded_bytes, Some(25000));
            assert_eq!(p.total_bytes, Some(100000));
            assert_eq!(p.speed.as_deref(), Some("50.0KiB/s"));
        }
        other => panic!("expected Downloading, got {other:?}"),
    }
}

#[test]
fn falls_back_to_total_bytes_estimate_when_total_bytes_is_na() {
    let line = format!("{DL_MARKER}downloading\t1000\tNA\t4000\tNA\tNA");
    match parse_progress_line(&line) {
        ProgressLine::Downloading(p) => {
            assert_eq!(p.total_bytes, Some(4000));
            assert_eq!(p.speed, None);
            assert_eq!(p.eta, None);
        }
        other => panic!("expected Downloading, got {other:?}"),
    }
}

#[test]
fn recognizes_finished_and_postprocess_markers() {
    let finished = format!("{DL_MARKER}finished\t100\t100\t100\t0\t0");
    assert_eq!(parse_progress_line(&finished), ProgressLine::Finished);

    let pp = format!("{PP_MARKER}started");
    assert_eq!(parse_progress_line(&pp), ProgressLine::PostProcessing);
}

#[test]
fn plain_log_lines_pass_through_as_other() {
    assert_eq!(parse_progress_line("[youtube] Extracting URL"), ProgressLine::Other);
}

#[test]
fn human_bytes_formats_units() {
    assert_eq!(human_bytes(512), "512B");
    assert_eq!(human_bytes(2048), "2.0KiB");
    assert_eq!(human_bytes(5 * 1024 * 1024), "5.0MiB");
}

#[test]
fn human_bytes_rounds_to_one_decimal() {
    assert_eq!(human_bytes(1023), "1023B");
    assert_eq!(human_bytes(1024), "1.0KiB");
    assert_eq!(human_bytes(1536), "1.5KiB");
    assert_eq!(human_bytes(3 * 1024 * 1024 * 1024), "3.0GiB");
    assert_eq!(human_duration(3725), "1:02:05");
    assert_eq!(human_duration(59), "0:59");
}

#[test]
fn byte_counts_parse_like_floats_rounded() {
    assert_eq!(parse_bytes("25000"), Some(25000));
    assert_eq!(parse_bytes("1024.6"), Some(1025));
    assert_eq!(parse_bytes("NA"), None);
    assert_eq!(parse_bytes("-5"), Some(0));
}

fn num(n: u64) -> JsonValue {
    JsonValue::Number(JsonNumber { as_u64: Some(n), text: n.to_string() })
}

fn s(v: &str) -> JsonValue {
    JsonValue::Str(v.to_string())
}

fn obj(entries: Vec<(&str, JsonValue)>) -> JsonValue {
    JsonValue::Object(entries.into_iter().map(|(k, v)| (k.to_string(), v)).collect())
}

fn sample_video(id: &str, index: u64) -> JsonValue {
    obj(vec![
        ("id", s(id)),
        ("title", s(&format!("Video {id}"))),
        ("uploader", s("Some Channel")),
        ("duration", num(100)),
        ("playlist_index", num(index)),
    ])
}

fn ids(videos: &[Video]) -> Vec<&str> {
    videos.iter().map(|v| v.id.as_str()).collect()
}

#[test]
fn parses_playlist_with_null_entries_filtered_out() {
    let root = obj(vec![
        ("title", s("My Playlist")),
        ("uploader", s("Some Channel")),
        (
            "entries",
            JsonValue::Array(vec![sample_video("a", 1), JsonValue::Null, sample_video("b", 3)]),
        ),
    ]);
    let settings = Settings::default();
    let playlist = parse_playlist_json(&root, &settings).unwrap();
    assert_eq!(playlist.title, "My Playlist");
    assert_eq!(playlist.videos.len(), 2);
    assert_eq!(playlist.videos[0].id, "a");
    assert_eq!(playlist.videos[1].id, "b");
}

#[test]
fn parses_single_video_without_entries_array() {
    let root = sample_video("solo", 1);
    let settings = Settings::default();
    let playlist = parse_playlist_json(&root, &settings).unwrap();
    assert_eq!(playlist.videos.len(), 1);
    assert_eq!(playlist.videos[0].id, "solo");
}

#[test]
fn playlist_start_end_range_filters_by_index() {
    let settings = Settings { playlist_start: Some(2), playlist_end: Some(3), ..Settings::default() };
    let root = obj(vec![
        ("title", s("Ranged")),
        (
            "entries",
            JsonValue::Array(vec![
                sample_video("a", 1),
                sample_video("b", 2),
                sample_video("c", 3),
                sample_video("d", 4),
            ]),
        ),
    ]);
    let playlist = parse_playlist_json(&root, &settings).unwrap();
    assert_eq!(ids(&playlist.videos), vec!["b", "c"]);
}

#[test]
fn playlist_reverse_flips_order() {
    let settings = Settings { playlist_reverse: true, ..Settings::default() };
    let root = obj(vec![
        ("title", s("Reversed")),
        ("entries", JsonValue::Array(vec![sample_video("a", 1), sample_video("b", 2)])),
    ]);
    let playlist = parse_playlist_json(&root, &settings).unwrap();
    assert_eq!(ids(&playlist.videos), vec!["b", "a"]);
}

#[test]
fn document_without_videos_is_an_error() {
    let root = obj(vec![("title", s("Empty")), ("entries", JsonValue::Array(vec![]))]);
    let err = parse_playlist_json(&root, &Settings::default()).unwrap_err();
    assert_eq!(err, PlaylistError::NoVideos);
}

fn plain_video(index: Option<u64>) -> Video {
    Video {
        id: "abc".into(),
        title: "T".into(),
        uploader: None,
        duration_secs: None,
        playlist_index: index,
        url: "https://example.com/watch?v=abc".into(),
        filesize_bytes: None,
    }
}

#[test]
fn build_download_args_selects_audio_extraction_when_audio_only() {
    let settings = Settings {
        media_mode: MediaMode::AudioOnly,
        audio_format: AudioFormat::Mp3,
        ..Settings::default()
    };
    let video = plain_video(None);
    let args = build_download_args(&video, &settings, None, None);
    assert!(args.iter().any(|a| a == "-x"));
    assert!(args.windows(2).any(|w| w == ["--audio-format", "mp3"]));
    assert!(!args.iter().any(|a| a == "-f"));
}

#[test]
fn build_download_args_caps_video_height_when_quality_set() {
    let settings = Settings { video_quality: VideoQuality::P720, ..Settings::default() };
    let video = plain_video(None);
    let args = build_download_args(&video, &settings, None, None);
    let format_arg = args
        .windows(2)
        .find(|w| w[0] == "-f")
        .map(|w| w[1].clone())
        .expect("expected a -f argument");
    assert!(format_arg.contains("height<=720"));
}

#[test]
fn build_download_args_passes_ffmpeg_location_when_given() {
    let settings = Settings::default();
    let video = plain_video(None);
    let args = build_download_args(&video, &settings, Some("/opt/tools/ffmpeg"), None);
    assert!(args
        .windows(2)
        .any(|w| w[0] == "--ffmpeg-location" && w[1] == "/opt/tools/ffmpeg"));
}

#[test]
fn build_download_args_points_at_the_js_runtime_and_archive() {
    let settings = Settings { use_download_archive: true, ..Settings::default() };
    let video = plain_video(None);
    let js = JsRuntime { name: "node", path: "/usr/bin/node".to_string() };
    let args = build_download_args_with_archive(&video, &settings, None, Some(&js), "/data/archive.txt", false);
    assert!(args.windows(2).any(|w| w[0] == "--js-runtimes" && w[1] == "node:/usr/bin/node"));
    assert!(args
        .windows(2)
        .any(|w| w[0] == "--download-archive" && w[1] == "/data/archive.txt"));
    assert_eq!(args.last().unwrap(), "https://example.com/watch?v=abc");
}

#[test]
fn render_filename_template_uses_index_for_playlist_entries() {
    let mut video = plain_video(Some(15));
    video.id = "a".into();
    video.url = "u".into();
    assert_eq!(
        render_filename_template("{index}%(title)s.%(ext)s", &video),
        "15 - %(title)s.%(ext)s"
    );
}

#[test]
fn render_filename_template_omits_index_for_lone_video() {
    let mut video = plain_video(None);
    video.id = "a".into();
    video.url = "u".into();
    assert_eq!(render_filename_template("{index}%(title)s.%(ext)s", &video), "%(title)s.%(ext)s");
}

#[test]
fn duplicate_titled_playlist_entries_get_distinct_output_filenames() {
    let settings = Settings::default();
    let make = |index| Video {
        id: "dup".into(),
        title: "Same Title".into(),
        uploader: None,
        duration_secs: None,
        playlist_index: Some(index),
        url: "u".into(),
        filesize_bytes: None,
    };
    let args_a = build_download_args(&make(3), &settings, None, None);
    let args_b = build_download_args(&make(9), &settings, None, None);
    let output_path = |args: &[String]| {
        args.windows(2)
            .find(|w| w[0] == "-o")
            .map(|w| w[1].clone())
            .expect("expected a -o argument")
    };
    assert_ne!(output_path(&args_a), output_path(&args_b));
}

#[test]
fn single_video_json_without_playlist_index_field_has_none_index() {
    let root = obj(vec![("id", s("solo2")), ("title", s("Solo Video"))]);
    let settings = Settings::default();
    let playlist = parse_playlist_json(&root, &settings).unwrap();
    assert_eq!(playlist.videos[0].playlist_index, None);
    assert!(!playlist.is_playlist);
}

#[test]
fn js_runtime_prefers_deno_then_node_then_bun() {
    let js = resolve_js_runtime(vec![None, Some("/usr/bin/node".into()), Some("/usr/bin/bun".into())])
        .unwrap();
    assert_eq!(js.name, "node");
    assert_eq!(js.to_arg(), "node:/usr/bin/node");
    assert!(resolve_js_runtime(vec![None, None, None]).is_none());
}

#[test]
fn bundled_python_location_depends_on_platform() {
    assert_eq!(bundled_python_path("/opt/app", false), "/opt/app/python-runtime/bin/python3");
    assert_eq!(bundled_python_path("C:\\app", true), "C:\\app\\python-runtime\\python.exe");
}

#[test]
fn output_path_uses_the_windows_separator_on_windows() {
    let settings = Settings { output_dir: "C:\\Users\\u\\Videos\\vidsave".into(), ..Settings::default() };
    let video = plain_video(Some(3));
    let args = build_download_args_with_archive(&video, &settings, None, None, "a", true);
    assert_eq!(args[0], "-o");
    assert!(args[1].starts_with("C:\\Users\\u\\Videos\\vidsave\\3 - "));
    let unix = Settings { output_dir: "/media".into(), ..Settings::default() };
    let args = build_download_args_with_archive(&video, &unix, None, None, "a", false);
    assert!(args[1].starts_with("/media/3 - "));
}

#[test]
fn rows_dimmed_for_the_media_mode_leave_the_arguments_alone() {
    let video = Video {
        id: "x".into(),
        title: "X".into(),
        uploader: None,
        duration_secs: None,
        playlist_index: None,
        url: "https://example.com/x".into(),
        filesize_bytes: None,
    };
    let audio = Settings { media_mode: MediaMode::AudioOnly, ..Settings::default() };
    let base = build_download_args_with_archive(&video, &audio, None, None, "/a", false);
    for field in [SettingsField::VideoQuality, SettingsField::VideoContainer, SettingsField::EmbedChapters] {
        assert!(!field.relevant_for(MediaMode::AudioOnly));
        let mut s = audio.clone();
        field.cycle(&mut s, 1);
        field.cycle(&mut s, -1);
        field.cycle(&mut s, -1);
        field.toggle(&mut s);
        assert_eq!(build_download_args_with_archive(&video, &s, None, None, "/a", false), base);
    }
    let mut changed = audio.clone();
    changed.video_quality = VideoQuality::P360;
    changed.video_container = VideoContainer::Webm;
    changed.embed_chapters = !audio.embed_chapters;
    assert_eq!(build_download_args_with_archive(&video, &changed, None, None, "/a", false), base);

    let both = Settings { media_mode: MediaMode::VideoAudio, ..Settings::default() };
    let base = build_download_args_with_archive(&video, &both, None, None, "/a", false);
    assert!(!SettingsField::AudioFormat.relevant_for(MediaMode::VideoAudio));
    let mut s = both.clone();
    SettingsField::AudioFormat.cycle(&mut s, -1);
    assert_ne!(s.audio_format, both.audio_format);
    assert_eq!(build_download_args_with_archive(&video, &s, None, None, "/a", false), base);
    s.audio_format = AudioFormat::Flac;
    assert_eq!(build_download_args_with_archive(&video, &s, None, None, "/a", false), base);
}

fn rounded(text: &str) -> Option<u64> {
    round_number(&text.chars().collect::<Vec<char>>())
}

#[test]
fn json_numbers_round_like_f64_round() {
    assert_eq!(rounded("212"), Some(212));
    assert_eq!(rounded("212.4"), Some(212));
    assert_eq!(rounded("212.5"), Some(213));
    assert_eq!(rounded("0.5"), Some(1));
    assert_eq!(rounded("0.49"), Some(0));
    assert_eq!(rounded("-3.7"), Some(0));
    assert_eq!(rounded("1.5e3"), Some(1500));
    assert_eq!(rounded("1.2345e+2"), Some(123));
    assert_eq!(rounded("2.5e-1"), Some(0));
    assert_eq!(rounded("6.5e-1"), Some(1));
    assert_eq!(rounded("5e-324"), Some(0));
    assert_eq!(rounded("1.7976931348623157e+308"), Some(u64::MAX));
    assert_eq!(rounded("18446744073709551615"), Some(u64::MAX));
    assert_eq!(rounded("abc"), None);
    assert_eq!(rounded("1.2.3"), None);
}

#[test]
fn parsed_numbers_keep_their_text() {
    match parse_json(b"[42, 123.456, -7, 1e21]").unwrap() {
        JsonValue::Array(items) => {
            let texts: Vec<(Option<u64>, Option<u64>)> =
                items.iter().map(|v| (v.as_u64(), v.as_rounded())).collect();
            assert_eq!(texts, vec![(Some(42), Some(42)), (None, Some(123)), (None, Some(0)), (None, Some(u64::MAX))]);
        }
        other => panic!("expected an array, got {other:?}"),
    }
    assert!(parse_json(b"{\"a\": ").is_err());
}

#[test]
fn yt_dlp_output_becomes_a_playlist() {
    let out = br#"{"title":"Mix","uploader":"Someone","entries":[
        {"id":"a1","title":"First","duration":61.6,"playlist_index":1},
        {"id":"b2","title":"Second","playlist_index":2}]}"#;
    let settings = Settings::default();
    let p = playlist_from_stdout("https://example.com/list", out, &settings).unwrap();
    assert_eq!(p.title, "Mix");
    assert_eq!(p.source_url, "https://example.com/list");
    assert!(p.is_playlist);
    assert_eq!(p.videos.len(), 2);
    assert_eq!(p.videos[0].duration_secs, Some(62));
    assert_eq!(p.videos[1].url, "https://www.youtube.com/watch?v=b2");
    assert_eq!(
        playlist_from_stdout("u", br#"{"title":"Empty","entries":[]}"#, &settings).unwrap_err(),
        PlaylistError::NoVideos
    );
    let err = playlist_from_stdout("u", b"ERROR: not json", &settings).unwrap_err();
    match &err {
        PlaylistError::NotJson(e) => assert!(!e.is_empty()),
        other => panic!("expected a parse failure, got {other:?}"),
    }
    assert!(err.message().starts_with("yt-dlp returned output that could not be parsed as JSON: "));
}
