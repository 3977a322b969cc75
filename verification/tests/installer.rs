use vidsave_core::installer::extract::{
    archive_kind, extraction_root, find_file_by_name, install_from_archive,
    install_many_from_archive, not_found_message, ArchiveKind, ExtractError, FoundFile,
};
use vidsave_core::installer::install_logic::{
    archive_targets, check_tool, create_failed, event_line, exit_code, resolve_failed,
    silent_components, Components, InstallEvent, InstallRun, InstallTask, Stage, Status,
    TaskResult, ToolCheck,
};
use vidsave_core::installer::location::{install_dir_unix, install_dir_windows};
use vidsave_core::installer::path_env::{
    dir_on_path, path_block, profile_contents, same_path, windows_path_value, PathAction, RcUpdate,
};
use vidsave_core::installer::python_runtime::{download_url_for, python_exe_path_for};
use vidsave_core::installer::shortcut::{desktop_entry, icon_path, url_shortcut};
use vidsave_core::installer::tools::Tool;
use vidsave_core::installer::wizard::{log_line, Effect, Message, Screen, WizardState};
use vidsave_core::screens::Shade;

#[test]
fn tool_names_and_sources() {
    assert_eq!(Tool::Deno.display_name(), "deno (JS runtime)");
    assert_eq!(Tool::Ffmpeg.exe_filename_for(true), "ffmpeg.exe");
    assert_eq!(Tool::Deno.exe_filename_for(false), "deno");
    assert_eq!(Tool::Ffmpeg.companion_exe_filename_for(false), Some("ffprobe".to_string()));
    assert_eq!(Tool::Deno.companion_exe_filename_for(true), None);
    assert_eq!(Tool::Ffmpeg.version_args(), vec!["-version"]);
    assert!(!Tool::Deno.required());
    assert!(Tool::Ffmpeg.download_url_for(false).ends_with(".tar.xz"));
    assert_eq!(Tool::ALL, [Tool::Deno]);
}

#[test]
fn python_runtime_layout() {
    assert_eq!(python_exe_path_for("/i/python-runtime", false), "/i/python-runtime/bin/python3");
    assert_eq!(python_exe_path_for("C:\\i\\python-runtime", true), "C:\\i\\python-runtime\\python.exe");
    assert!(download_url_for(true).contains("windows-msvc"));
}

#[test]
fn archives_are_recognized_by_their_ending() {
    assert_eq!(archive_kind("https://x/a.zip"), Some(ArchiveKind::Zip));
    assert_eq!(archive_kind("https://x/a.tar.xz"), Some(ArchiveKind::TarXz));
    assert_eq!(archive_kind("https://x/a.tgz"), Some(ArchiveKind::TarGz));
    assert_eq!(archive_kind("https://x/a.rar"), None);
    let plan = install_from_archive("https://x/deno.zip", "deno", "/i/deno").unwrap();
    assert_eq!(plan.kind, ArchiveKind::Zip);
    assert_eq!(plan.targets, vec![("deno".to_string(), "/i/deno".to_string())]);
    let err = install_from_archive("https://x/deno.7z", "deno", "/i/deno").unwrap_err();
    assert_eq!(
        err.message(),
        "don't know how to extract https://x/deno.7z (unrecognized extension)"
    );
    assert_eq!(err, ExtractError::UnknownExtension("https://x/deno.7z".into()));
    assert!(install_many_from_archive("https://x/a.rar", vec![]).unwrap().is_none());
}

#[test]
fn the_largest_file_of_the_wanted_name_wins() {
    let f = |path: &str, name: Option<&str>, size| FoundFile {
        path: path.into(),
        name: name.map(|n| n.to_string()),
        size,
    };
    let files = vec![
        f("/s/doc/ffmpeg", Some("ffmpeg"), 10),
        f("/s/bin/ffmpeg", Some("ffmpeg"), 90_000),
        f("/s/bin/ffprobe", Some("ffprobe"), 80_000),
        f("/s/other/ffmpeg", Some("ffmpeg"), 90_000),
    ];
    assert_eq!(find_file_by_name(&files, "ffmpeg"), Some("/s/bin/ffmpeg".to_string()));
    assert_eq!(find_file_by_name(&files, "deno"), None);
    assert_eq!(
        not_found_message("deno"),
        "could not find a file named 'deno' inside the downloaded archive"
    );
    assert_eq!(extraction_root("/s", &vec![("/s/python".into(), true)]), "/s/python");
    assert_eq!(extraction_root("/s", &vec![("/s/a".into(), true), ("/s/b".into(), true)]), "/s");
}

#[test]
fn paths_compare_by_components() {
    assert!(same_path("/home/u/.local/share/playloader/", "/home/u/.local/share/playloader"));
    assert!(same_path("/a//b/./c", "/a/b/c"));
    assert!(!same_path("a/b", "/a/b"));
    assert!(!same_path("./a", "a"));
    let entries = vec!["/usr/bin".to_string(), "/opt/x/".to_string()];
    assert!(dir_on_path(&entries, "/opt/x"));
    assert!(!dir_on_path(&entries, "/opt/y"));
}

#[test]
fn shell_files_get_the_block_once() {
    assert_eq!(
        path_block("/opt/vs"),
        "\n# >>> VidSave PATH >>>\nexport PATH=\"/opt/vs:$PATH\"\n# <<< VidSave PATH <<<\n"
    );
    assert_eq!(profile_contents("/opt/vs"), path_block("/opt/vs").trim_start());
    let mut rc = RcUpdate::new();
    assert!(!rc.visit(None));
    assert!(rc.visit(Some("alias ll='ls -l'\n")));
    rc.appended("/h/.zshrc".into());
    assert!(!rc.visit(Some("# >>> VidSave PATH >>>\n")));
    assert_eq!(rc.finish("/h/.profile"), (false, PathAction::Added("/h/.zshrc".into())));

    let mut set_up = RcUpdate::new();
    set_up.visit(Some("# >>> VidSave PATH >>>"));
    assert_eq!(set_up.finish("/h/.profile"), (false, PathAction::AlreadyPresent));

    let none = RcUpdate::new();
    assert_eq!(none.finish("/h/.profile"), (true, PathAction::Added("/h/.profile".into())));
}

#[test]
fn windows_path_value_appends_after_trailing_separators() {
    assert_eq!(windows_path_value("C:\\a;C:\\b;;", "C:\\vs"), "C:\\a;C:\\b;C:\\vs");
    assert_eq!(windows_path_value(";;", "C:\\vs"), "C:\\vs");
}

#[test]
fn install_locations_and_shortcuts() {
    assert_eq!(install_dir_unix("/home/u"), "/home/u/.local/share/playloader");
    assert_eq!(install_dir_windows("C:\\Users\\u\\AppData\\Local"), "C:\\Users\\u\\AppData\\Local\\Programs\\Playloader");
    assert_eq!(icon_path(Some("/i")), "/i/icon.png");
    assert_eq!(icon_path(None), "");
    assert_eq!(
        url_shortcut("C:\\i\\vidsave.exe"),
        "[InternetShortcut]\r\nURL=file:///C:/i/vidsave.exe\r\nIconFile=C:\\i\\vidsave.exe\r\nIconIndex=0\r\n"
    );
    let entry = desktop_entry("/i/vidsave", "/i/icon.png");
    assert!(entry.starts_with("[Desktop Entry]\nType=Application\nName=VidSave\n"));
    assert!(entry.contains("Exec=\"/i/vidsave\"\nIcon=/i/icon.png\n"));
}

#[test]
fn install_sequence_runs_every_step_in_order() {
    let (mut run, first) = InstallRun::begin(Components { tui: true, gui: true }, "/i".into(), false);
    assert!(matches!(first, InstallEvent::Step(ref s) if s == "Installing to: /i"));
    let mut stages = Vec::new();
    while let Some((heading, task)) = run.task() {
        stages.push(run.stage);
        let result = match task {
            InstallTask::InstallApp { .. } => TaskResult::App(Ok(())),
            InstallTask::EnsureYtdlp => TaskResult::Ytdlp(Err("no network".into())),
            InstallTask::EnsureFfmpeg => TaskResult::Tool(Err("404".into())),
            InstallTask::EnsureTool(_) => TaskResult::Tool(Ok(Status::AlreadyOnPath("/usr/bin/deno".into()))),
            InstallTask::EnsurePath => TaskResult::Path(Ok(PathAction::Added("/h/.bashrc".into()))),
            InstallTask::CreateShortcut { gui_exe } => {
                assert_eq!(gui_exe, "/i/vidsave");
                TaskResult::Shortcut { icon: Err("read-only".into()), shortcut: Ok("/h/vs.desktop".into()) }
            }
        };
        let events = run.record(result);
        if let InstallEvent::Step(h) = heading {
            if h == "ffmpeg" {
                assert!(matches!(&events[0], InstallEvent::Warning(w)
                    if w == "FAILED: 404  (not required -- reduced features without it)"));
            }
            if h == "Application shortcut" {
                assert_eq!(events.len(), 2);
            }
        }
    }
    assert_eq!(
        stages,
        vec![Stage::Tui, Stage::Gui, Stage::Ytdlp, Stage::Ffmpeg, Stage::Tool(0), Stage::Path, Stage::Shortcut]
    );
    let outcome = run.outcome();
    assert!(!outcome.success);
    assert!(outcome.needs_new_terminal);
    assert!(outcome.gui_shortcut_created);
    assert_eq!(exit_code(&outcome), 1);
}

#[test]
fn optional_failures_keep_the_install_successful() {
    let (mut run, _) = InstallRun::begin(Components { tui: false, gui: false }, "/i".into(), true);
    assert_eq!(run.stage, Stage::Ytdlp);
    run.record(TaskResult::Ytdlp(Ok(true)));
    run.record(TaskResult::Tool(Err("x".into())));
    run.record(TaskResult::Tool(Err("y".into())));
    // A result of the wrong kind is ignored.
    assert!(run.record(TaskResult::App(Ok(()))).is_empty());
    run.record(TaskResult::Path(Err("z".into())));
    assert!(run.task().is_none());
    assert!(run.outcome().success);
    assert_eq!(exit_code(&run.outcome()), 0);
}

#[test]
fn setup_failures_and_silent_mode() {
    let (e, o) = resolve_failed("$HOME is not set");
    assert!(matches!(e, InstallEvent::Warning(ref w) if w == "Could not determine where to install: $HOME is not set"));
    assert!(!o.success);
    let (e, o) = create_failed("/i", "denied");
    assert!(matches!(e, InstallEvent::Warning(ref w) if w == "Could not create /i: denied"));
    assert_eq!(o.install_dir, "/i");
    let args: Vec<String> = ["installer", "--silent", "--no-gui"].iter().map(|s| s.to_string()).collect();
    assert_eq!(silent_components(&args), Some(Components { tui: true, gui: false }));
    assert_eq!(silent_components(&vec!["installer".to_string()]), None);
    assert_eq!(event_line(&InstallEvent::Step("PATH".into())), ("-- PATH --".to_string(), false));
    assert_eq!(event_line(&InstallEvent::Warning("w".into())), ("   w".to_string(), true));
}

#[test]
fn tool_checks_prefer_path_then_install_dir() {
    assert!(matches!(check_tool(Some("/usr/bin/ffmpeg".into()), "/i/ffmpeg", true),
        ToolCheck::Found(Status::AlreadyOnPath(ref p)) if p == "/usr/bin/ffmpeg"));
    assert!(matches!(check_tool(None, "/i/ffmpeg", true),
        ToolCheck::Found(Status::AlreadyInstalled(ref p)) if p == "/i/ffmpeg"));
    assert!(matches!(check_tool(None, "/i/ffmpeg", false), ToolCheck::Download));
    assert_eq!(
        archive_targets("/i", Tool::Ffmpeg, false),
        vec![("ffmpeg".to_string(), "/i/ffmpeg".to_string()), ("ffprobe".to_string(), "/i/ffprobe".to_string())]
    );
}

#[test]
fn wizard_walks_from_welcome_to_finish() {
    let mut w = WizardState::new();
    assert!(matches!(w.update(Message::NextPressed, false), Effect::Nothing));
    assert_eq!(w.screen, Screen::Components);
    w.update(Message::ToggleTui(false), false);
    w.update(Message::ToggleGui(false), false);
    assert!(!w.can_continue());
    assert_eq!(w.components_warning(), Some("Pick at least one to continue."));
    assert!(matches!(w.update(Message::NextPressed, false), Effect::Nothing));
    w.update(Message::ToggleGui(true), false);
    assert!(matches!(w.update(Message::NextPressed, false),
        Effect::BeginInstall(Components { tui: false, gui: true })));
    assert_eq!(w.screen, Screen::Installing);
    w.update(Message::InstallProgress(InstallEvent::Detail("x".into())), false);
    assert_eq!(w.log.len(), 1);
    let (_, outcome) = create_failed("/i", "e");
    w.update(Message::InstallFinished(outcome), false);
    assert_eq!(w.screen, Screen::Finish);
    let page = w.finish_page().unwrap();
    assert_eq!(page.headline, "Finished with some problems -- see the log above.");
    assert_eq!(page.headline_shade, Shade::Yellow);
    assert!(page.notes.is_empty());
    assert!(!page.can_launch);
    assert!(matches!(w.update(Message::LaunchGuiPressed, false), Effect::Launch(ref p) if p == "/i/vidsave"));
    assert!(matches!(w.update(Message::FinishPressed, false), Effect::Exit));
}

#[test]
fn finish_page_after_a_successful_install() {
    let mut w = WizardState::new();
    assert!(w.finish_page().is_none());
    w.update(Message::ToggleTui(true), false);
    w.update(Message::ToggleGui(true), false);
    assert_eq!(w.components_warning(), None);
    w.update(
        Message::InstallFinished(vidsave_core::installer::install_logic::InstallOutcome {
            success: true,
            install_dir: "/i".into(),
            needs_new_terminal: true,
            gui_shortcut_created: true,
        }),
        false,
    );
    let page = w.finish_page().unwrap();
    assert_eq!(page.headline, "Done -- ytb-dl-tui is installed.");
    assert_eq!(
        page.notes,
        vec![
            "Open a NEW terminal window and run:  ytb_dl_tui",
            "A shortcut was added to your Start Menu / app launcher."
        ]
    );
    assert!(page.can_launch);
}

#[test]
fn wizard_log_lines() {
    assert_eq!(log_line(&InstallEvent::Step("Python".into())), ("Python".to_string(), Shade::Plain));
    assert_eq!(log_line(&InstallEvent::Detail("ok".into())), ("    ok".to_string(), Shade::Gray));
    assert_eq!(log_line(&InstallEvent::Warning("no".into())), ("    no".to_string(), Shade::Yellow));
}
