//! The install sequence: which steps run, in which order, and what each
//! step's outcome is reported as. Every step's work (writing the app
//! binaries, fetching and checking tools, editing `PATH`, writing the
//! shortcut) happens outside the library; `InstallRun` hands out the steps
//! one by one and folds their results into progress events and the final
//! `InstallOutcome`.

use vstd::prelude::*;

use crate::installer::path_env::PathAction;
use crate::installer::tools::Tool;
use crate::paths::{join_path_on, path_join_on};
use crate::text::concat;
use crate::update_check::{exe_name_for, spec_exe_name};

verus! {

/// Which app binaries to install.
#[derive(Debug, Clone, Copy, PartialEq, Eq, Structural)]
pub struct Components {
    pub tui: bool,
    pub gui: bool,
}

/// One line of progress: `Step` starts a labeled section, `Detail` and
/// `Warning` are lines within it.
#[derive(Debug)]
pub enum InstallEvent {
    Step(String),
    Detail(String),
    Warning(String),
}

impl Clone for InstallEvent {
    fn clone(&self) -> (r: Self)
        ensures
            r == *self,
    {
        match self {
            InstallEvent::Step(s) => InstallEvent::Step(s.clone()),
            InstallEvent::Detail(s) => InstallEvent::Detail(s.clone()),
            InstallEvent::Warning(s) => InstallEvent::Warning(s.clone()),
        }
    }
}

/// An event by kind (0 step, 1 detail, 2 warning) and text.
pub open spec fn ev(e: InstallEvent) -> (int, Seq<char>) {
    match e {
        InstallEvent::Step(s) => (0, s@),
        InstallEvent::Detail(s) => (1, s@),
        InstallEvent::Warning(s) => (2, s@),
    }
}

pub open spec fn evs(es: Seq<InstallEvent>) -> Seq<(int, Seq<char>)> {
    es.map_values(|e: InstallEvent| ev(e))
}

#[derive(Debug)]
pub struct InstallOutcome {
    pub success: bool,
    pub install_dir: String,
    pub needs_new_terminal: bool,
    pub gui_shortcut_created: bool,
}

impl Clone for InstallOutcome {
    fn clone(&self) -> (r: Self)
        ensures
            r == *self,
    {
        InstallOutcome {
            success: self.success,
            install_dir: self.install_dir.clone(),
            needs_new_terminal: self.needs_new_terminal,
            gui_shortcut_created: self.gui_shortcut_created,
        }
    }
}

/// How a tool ended up available.
#[derive(Debug, PartialEq, Eq)]
pub enum Status {
    AlreadyOnPath(String),
    AlreadyInstalled(String),
    Installed(String),
}

/// An app executable's file name: the stem, plus `.exe` on Windows.
pub fn app_exe_filename_for(stem: &str, windows: bool) -> (r: String)
    ensures
        r@ == spec_exe_name(stem@, windows),
{
    exe_name_for(stem, windows)
}

/// Where the bundled Python runtime is unpacked.
pub fn runtime_dir(install_dir: &str, windows: bool) -> (r: String)
    ensures
        r@ == path_join_on(windows, install_dir@, "python-runtime"@),
{
    join_path_on(windows, install_dir, "python-runtime")
}

/// Where the vendored yt-dlp source is unpacked.
pub fn ytdlp_src_dir(install_dir: &str, windows: bool) -> (r: String)
    ensures
        r@ == path_join_on(windows, install_dir@, "yt_dlp_src"@),
{
    join_path_on(windows, install_dir, "yt_dlp_src")
}

// ---------------------------------------------------------------------------
// Before the sequence: the install directory
// ---------------------------------------------------------------------------

/// A failed install that got no further than its directory.
pub open spec fn failed_outcome(o: InstallOutcome, dir: Seq<char>) -> bool {
    !o.success && o.install_dir@ == dir && !o.needs_new_terminal && !o.gui_shortcut_created
}

/// The install directory could not be determined.
pub fn resolve_failed(error: &str) -> (r: (InstallEvent, InstallOutcome))
    ensures
        ev(r.0) == (2int, "Could not determine where to install: "@ + error@),
        failed_outcome(r.1, Seq::empty()),
{
    (
        InstallEvent::Warning(concat("Could not determine where to install: ", error)),
        InstallOutcome {
            success: false,
            install_dir: String::new(),
            needs_new_terminal: false,
            gui_shortcut_created: false,
        },
    )
}

/// The install directory could not be created.
pub fn create_failed(dir: &str, error: &str) -> (r: (InstallEvent, InstallOutcome))
    ensures
        ev(r.0) == (2int, "Could not create "@ + dir@ + ": "@ + error@),
        failed_outcome(r.1, dir@),
{
    let a = concat("Could not create ", dir);
    let b = concat(a.as_str(), ": ");
    (
        InstallEvent::Warning(concat(b.as_str(), error)),
        InstallOutcome {
            success: false,
            install_dir: String::from_str(dir),
            needs_new_terminal: false,
            gui_shortcut_created: false,
        },
    )
}

// ---------------------------------------------------------------------------
// The sequence
// ---------------------------------------------------------------------------

/// A step of the sequence.
#[derive(Debug, Clone, Copy, PartialEq, Eq, Structural)]
pub enum Stage {
    /// Write the terminal app.
    Tui,
    /// Write the desktop app.
    Gui,
    /// The bundled Python runtime and the vendored yt-dlp (required).
    Ytdlp,
    /// ffmpeg and ffprobe (optional).
    Ffmpeg,
    /// The `i`-th of `Tool::ALL` (optional).
    Tool(usize),
    /// Put the install directory on `PATH`.
    Path,
    /// The desktop app's icon and launcher.
    Shortcut,
    Done,
}

/// The first step: the terminal app if chosen, else the desktop app if
/// chosen, else straight to yt-dlp.
pub open spec fn first_stage(c: Components) -> Stage {
    if c.tui {
        Stage::Tui
    } else if c.gui {
        Stage::Gui
    } else {
        Stage::Ytdlp
    }
}

/// The step after `s`: the apps (each only if chosen), yt-dlp, ffmpeg,
/// the one tool of `Tool::ALL`, `PATH`, and the shortcut (only with the
/// desktop app).
pub open spec fn stage_after(s: Stage, c: Components) -> Stage {
    match s {
        Stage::Tui => if c.gui {
            Stage::Gui
        } else {
            Stage::Ytdlp
        },
        Stage::Gui => Stage::Ytdlp,
        Stage::Ytdlp => Stage::Ffmpeg,
        Stage::Ffmpeg => Stage::Tool(0),
        Stage::Tool(_) => Stage::Path,
        Stage::Path => if c.gui {
            Stage::Shortcut
        } else {
            Stage::Done
        },
        Stage::Shortcut => Stage::Done,
        Stage::Done => Stage::Done,
    }
}

/// What a step needs done outside.
#[derive(Debug)]
pub enum InstallTask {
    /// Write an embedded app binary to `dest` and make it executable.
    InstallApp { dest: String },
    EnsureYtdlp,
    EnsureFfmpeg,
    EnsureTool(Tool),
    EnsurePath,
    /// Write `icon.png` next to `gui_exe`, then create its launcher.
    CreateShortcut { gui_exe: String },
}

/// The outcome of a step's work.
#[derive(Debug)]
pub enum TaskResult {
    App(Result<(), String>),
    /// `Ok(true)`: the runtime was already installed.
    Ytdlp(Result<bool, String>),
    Tool(Result<Status, String>),
    Path(Result<PathAction, String>),
    /// The icon's and then the launcher's outcome (the launcher's location
    /// on success).
    Shortcut { icon: Result<(), String>, shortcut: Result<String, String> },
}

/// The install sequence in progress.
#[derive(Debug)]
pub struct InstallRun {
    pub components: Components,
    pub install_dir: String,
    pub windows: bool,
    pub stage: Stage,
    /// No required step has failed.
    pub ok: bool,
    pub needs_new_terminal: bool,
    pub gui_shortcut_created: bool,
}

/// Where an app binary goes: `ytb_dl_tui` / `vidsave` in the install
/// directory.
pub open spec fn app_dest(dir: Seq<char>, gui: bool, windows: bool) -> Seq<char> {
    path_join_on(windows, dir, spec_exe_name(if gui { "vidsave"@ } else { "ytb_dl_tui"@ }, windows))
}

/// The section heading a step starts with.
pub open spec fn stage_heading(s: Stage) -> Seq<char> {
    match s {
        Stage::Tui => "Terminal version"@,
        Stage::Gui => "Desktop app"@,
        Stage::Ytdlp => "yt-dlp (bundled Python runtime + vendored source)"@,
        Stage::Ffmpeg => "ffmpeg"@,
        Stage::Tool(_) => Tool::Deno.spec_display_name(),
        Stage::Path => "PATH"@,
        Stage::Shortcut => "Application shortcut"@,
        Stage::Done => Seq::empty(),
    }
}

/// How an optional tool's outcome is reported.
pub open spec fn tool_report(r: Result<Status, String>) -> (int, Seq<char>) {
    match r {
        Ok(Status::AlreadyOnPath(p)) => (1, "already available on PATH: "@ + p@),
        Ok(Status::AlreadyInstalled(p)) => (1, "already installed: "@ + p@),
        Ok(Status::Installed(p)) => (1, "installed: "@ + p@),
        Err(e) => (2, "FAILED: "@ + e@ + "  (not required -- reduced features without it)"@),
    }
}

/// Whether a result is the kind of result the step expects.
pub open spec fn fits(s: Stage, r: TaskResult) -> bool {
    match s {
        Stage::Tui | Stage::Gui => r is App,
        Stage::Ytdlp => r is Ytdlp,
        Stage::Ffmpeg | Stage::Tool(_) => r is Tool,
        Stage::Path => r is Path,
        Stage::Shortcut => r is Shortcut,
        Stage::Done => false,
    }
}

/// The report of a step's result, with whether it is a failure of a
/// required step (an app or yt-dlp), whether it added the directory to
/// `PATH`, and whether it created the launcher.
pub open spec fn report(s: Stage, dest: Seq<char>, r: TaskResult) -> (Seq<(int, Seq<char>)>, bool, bool, bool) {
    match r {
        TaskResult::App(Ok(())) => (seq![(1int, "installed: "@ + dest)], false, false, false),
        TaskResult::App(Err(e)) => (seq![(2int, "FAILED: "@ + e@)], true, false, false),
        TaskResult::Ytdlp(Ok(true)) => (seq![(1int, "already installed"@)], false, false, false),
        TaskResult::Ytdlp(Ok(false)) => (seq![(1int, "installed"@)], false, false, false),
        TaskResult::Ytdlp(Err(e)) => (seq![(2int, "FAILED: "@ + e@)], true, false, false),
        TaskResult::Tool(t) => (seq![tool_report(t)], false, false, false),
        TaskResult::Path(Ok(PathAction::AlreadyPresent)) => (
            seq![(1int, "already on PATH"@)],
            false,
            false,
            false,
        ),
        TaskResult::Path(Ok(PathAction::Added(w))) => (
            seq![(1int, "added to "@ + w@)],
            false,
            true,
            false,
        ),
        TaskResult::Path(Err(e)) => (
            seq![(2int, "could not update PATH automatically: "@ + e@)],
            false,
            false,
            false,
        ),
        TaskResult::Shortcut { icon, shortcut } => {
            let first: Seq<(int, Seq<char>)> = match icon {
                Ok(()) => Seq::empty(),
                Err(e) => seq![(2int, "could not write app icon: "@ + e@)],
            };
            match shortcut {
                Ok(loc) => (first.push((1int, "created: "@ + loc@)), false, false, true),
                Err(e) => (
                    first.push((2int, "could not create a shortcut: "@ + e@)),
                    false,
                    false,
                    false,
                ),
            }
        },
    }
}

impl InstallRun {
    /// Starts the sequence in `install_dir` (already created), reporting
    /// where it installs to.
    pub fn begin(components: Components, install_dir: String, windows: bool) -> (r: (
        Self,
        InstallEvent,
    ))
        ensures
            r.0.components == components,
            r.0.install_dir == install_dir,
            r.0.windows == windows,
            r.0.stage == first_stage(components),
            r.0.ok,
            !r.0.needs_new_terminal,
            !r.0.gui_shortcut_created,
            ev(r.1) == (0int, "Installing to: "@ + install_dir@),
    {
        let e = InstallEvent::Step(concat("Installing to: ", install_dir.as_str()));
        let stage = if components.tui {
            Stage::Tui
        } else if components.gui {
            Stage::Gui
        } else {
            Stage::Ytdlp
        };
        (
            InstallRun {
                components,
                install_dir,
                windows,
                stage,
                ok: true,
                needs_new_terminal: false,
                gui_shortcut_created: false,
            },
            e,
        )
    }

    pub open spec fn dest(&self) -> Seq<char> {
        app_dest(self.install_dir@, self.stage == Stage::Gui, self.windows)
    }

    /// The current step's heading and work; `None` once the sequence is
    /// over.
    pub fn task(&self) -> (r: Option<(InstallEvent, InstallTask)>)
        ensures
            self.stage == Stage::Done <==> r is None,
            r matches Some((h, t)) ==> {
                &&& ev(h) == (0int, stage_heading(self.stage))
                &&& match self.stage {
                    Stage::Tui | Stage::Gui => t matches InstallTask::InstallApp { dest } && dest@
                        == self.dest(),
                    Stage::Ytdlp => t is EnsureYtdlp,
                    Stage::Ffmpeg => t is EnsureFfmpeg,
                    Stage::Tool(_) => t == InstallTask::EnsureTool(Tool::Deno),
                    Stage::Path => t is EnsurePath,
                    Stage::Shortcut => t matches InstallTask::CreateShortcut { gui_exe } && gui_exe@
                        == app_dest(self.install_dir@, true, self.windows),
                    Stage::Done => false,
                }
            },
    {
        match self.stage {
            Stage::Tui => {
                let name = app_exe_filename_for("ytb_dl_tui", self.windows);
                Some(
                    (
                        InstallEvent::Step(String::from_str("Terminal version")),
                        InstallTask::InstallApp { dest: join_path_on(self.windows, self.install_dir.as_str(), name.as_str()) },
                    ),
                )
            },
            Stage::Gui => {
                let name = app_exe_filename_for("vidsave", self.windows);
                Some(
                    (
                        InstallEvent::Step(String::from_str("Desktop app")),
                        InstallTask::InstallApp { dest: join_path_on(self.windows, self.install_dir.as_str(), name.as_str()) },
                    ),
                )
            },
            Stage::Ytdlp => Some(
                (
                    InstallEvent::Step(
                        String::from_str("yt-dlp (bundled Python runtime + vendored source)"),
                    ),
                    InstallTask::EnsureYtdlp,
                ),
            ),
            Stage::Ffmpeg => Some(
                (InstallEvent::Step(String::from_str("ffmpeg")), InstallTask::EnsureFfmpeg),
            ),
            Stage::Tool(_) => {
                let tool = Tool::Deno;
                Some(
                    (
                        InstallEvent::Step(String::from_str(tool.display_name())),
                        InstallTask::EnsureTool(tool),
                    ),
                )
            },
            Stage::Path => Some((InstallEvent::Step(String::from_str("PATH")), InstallTask::EnsurePath)),
            Stage::Shortcut => {
                let name = app_exe_filename_for("vidsave", self.windows);
                Some(
                    (
                        InstallEvent::Step(String::from_str("Application shortcut")),
                        InstallTask::CreateShortcut {
                            gui_exe: join_path_on(self.windows, self.install_dir.as_str(), name.as_str()),
                        },
                    ),
                )
            },
            Stage::Done => None,
        }
    }

    /// Folds the current step's result in: returns its report (see
    /// `report`) and moves to the next step. A failed app or yt-dlp step
    /// makes the install unsuccessful; the optional steps never do. A result
    /// of the wrong kind for the step is ignored.
    pub fn record(&mut self, result: TaskResult) -> (r: Vec<InstallEvent>)
        ensures
            !fits(old(self).stage, result) ==> *final(self) == *old(self) && r@.len() == 0,
            fits(old(self).stage, result) ==> {
                let (events, failed, added, created) = report(old(self).stage, old(self).dest(), result);
                &&& evs(r@) == events
                &&& final(self).stage == stage_after(old(self).stage, old(self).components)
                &&& final(self).ok == (old(self).ok && !failed)
                &&& final(self).needs_new_terminal == (old(self).needs_new_terminal || added)
                &&& final(self).gui_shortcut_created == (old(self).gui_shortcut_created || created)
                &&& final(self).components == old(self).components
                &&& final(self).install_dir == old(self).install_dir
                &&& final(self).windows == old(self).windows
            },
    {
        let mut out: Vec<InstallEvent> = Vec::new();
        let stage = self.stage;
        match (stage, result) {
            (Stage::Tui, TaskResult::App(res)) | (Stage::Gui, TaskResult::App(res)) => {
                let stem = if stage == Stage::Gui { "vidsave" } else { "ytb_dl_tui" };
                let name = app_exe_filename_for(stem, self.windows);
                let dest = join_path_on(self.windows, self.install_dir.as_str(), name.as_str());
                match res {
                    Ok(()) => out.push(InstallEvent::Detail(concat("installed: ", dest.as_str()))),
                    Err(e) => {
                        out.push(InstallEvent::Warning(concat("FAILED: ", e.as_str())));
                        self.ok = false;
                    },
                }
            },
            (Stage::Ytdlp, TaskResult::Ytdlp(res)) => match res {
                Ok(true) => out.push(InstallEvent::Detail(String::from_str("already installed"))),
                Ok(false) => out.push(InstallEvent::Detail(String::from_str("installed"))),
                Err(e) => {
                    out.push(InstallEvent::Warning(concat("FAILED: ", e.as_str())));
                    self.ok = false;
                },
            },
            (Stage::Ffmpeg, TaskResult::Tool(res)) | (Stage::Tool(_), TaskResult::Tool(res)) => {
                out.push(tool_event(res));
            },
            (Stage::Path, TaskResult::Path(res)) => match res {
                Ok(PathAction::AlreadyPresent) => out.push(
                    InstallEvent::Detail(String::from_str("already on PATH")),
                ),
                Ok(PathAction::Added(w)) => {
                    out.push(InstallEvent::Detail(concat("added to ", w.as_str())));
                    self.needs_new_terminal = true;
                },
                Err(e) => out.push(
                    InstallEvent::Warning(concat("could not update PATH automatically: ", e.as_str())),
                ),
            },
            (Stage::Shortcut, TaskResult::Shortcut { icon, shortcut }) => {
                if let Err(e) = icon {
                    out.push(InstallEvent::Warning(concat("could not write app icon: ", e.as_str())));
                }
                match shortcut {
                    Ok(loc) => {
                        out.push(InstallEvent::Detail(concat("created: ", loc.as_str())));
                        self.gui_shortcut_created = true;
                    },
                    Err(e) => out.push(
                        InstallEvent::Warning(concat("could not create a shortcut: ", e.as_str())),
                    ),
                }
            },
            _ => {
                return out;
            },
        }
        assert(evs(out@) =~= report(stage, old(self).dest(), result).0);
        self.stage = next_stage(stage, self.components);
        out
    }

    /// The outcome once the sequence is over.
    pub fn outcome(&self) -> (r: InstallOutcome)
        ensures
            r.success == self.ok,
            r.install_dir == self.install_dir,
            r.needs_new_terminal == self.needs_new_terminal,
            r.gui_shortcut_created == self.gui_shortcut_created,
    {
        InstallOutcome {
            success: self.ok,
            install_dir: self.install_dir.clone(),
            needs_new_terminal: self.needs_new_terminal,
            gui_shortcut_created: self.gui_shortcut_created,
        }
    }
}

fn tool_event(res: Result<Status, String>) -> (r: InstallEvent)
    ensures
        ev(r) == tool_report(res),
{
    match res {
        Ok(Status::AlreadyOnPath(p)) => InstallEvent::Detail(
            concat("already available on PATH: ", p.as_str()),
        ),
        Ok(Status::AlreadyInstalled(p)) => InstallEvent::Detail(concat("already installed: ", p.as_str())),
        Ok(Status::Installed(p)) => InstallEvent::Detail(concat("installed: ", p.as_str())),
        Err(e) => {
            let a = concat("FAILED: ", e.as_str());
            InstallEvent::Warning(concat(a.as_str(), "  (not required -- reduced features without it)"))
        },
    }
}

fn next_stage(s: Stage, c: Components) -> (r: Stage)
    ensures
        r == stage_after(s, c),
{
    match s {
        Stage::Tui => if c.gui {
            Stage::Gui
        } else {
            Stage::Ytdlp
        },
        Stage::Gui => Stage::Ytdlp,
        Stage::Ytdlp => Stage::Ffmpeg,
        Stage::Ffmpeg => Stage::Tool(0),
        Stage::Tool(_) => Stage::Path,
        Stage::Path => if c.gui {
            Stage::Shortcut
        } else {
            Stage::Done
        },
        Stage::Shortcut => Stage::Done,
        Stage::Done => Stage::Done,
    }
}

/// The steps a sequence goes through for the chosen components, from the
/// first: the chosen apps, yt-dlp, ffmpeg, the tools, `PATH`, and the
/// launcher only with the desktop app -- every run ends.
pub open spec fn stages_from(s: Stage, c: Components, fuel: nat) -> Seq<Stage>
    decreases fuel,
{
    if fuel == 0 || s == Stage::Done {
        Seq::empty()
    } else {
        seq![s] + stages_from(stage_after(s, c), c, (fuel - 1) as nat)
    }
}

/// The sequence runs exactly the chosen apps, then yt-dlp, ffmpeg, deno and
/// `PATH`, and ends with the launcher exactly when the desktop app is
/// chosen.
pub proof fn lemma_install_sequence(c: Components)
    ensures
        stages_from(first_stage(c), c, 10) == (if c.tui {
            seq![Stage::Tui]
        } else {
            Seq::empty()
        }) + (if c.gui {
            seq![Stage::Gui]
        } else {
            Seq::empty()
        }) + seq![Stage::Ytdlp, Stage::Ffmpeg, Stage::Tool(0), Stage::Path] + (if c.gui {
            seq![Stage::Shortcut]
        } else {
            Seq::empty()
        }),
{
    reveal_with_fuel(stages_from, 11);
    if c.tui && c.gui {
        assert(stages_from(first_stage(c), c, 10) =~= seq![Stage::Tui, Stage::Gui, Stage::Ytdlp, Stage::Ffmpeg, Stage::Tool(0), Stage::Path, Stage::Shortcut]);
    } else if c.tui {
        assert(stages_from(first_stage(c), c, 10) =~= seq![Stage::Tui, Stage::Ytdlp, Stage::Ffmpeg, Stage::Tool(0), Stage::Path]);
    } else if c.gui {
        assert(stages_from(first_stage(c), c, 10) =~= seq![Stage::Gui, Stage::Ytdlp, Stage::Ffmpeg, Stage::Tool(0), Stage::Path, Stage::Shortcut]);
    } else {
        assert(stages_from(first_stage(c), c, 10) =~= seq![Stage::Ytdlp, Stage::Ffmpeg, Stage::Tool(0), Stage::Path]);
    }
}

/// Only the required steps decide success: a result of an optional step
/// (ffmpeg, a tool, `PATH`, the launcher) never counts as a failure.
pub proof fn lemma_optional_steps_never_fail(s: Stage, dest: Seq<char>, r: TaskResult)
    requires
        fits(s, r),
        s is Ffmpeg || s is Tool || s is Path || s is Shortcut,
    ensures
        !report(s, dest, r).1,
{
}

// ---------------------------------------------------------------------------
// Inside the tool steps
// ---------------------------------------------------------------------------

/// Where a tool is installed: its executable's name in the install
/// directory.
pub fn tool_dest(install_dir: &str, tool: Tool, windows: bool) -> (r: String)
    ensures
        r@ == path_join_on(windows, install_dir@, tool.spec_exe_filename(windows)),
{
    let name = tool.exe_filename_for(windows);
    join_path_on(windows, install_dir, name.as_str())
}

/// Where a tool's companion (ffprobe) goes, if it has one.
pub fn companion_dest(install_dir: &str, tool: Tool, windows: bool) -> (r: Option<String>)
    ensures
        match (r, tool.spec_companion(windows)) {
            (Some(p), Some(n)) => p@ == path_join_on(windows, install_dir@, n),
            (None, None) => true,
            _ => false,
        },
{
    match tool.companion_exe_filename_for(windows) {
        Some(n) => Some(join_path_on(windows, install_dir, n.as_str())),
        None => None,
    }
}

/// What a tool step finds before downloading anything.
#[derive(Debug)]
pub enum ToolCheck {
    /// Already usable; nothing to download.
    Found(Status),
    /// Download and install it.
    Download,
}

/// A tool step's first decision: a working copy on `PATH` wins (its path
/// is `on_path`, when one was found and runs), then a working copy already
/// in the install directory at `dest` (`dest_ok`: it is a file, runs, and
/// any companion file is there), else it is downloaded.
pub fn check_tool(on_path: Option<String>, dest: &str, dest_ok: bool) -> (r: ToolCheck)
    ensures
        match on_path {
            Some(p) => r matches ToolCheck::Found(Status::AlreadyOnPath(q)) && q@ == p@,
            None => if dest_ok {
                r matches ToolCheck::Found(Status::AlreadyInstalled(q)) && q@ == dest@
            } else {
                r is Download
            },
        },
{
    match on_path {
        Some(p) => ToolCheck::Found(Status::AlreadyOnPath(p)),
        None => if dest_ok {
            ToolCheck::Found(Status::AlreadyInstalled(String::from_str(dest)))
        } else {
            ToolCheck::Download
        },
    }
}

/// The files to take out of ffmpeg's archive: ffmpeg itself and, when the
/// tool has one, its companion, each with its destination.
pub fn archive_targets(install_dir: &str, tool: Tool, windows: bool) -> (r: Vec<(String, String)>)
    ensures
        r@.len() == if tool.spec_companion(windows) is Some { 2int } else { 1int },
        r@[0].0@ == tool.spec_exe_filename(windows),
        r@[0].1@ == path_join_on(windows, install_dir@, tool.spec_exe_filename(windows)),
        tool.spec_companion(windows) matches Some(n) ==> r@[1].0@ == n && r@[1].1@ == path_join_on(
            windows,
            install_dir@,
            n,
        ),
{
    let mut v: Vec<(String, String)> = Vec::new();
    v.push((tool.exe_filename_for(windows), tool_dest(install_dir, tool, windows)));
    match tool.companion_exe_filename_for(windows) {
        Some(n) => {
            let d = join_path_on(windows, install_dir, n.as_str());
            v.push((n, d));
        },
        None => {},
    }
    v
}

/// The error when a freshly downloaded tool does not run.
pub fn did_not_run(dest: &str) -> (r: String)
    ensures
        r@ == "downloaded to "@ + dest@ + " but it did not run correctly"@,
{
    let a = concat("downloaded to ", dest);
    concat(a.as_str(), " but it did not run correctly")
}

/// The note shown before the Python runtime is downloaded.
pub fn python_download_note() -> (r: String)
    ensures
        r@ == "downloading Python 3.12.14 (build 20260814)"@,
{
    String::from_str("downloading Python 3.12.14 (build 20260814)")
}

/// The error when the downloaded Python runtime does not run.
pub fn runtime_did_not_run(runtime_dir: &str) -> (r: String)
    ensures
        r@ == "downloaded Python runtime to "@ + runtime_dir@ + " but it did not run correctly"@,
{
    let a = concat("downloaded Python runtime to ", runtime_dir);
    concat(a.as_str(), " but it did not run correctly")
}

/// The error when yt-dlp does not run on the installed runtime.
pub fn ytdlp_did_not_run() -> (r: &'static str)
    ensures
        r@ == "installed yt-dlp (via the bundled Python runtime) but it did not run correctly"@,
{
    "installed yt-dlp (via the bundled Python runtime) but it did not run correctly"
}

// ---------------------------------------------------------------------------
// Running without the window
// ---------------------------------------------------------------------------

/// The components asked for on the command line when `--silent` is given
/// (both, minus `--no-tui` / `--no-gui`); `None` without `--silent`.
pub fn silent_components(args: &Vec<String>) -> (r: Option<Components>)
    ensures
        r is Some == (exists|i: int| 0 <= i < args@.len() && args@[i]@ == "--silent"@),
        r matches Some(c) ==> c.tui == !(exists|i: int|
            0 <= i < args@.len() && args@[i]@ == "--no-tui"@) && c.gui == !(exists|i: int|
            0 <= i < args@.len() && args@[i]@ == "--no-gui"@),
{
    let silent = any_arg(args, "--silent");
    if !silent {
        return None;
    }
    Some(Components { tui: !any_arg(args, "--no-tui"), gui: !any_arg(args, "--no-gui") })
}

fn any_arg(args: &Vec<String>, flag: &str) -> (r: bool)
    ensures
        r == (exists|i: int| 0 <= i < args@.len() && args@[i]@ == flag@),
{
    let mut i: usize = 0;
    while i < args.len()
        invariant
            i <= args@.len(),
            forall|j: int| 0 <= j < i ==> args@[j]@ != flag@,
        decreases args@.len() - i,
    {
        if crate::text::str_eq(args[i].as_str(), flag) {
            return true;
        }
        i = i + 1;
    }
    false
}

/// How a progress event is printed: a step as `-- text --`, a detail or a
/// warning indented by three spaces; warnings go to standard error (the
/// flag).
pub fn event_line(e: &InstallEvent) -> (r: (String, bool))
    ensures
        r.0@ == match *e {
            InstallEvent::Step(s) => "-- "@ + s@ + " --"@,
            InstallEvent::Detail(s) => "   "@ + s@,
            InstallEvent::Warning(s) => "   "@ + s@,
        },
        r.1 == e is Warning,
{
    match e {
        InstallEvent::Step(s) => {
            let a = concat("-- ", s.as_str());
            (concat(a.as_str(), " --"), false)
        },
        InstallEvent::Detail(s) => (concat("   ", s.as_str()), false),
        InstallEvent::Warning(s) => (concat("   ", s.as_str()), true),
    }
}

/// The process exit status: 0 for a successful install, 1 otherwise.
pub fn exit_code(o: &InstallOutcome) -> (r: i32)
    ensures
        r == if o.success { 0i32 } else { 1i32 },
{
    if o.success {
        0
    } else {
        1
    }
}

} // verus!
