//! The setup wizard: Welcome, then the choice of components, then the
//! install's progress, then the summary. The window is drawn outside the
//! library; `WizardState::update` decides what each button press does and
//! which outside work it starts.

use vstd::prelude::*;

use crate::installer::install_logic::{Components, InstallEvent, InstallOutcome};
use crate::paths::{join_path_on, path_join_on};
use crate::screens::{Shade, static_line_views};
use crate::text::concat;

verus! {

#[derive(Debug, Clone, Copy, PartialEq, Eq, Structural)]
pub enum Screen {
    Welcome,
    Components,
    Installing,
    Finish,
}

#[derive(Debug)]
pub struct WizardState {
    pub screen: Screen,
    pub install_tui: bool,
    pub install_gui: bool,
    pub log: Vec<InstallEvent>,
    pub outcome: Option<InstallOutcome>,
}

#[derive(Debug)]
pub enum Message {
    NextPressed,
    BackPressed,
    ToggleTui(bool),
    ToggleGui(bool),
    InstallProgress(InstallEvent),
    InstallFinished(InstallOutcome),
    LaunchGuiPressed,
    FinishPressed,
}

/// Outside work a button press starts.
#[derive(Debug)]
pub enum Effect {
    Nothing,
    /// Run the install for these components; progress comes back as
    /// `InstallProgress`, the outcome as `InstallFinished`.
    BeginInstall(Components),
    /// Start the installed desktop app at this path.
    Launch(String),
    /// Close the wizard.
    Exit,
}

/// Where the installed desktop app is launched from.
pub open spec fn spec_launch_path(install_dir: Seq<char>, windows: bool) -> Seq<char> {
    path_join_on(
        windows,
        install_dir,
        if windows {
            "vidsave.exe"@
        } else {
            "vidsave"@
        },
    )
}

/// What each press does: Next leaves Welcome for the component choice,
/// and from there starts the install if at least one component is chosen;
/// Back returns to Welcome; the toggles set the choices; progress is
/// logged; the outcome shows the summary; Launch starts the installed
/// desktop app once there is an outcome; Finish closes the wizard.
pub open spec fn wizard_spec(s: WizardState, m: Message, t: WizardState, e: Effect, windows: bool) -> bool {
    match m {
        Message::NextPressed => match s.screen {
            Screen::Welcome => e is Nothing && t == WizardState { screen: Screen::Components, ..s },
            Screen::Components => if s.install_tui || s.install_gui {
                t == WizardState { screen: Screen::Installing, ..s } && e == Effect::BeginInstall(
                    Components { tui: s.install_tui, gui: s.install_gui },
                )
            } else {
                e is Nothing && t == s
            },
            _ => e is Nothing && t == s,
        },
        Message::BackPressed => e is Nothing && t == WizardState { screen: Screen::Welcome, ..s },
        Message::ToggleTui(v) => e is Nothing && t == WizardState { install_tui: v, ..s },
        Message::ToggleGui(v) => e is Nothing && t == WizardState { install_gui: v, ..s },
        Message::InstallProgress(ev) => e is Nothing && t == WizardState { log: t.log, ..s }
            && t.log@ == s.log@.push(ev),
        Message::InstallFinished(o) => e is Nothing && t == WizardState {
            outcome: Some(o),
            screen: Screen::Finish,
            ..s
        },
        Message::LaunchGuiPressed => t == s && match s.outcome {
            Some(o) => e matches Effect::Launch(p) && p@ == spec_launch_path(
                o.install_dir@,
                windows,
            ),
            None => e is Nothing,
        },
        Message::FinishPressed => t == s && e is Exit,
    }
}

impl WizardState {
    /// The wizard as it opens: Welcome, both components chosen.
    pub fn new() -> (r: Self)
        ensures
            r.screen == Screen::Welcome,
            r.install_tui,
            r.install_gui,
            r.log@.len() == 0,
            r.outcome is None,
    {
        WizardState {
            screen: Screen::Welcome,
            install_tui: true,
            install_gui: true,
            log: Vec::new(),
            outcome: None,
        }
    }

    /// Whether the component page lets the install start.
    pub fn can_continue(&self) -> (r: bool)
        ensures
            r == (self.install_tui || self.install_gui),
    {
        self.install_tui || self.install_gui
    }

    /// Handles a press (`windows` picks the desktop app's file name); see
    /// `wizard_spec`.
    pub fn update(&mut self, message: Message, windows: bool) -> (e: Effect)
        ensures
            wizard_spec(*old(self), message, *final(self), e, windows),
    {
        match message {
            Message::NextPressed => match self.screen {
                Screen::Welcome => {
                    self.screen = Screen::Components;
                    Effect::Nothing
                },
                Screen::Components => if self.install_tui || self.install_gui {
                    self.screen = Screen::Installing;
                    Effect::BeginInstall(Components { tui: self.install_tui, gui: self.install_gui })
                } else {
                    Effect::Nothing
                },
                _ => Effect::Nothing,
            },
            Message::BackPressed => {
                self.screen = Screen::Welcome;
                Effect::Nothing
            },
            Message::ToggleTui(v) => {
                self.install_tui = v;
                Effect::Nothing
            },
            Message::ToggleGui(v) => {
                self.install_gui = v;
                Effect::Nothing
            },
            Message::InstallProgress(ev) => {
                self.log.push(ev);
                Effect::Nothing
            },
            Message::InstallFinished(o) => {
                self.outcome = Some(o);
                self.screen = Screen::Finish;
                Effect::Nothing
            },
            Message::LaunchGuiPressed => match &self.outcome {
                Some(o) => {
                    let name = if windows {
                        "vidsave.exe"
                    } else {
                        "vidsave"
                    };
                    Effect::Launch(join_path_on(windows, o.install_dir.as_str(), name))
                },
                None => Effect::Nothing,
            },
            Message::FinishPressed => Effect::Exit,
        }
    }
}

// ---------------------------------------------------------------------------
// What the pages show
// ---------------------------------------------------------------------------

/// A progress event in the wizard's log: a step as it is, a detail dimmed
/// and a warning highlighted, both indented by four spaces.
pub open spec fn spec_log_line(e: InstallEvent) -> (Seq<char>, Shade) {
    match e {
        InstallEvent::Step(s) => (s@, Shade::Plain),
        InstallEvent::Detail(s) => ("    "@ + s@, Shade::Gray),
        InstallEvent::Warning(s) => ("    "@ + s@, Shade::Yellow),
    }
}

pub fn log_line(e: &InstallEvent) -> (r: (String, Shade))
    ensures
        (r.0@, r.1) == spec_log_line(*e),
{
    match e {
        InstallEvent::Step(s) => (s.clone(), Shade::Plain),
        InstallEvent::Detail(s) => (concat("    ", s.as_str()), Shade::Gray),
        InstallEvent::Warning(s) => (concat("    ", s.as_str()), Shade::Yellow),
    }
}

/// The summary page, once the install finished.
#[derive(Debug)]
pub struct FinishPage {
    pub headline: &'static str,
    pub headline_shade: Shade,
    pub notes: Vec<&'static str>,
    /// Whether the page offers to launch the desktop app.
    pub can_launch: bool,
}

/// The summary for an outcome: the headline says whether everything
/// worked; the notes say how to run the terminal UI (from a new terminal
/// when its directory was just added to PATH) and that a shortcut was
/// made; the desktop app can be launched when it was chosen and the
/// install succeeded.
pub open spec fn spec_finish_notes(s: WizardState, o: InstallOutcome) -> Seq<(Seq<char>, Shade)> {
    let tui = if s.install_tui && o.needs_new_terminal {
        seq![("Open a NEW terminal window and run:  ytb_dl_tui"@, Shade::Plain)]
    } else if s.install_tui {
        seq![("Run it from any terminal:  ytb_dl_tui"@, Shade::Plain)]
    } else {
        Seq::empty()
    };
    let gui = if s.install_gui && o.gui_shortcut_created {
        seq![("A shortcut was added to your Start Menu / app launcher."@, Shade::Plain)]
    } else {
        Seq::empty()
    };
    tui + gui
}

impl WizardState {
    /// The component page's warning while no component is chosen.
    pub fn components_warning(&self) -> (r: Option<&'static str>)
        ensures
            (self.install_tui || self.install_gui) ==> r is None,
            !(self.install_tui || self.install_gui) ==> (r matches Some(w) && w@
                == "Pick at least one to continue."@),
    {
        if self.can_continue() {
            None
        } else {
            Some("Pick at least one to continue.")
        }
    }

    /// The summary page; `None` before there is an outcome.
    pub fn finish_page(&self) -> (r: Option<FinishPage>)
        ensures
            r is Some == self.outcome is Some,
            r matches Some(p) ==> {
                let o = self.outcome->0;
                &&& (p.headline@, p.headline_shade) == if o.success {
                    ("Done -- ytb-dl-tui is installed."@, Shade::Green)
                } else {
                    ("Finished with some problems -- see the log above."@, Shade::Yellow)
                }
                &&& static_line_views(p.notes@.map_values(|n: &'static str| (n, Shade::Plain)))
                    == spec_finish_notes(*self, o)
                &&& p.can_launch == (self.install_gui && o.success)
            },
    {
        match &self.outcome {
            None => None,
            Some(o) => {
                let (headline, headline_shade) = if o.success {
                    ("Done -- ytb-dl-tui is installed.", Shade::Green)
                } else {
                    ("Finished with some problems -- see the log above.", Shade::Yellow)
                };
                let mut notes: Vec<&'static str> = Vec::new();
                if self.install_tui && o.needs_new_terminal {
                    notes.push("Open a NEW terminal window and run:  ytb_dl_tui");
                } else if self.install_tui {
                    notes.push("Run it from any terminal:  ytb_dl_tui");
                }
                if self.install_gui && o.gui_shortcut_created {
                    notes.push("A shortcut was added to your Start Menu / app launcher.");
                }
                assert(static_line_views(notes@.map_values(|n: &'static str| (n, Shade::Plain)))
                    =~= spec_finish_notes(*self, *o));
                Some(
                    FinishPage {
                        headline,
                        headline_shade,
                        notes,
                        can_launch: self.install_gui && o.success,
                    },
                )
            },
        }
    }
}

} // verus!
