//! The frontends' command line: a URL to open straight away, and an output
//! directory for this run only. Parsing the arguments happens outside the
//! library.

use vstd::prelude::*;

use crate::config::{Settings, SettingsModel};

verus! {

/// The command-line options both frontends take.
#[derive(Debug)]
pub struct Cli {
    /// Playlist, channel, or single video URL to resolve immediately on
    /// launch.
    pub url: Option<String>,
    /// Override the configured output directory for this run only.
    pub output_dir: Option<String>,
}

/// The settings for this run: the configured ones, with the output
/// directory replaced when the command line gives one.
pub fn apply_cli(settings: &mut Settings, cli: &Cli)
    ensures
        match cli.output_dir {
            Some(d) => final(settings)@ == (SettingsModel { output_dir: d@, ..old(settings)@ }),
            None => final(settings)@ == old(settings)@,
        },
{
    match &cli.output_dir {
        Some(d) => settings.output_dir = d.clone(),
        None => {},
    }
}

} // verus!
