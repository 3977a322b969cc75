//! Shared logic behind the VidSave frontends: download-option types, the
//! settings model, yt-dlp argument construction and output parsing, download
//! history, update checks, the installer's decisions, the two front ends'
//! state machines and what their screens show.

use vstd::prelude::*;

pub mod cli;
pub mod config;
pub mod downloader;
pub mod gui;
pub mod history;
pub mod installer;
pub mod json;
pub mod models;
pub mod paths;
pub mod screens;
pub mod session;
pub mod settings_fields;
pub mod text;
pub mod tui;
pub mod update_check;
pub mod ytdlp;

verus! {

} // verus!
