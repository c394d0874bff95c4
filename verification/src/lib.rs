//! Decision logic of a tray utility that associates networks with printers:
//! text normalisation, association matching, prompt policy and retry pacing.

pub mod text;
pub mod model;
pub mod retry;
pub mod scheduler;
pub mod monitor;
pub mod associations;
pub mod wide;
pub mod command_output;
pub mod json;
pub mod detection;
pub mod settings;
pub mod cache;
pub mod config_file;
pub mod management;
pub mod display;
pub mod command_wait;
