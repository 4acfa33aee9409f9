//! A headless background music player: its playback queue, configuration,
//! catalogue queries, download bookkeeping and player control decisions.

pub mod catalog;
pub mod cli;
pub mod config;
pub mod controller;
pub mod download;
pub mod ipc;
pub mod job;
pub mod queue;
pub mod startup;
pub mod text;
