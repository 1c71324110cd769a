//! Playback and screen-lifecycle logic of a terminal music player.

pub mod activity;
pub mod app;
pub mod clock;
pub mod config;
pub mod paths;
pub mod song;
