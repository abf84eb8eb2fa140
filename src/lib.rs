//! Observes which media player is playing, detects track changes, and
//! serves the current track as a status line and over a minimal HTTP
//! responder.

pub mod config;
pub mod mpris_mediaplayer2;
pub mod nowplaying;
pub mod text;
pub mod number;
pub mod web_display;
