//! Core of a terminal music player: the playback state machine (track
//! lifecycle, elapsed-time accounting across pause/resume, volume,
//! auto-advance) and the session model (directory listing filter, explorer
//! and playlist cursors, key-to-command mapping).
//!
//! Time is carried as plain millisecond counts handed in by the caller, and
//! volume as hundredths of full scale, so that every rule of the player is
//! stated and proved over integers. Audio output, terminal drawing and
//! directory reads live outside this crate; they feed the functions here
//! with plain values and act on the state they hand back.

pub mod config;
pub mod cursor;
pub mod music_player;
pub mod play_controller;
pub mod text;
