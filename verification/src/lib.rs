//! Core of a desktop music player: a verified playback control engine.
//!
//! The library owns the playback state machine (current track, playlist
//! ordering, volume and mute, play/pause/stop), the playlist/position model,
//! the control-message vocabulary shared by every control surface, and the
//! pure parts of the command-line and network protocol parsing.  Everything
//! that touches a device, the file system or the network lives outside the
//! library and talks to it through plain values.

pub mod cli;
pub mod config;
pub mod gui;
pub mod instance;
pub mod library;
pub mod msg;
pub mod player;
pub mod playlist;
mod rng;
pub mod server;
pub mod settings;
pub mod song;
pub mod strutil;
pub mod text;
