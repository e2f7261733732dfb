//! The control-message vocabulary.  The GUI, the hotkey layer and the
//! network listener all produce these same values, so every control surface
//! drives identical semantics.
//!
//! Times are in milliseconds; volume values are in thousandths of full
//! volume (signed, since steps may be negative before clamping).

use crate::config::ConfMsg;
use crate::settings::SettingsMsg;
use vstd::prelude::*;

verus! {

/// Playback control messages, consumed by the playback engine.
#[derive(Debug, Clone, Copy, PartialEq)]
pub enum PlayerMsg {
    /// Play or pause; no value toggles.
    Play(Option<bool>),
    /// Step to a following song; no value steps by one.
    Next(Option<usize>),
    /// Step to a preceding song; no value steps by one.
    Prev(Option<usize>),
    /// Play the song with the given library index; with `true` the playlist
    /// is first rebuilt from the whole library.
    PlaySong(usize, bool),
    /// Seek inside the current song, to a time in milliseconds.
    SeekTo(u64),
    /// The sink reports that the current song finished.
    SongEnd,
    /// Set the volume, in thousandths of full volume.
    Volume(i64),
    /// Raise the volume by a step; no value uses the configured step.
    VolumeUp(Option<i64>),
    /// Lower the volume by a step; no value uses the configured step.
    VolumeDown(Option<i64>),
    /// Mute or unmute; no value toggles.
    Mute(Option<bool>),
    /// Randomly reorder the playlist.
    Shuffle,
}

/// The pages of the interface.
#[derive(Debug, Clone, Copy, PartialEq)]
pub enum Page {
    Library,
    Playlist,
    Settings,
}

/// Library messages: start a song search, or take over its result.
#[derive(Debug, Clone, Copy, PartialEq)]
pub enum LibMsg {
    LoadStart,
    LoadEnded,
}

/// Top-level application messages.
#[derive(Debug, Clone, PartialEq)]
pub enum Msg {
    Page(Page),
    Plr(PlayerMsg),
    Lib(LibMsg),
    Conf(ConfMsg),
    Settings(SettingsMsg),
    Tick,
    Move(i32, i32),
    Size(u32, u32),
    Close,
    /// A scheduled fade-out ends at the given instant, in milliseconds of
    /// the process clock.
    HardPause(u64),
}

} // verus!
