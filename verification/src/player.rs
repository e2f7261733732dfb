//! Playback control engine: the state machine that owns the playlist, the
//! volume and mute state and the play/pause/stop tri-state, and that turns
//! control messages into state transitions and sink requests.
//!
//! The audio sink itself is outside work.  Every operation that needs the
//! sink is split in two: the engine computes what the sink should be asked
//! (an [`EngineAction`]), the caller performs it, and hands the outcome back
//! (`sink_ok`).  On a failed sink call the engine keeps its previous state,
//! so a missing file or a dead device can never corrupt playback state.

use crate::config::Config;
use crate::library::Library;
use crate::msg::PlayerMsg;
use crate::playlist::Playlist;
use crate::playlist::wrap_add;
use crate::playlist::wrap_sub;
use crate::song::Song;
use vstd::prelude::*;

verus! {

/// Play state of the engine.  `Stopped` holds exactly when no playlist
/// position is selected.
#[derive(Debug, Clone, Copy, PartialEq, Eq, Structural)]
pub enum PlayState {
    Stopped,
    Playing,
    Paused,
}

/// The durable fields of the engine, as they are persisted: the *song id*
/// of the selected entry (not its playlist position, so the selection
/// survives a reordering), the volume in thousandths, the mute flag and the
/// playlist of library indices.
#[derive(Debug, Clone, PartialEq)]
pub struct PlayerData {
    pub current_song_id: Option<usize>,
    pub volume: u32,
    pub mute: bool,
    pub playlist: Vec<usize>,
}

/// A request to load a library song into the sink and, with `play`, start
/// it.  The caller reports the outcome through [`Player::play`].
#[derive(Debug, Clone, Copy, PartialEq, Eq, Structural)]
pub struct LoadRequest {
    pub song: usize,
    pub play: bool,
}

/// What the caller should do at the sink after handling one message, and
/// which confirmation call it owes the engine afterwards.
#[derive(Debug, Clone, Copy, PartialEq)]
pub enum EngineAction {
    /// Nothing to do at the sink.
    Idle,
    /// Call the sink's play/pause primitive, then report through
    /// [`Player::play`].
    Play(bool),
    /// Load the song with this library index, then report through
    /// [`Player::play`] with the request's `play` flag.
    Load(LoadRequest),
    /// Fetch the sink timestamp and hand its total back through
    /// [`Player::seek_with_total`] together with this seek time.
    QueryTimestamp(u64),
    /// Seek the sink to this time in milliseconds; no state change follows.
    Seek(u64),
    /// Drive the sink gain from this volume value (thousandths, before
    /// clamping), then report through [`Player::set_vol`].
    SetVolume(i64),
    /// Drive the sink gain to zero (`true`) or back to the stored volume
    /// (`false`), then report through [`Player::mute`].
    SetMuteGain(bool),
}

/// Clamps a volume value in thousandths into the stored range `0..=1000`.
pub open spec fn clamp_milli(v: int) -> int {
    if v < 0 {
        0
    } else if v > 1000 {
        1000
    } else {
        v
    }
}

/// An explicit request wins; no request toggles the current flag.
pub open spec fn resolve_flag(requested: Option<bool>, current: bool) -> bool {
    match requested {
        Some(b) => b,
        None => !current,
    }
}

/// The playlist holding every library index in library order.
pub open spec fn identity_seq(n: nat) -> Seq<usize> {
    Seq::new(n, |i: int| i as usize)
}

/// The state reached by driving the sink's play primitive with `play` while
/// `pos` is selected.
pub open spec fn state_for(pos: Option<usize>, play: bool) -> PlayState {
    if pos is None {
        PlayState::Stopped
    } else if play {
        PlayState::Playing
    } else {
        PlayState::Paused
    }
}

/// Clamping a volume value in thousandths always lands in the stored range:
/// whatever is asked for, the stored volume stays within `0..=1000`.
pub proof fn lemma_volume_clamped(v: int)
    ensures
        0 <= clamp_milli(v) <= 1000,
        0 <= v <= 1000 ==> clamp_milli(v) == v,
{
}

/// Clamps a volume value in thousandths into `0..=1000`.
pub fn clamp_volume(v: i64) -> (r: u32)
    ensures
        r == clamp_milli(v as int),
{
    if v < 0 {
        0
    } else if v > 1000 {
        1000
    } else {
        v as u32
    }
}

/// The linear gain the sink is driven with, in millionths: the square of
/// the volume, for perceived-loudness linearity.
pub fn gain_millionths(volume: u32) -> (r: u32)
    requires
        volume <= 1000,
    ensures
        r == volume * volume,
{
    proof {
        assert(volume * volume <= 1000000) by (nonlinear_arith)
            requires
                volume <= 1000,
        ;
    }
    volume * volume
}

pub struct Player {
    playlist: Playlist,
    volume: u32,
    mute: bool,
    state: PlayState,
    shuffle_current: bool,
    volume_step: u32,
    changed: bool,
}

impl Player {
    /// Engine well-formedness: the playlist position is in bounds, the
    /// stored volume is clamped, and the engine is stopped exactly when no
    /// position is selected.
    pub open spec fn inv(&self) -> bool {
        &&& self.playlist_model().inv()
        &&& self.spec_volume() <= 1000
        &&& (self.spec_state() == PlayState::Stopped <==> self.playlist_model().position() is None)
    }

    pub closed spec fn playlist_model(&self) -> Playlist {
        self.playlist
    }

    pub closed spec fn spec_volume(&self) -> u32 {
        self.volume
    }

    pub closed spec fn spec_mute(&self) -> bool {
        self.mute
    }

    pub closed spec fn spec_state(&self) -> PlayState {
        self.state
    }

    pub closed spec fn spec_shuffle_current(&self) -> bool {
        self.shuffle_current
    }

    pub closed spec fn spec_volume_step(&self) -> u32 {
        self.volume_step
    }

    pub closed spec fn spec_changed(&self) -> bool {
        self.changed
    }

    /// The engine after a mute transition: only the mute flag moves; in
    /// particular the stored volume is untouched, so unmuting always
    /// restores it exactly.
    pub closed spec fn mute_applied(&self, m: bool) -> Player {
        Player { mute: m, changed: true, ..*self }
    }

    /// The engine with only the play state moved.
    pub closed spec fn state_set(&self, st: PlayState) -> Player {
        Player { state: st, ..*self }
    }

    /// The engine with only the stored volume moved (and marked dirty).
    pub closed spec fn volume_set(&self, v: u32) -> Player {
        Player { volume: v, changed: true, ..*self }
    }

    /// The engine with the runtime options re-read from the configuration.
    pub closed spec fn config_applied(&self, config: Config) -> Player {
        Player {
            shuffle_current: config.shuffle_current,
            volume_step: config.volume_step,
            ..*self
        }
    }

    /// The engine right after its durable fields were handed out.
    pub closed spec fn save_taken(&self) -> Player {
        Player { changed: false, ..*self }
    }

    /// Builds the engine from persisted data and configuration.  The
    /// persisted song id is located in the playlist (first occurrence); when
    /// it is absent or missing, nothing is selected and the engine starts
    /// stopped.  A persisted volume outside `0..=1000` is clamped.
    pub fn load(data: PlayerData, config: &Config) -> (r: Player)
        ensures
            r.inv(),
            r.playlist_model().ids_seq() == data.playlist@,
            r.spec_volume() == clamp_milli(data.volume as int),
            r.spec_mute() == data.mute,
            r.spec_shuffle_current() == config.shuffle_current,
            r.spec_volume_step() == config.volume_step,
            match data.current_song_id {
                Some(id) => {
                    &&& data.playlist@.contains(id) ==> r.playlist_model().spec_current_id()
                        == Some(id) && r.spec_state() == PlayState::Paused
                    &&& !data.playlist@.contains(id) ==> r.playlist_model().position() is None
                        && r.spec_state() == PlayState::Stopped
                },
                None => r.playlist_model().position() is None && r.spec_state()
                    == PlayState::Stopped,
            },
    {
        let mut playlist = Playlist::new();
        playlist.set_playlist(data.playlist);
        let mut state = PlayState::Stopped;
        if let Some(id) = data.current_song_id {
            let found = playlist.set_current_to(id);
            if found {
                state = PlayState::Paused;
            }
        }
        Player {
            playlist,
            volume: clamp_volume(data.volume as i64),
            mute: data.mute,
            state,
            shuffle_current: config.shuffle_current,
            volume_step: config.volume_step,
            changed: true,
        }
    }

    /// Builds the engine at startup: like [`Player::load`], except that an
    /// empty persisted playlist is replaced by all library songs in library
    /// order when the library is non-empty.
    pub fn new(data: PlayerData, config: &Config, lib_count: usize) -> (r: Player)
        ensures
            r.inv(),
            data.playlist@.len() > 0 || lib_count == 0 ==> r.playlist_model().ids_seq()
                == data.playlist@,
            data.playlist@.len() == 0 && lib_count > 0 ==> r.playlist_model().ids_seq()
                == identity_seq(lib_count as nat),
            r.spec_volume() == clamp_milli(data.volume as int),
            r.spec_mute() == data.mute,
            r.spec_shuffle_current() == config.shuffle_current,
            r.spec_volume_step() == config.volume_step,
    {
        let mut data = data;
        if data.playlist.len() == 0 && lib_count > 0 {
            data.playlist = identity_vec(lib_count);
        }
        Player::load(data, config)
    }

    /// Re-reads the runtime options the engine keeps from the
    /// configuration.
    pub fn load_config(&mut self, config: &Config)
        ensures
            final(self).inv() == old(self).inv(),
            *final(self) == old(self).config_applied(*config),
            final(self).spec_shuffle_current() == config.shuffle_current,
            final(self).spec_volume_step() == config.volume_step,
            final(self).playlist_model() == old(self).playlist_model(),
            final(self).spec_state() == old(self).spec_state(),
            final(self).spec_volume() == old(self).spec_volume(),
            final(self).spec_mute() == old(self).spec_mute(),
    {
        self.shuffle_current = config.shuffle_current;
        self.volume_step = config.volume_step;
    }

    /// The durable fields, for persisting, when anything changed since the
    /// last save; clears the dirty flag.  Returns `None` when nothing
    /// changed, so an unchanged state is never rewritten.
    pub fn take_save_data(&mut self) -> (r: Option<PlayerData>)
        requires
            old(self).inv(),
        ensures
            final(self).inv(),
            !old(self).spec_changed() ==> r is None && *final(self) == *old(self),
            old(self).spec_changed() ==> {
                &&& !final(self).spec_changed()
                &&& *final(self) == old(self).save_taken()
                &&& final(self).playlist_model() == old(self).playlist_model()
                &&& final(self).spec_volume() == old(self).spec_volume()
                &&& final(self).spec_mute() == old(self).spec_mute()
                &&& final(self).spec_state() == old(self).spec_state()
                &&& r matches Some(d) && d.current_song_id == old(
                    self,
                ).playlist_model().spec_current_id() && d.volume == old(self).spec_volume()
                    && d.mute == old(self).spec_mute() && d.playlist@ == old(
                    self,
                ).playlist_model().ids_seq()
            },
    {
        if !self.changed {
            return None;
        }
        self.changed = false;
        let ids = self.playlist.get_ids().clone();
        assert(ids@ =~= self.playlist.ids_seq());
        Some(
            PlayerData {
                current_song_id: self.playlist.current_id(),
                volume: self.volume,
                mute: self.mute,
                playlist: ids,
            },
        )
    }

    /// True when the engine is playing.
    pub fn is_playing(&self) -> (r: bool)
        ensures
            r == (self.spec_state() == PlayState::Playing),
    {
        self.state == PlayState::Playing
    }

    /// True when the engine is stopped (nothing selected).
    pub fn is_stopped(&self) -> (r: bool)
        ensures
            r == (self.spec_state() == PlayState::Stopped),
    {
        self.state == PlayState::Stopped
    }

    pub fn get_state(&self) -> (r: PlayState)
        ensures
            r == self.spec_state(),
    {
        self.state
    }

    /// Derives the play state from the selection and the given play flag:
    /// nothing selected means stopped, otherwise playing or paused.
    pub fn set_state(&mut self, play: bool)
        requires
            old(self).inv(),
        ensures
            final(self).inv(),
            *final(self) == old(self).state_set(
                state_for(old(self).playlist_model().position(), play),
            ),
            final(self).spec_state() == state_for(old(self).playlist_model().position(), play),
            final(self).playlist_model() == old(self).playlist_model(),
            final(self).spec_volume() == old(self).spec_volume(),
            final(self).spec_mute() == old(self).spec_mute(),
    {
        self.state = match (self.playlist.get_position().is_some(), play) {
            (false, _) => PlayState::Stopped,
            (true, false) => PlayState::Paused,
            (true, true) => PlayState::Playing,
        };
    }

    /// The playlist position of the selected song.
    pub fn get_current(&self) -> (r: Option<usize>)
        ensures
            r == self.playlist_model().position(),
    {
        self.playlist.get_position()
    }

    /// The playlist, as library indices in play order.
    pub fn get_playlist(&self) -> (r: &Vec<usize>)
        ensures
            r@ == self.playlist_model().ids_seq(),
    {
        self.playlist.get_ids()
    }

    /// The stored volume, in thousandths of full volume.
    pub fn get_volume(&self) -> (r: u32)
        ensures
            r == self.spec_volume(),
    {
        self.volume
    }

    /// The mute flag; the stored volume is kept independently of it.
    pub fn get_mute(&self) -> (r: bool)
        ensures
            r == self.spec_mute(),
    {
        self.mute
    }

    pub fn get_volume_step(&self) -> (r: u32)
        ensures
            r == self.spec_volume_step(),
    {
        self.volume_step
    }

    /// The library index of the selected song; `None` when stopped.
    pub fn get_current_id(&self) -> (r: Option<usize>)
        requires
            self.inv(),
        ensures
            self.spec_state() == PlayState::Stopped ==> r is None,
            self.spec_state() != PlayState::Stopped ==> r
                == self.playlist_model().spec_current_id(),
    {
        if self.is_stopped() {
            return None;
        }
        self.playlist.current_id()
    }

    /// The selected song's library entry; the placeholder when the engine
    /// is stopped or the entry's index no longer resolves in the library.
    pub fn get_current_song(&self, lib: &Library) -> (r: Song)
        requires
            self.inv(),
        ensures
            match self.playlist_model().spec_current_id() {
                Some(id) => {
                    &&& id < lib.songs_seq().len() ==> r.same_attrs(&lib.songs_seq()[id as int])
                    &&& id >= lib.songs_seq().len() ==> r.is_placeholder()
                },
                None => r.is_placeholder(),
            },
    {
        match self.playlist.current_id() {
            Some(id) => lib.get_song(id),
            None => Song::default(),
        }
    }

    /// Stops playback: clears the selection and the state; the caller also
    /// stops the sink, whose outcome does not matter here.
    pub fn stop(&mut self)
        requires
            old(self).inv(),
        ensures
            final(self).inv(),
            final(self).spec_state() == PlayState::Stopped,
            final(self).playlist_model().position() is None,
            final(self).playlist_model().ids_seq() == old(self).playlist_model().ids_seq(),
            final(self).spec_volume() == old(self).spec_volume(),
            final(self).spec_mute() == old(self).spec_mute(),
            final(self).spec_volume_step() == old(self).spec_volume_step(),
            final(self).spec_shuffle_current() == old(self).spec_shuffle_current(),
            final(self).spec_changed(),
    {
        self.state = PlayState::Stopped;
        self.playlist.clear_position();
        self.changed = true;
    }

    /// The play flag a `Play` request resolves to: `None` when stopped
    /// (there is nothing to play), otherwise the explicit request or a
    /// toggle of the current state.
    pub fn resolve_play(&self, requested: Option<bool>) -> (r: Option<bool>)
        ensures
            self.spec_state() == PlayState::Stopped ==> r is None,
            self.spec_state() != PlayState::Stopped ==> r == Some(
                resolve_flag(requested, self.spec_state() == PlayState::Playing),
            ),
    {
        if self.is_stopped() {
            return None;
        }
        match requested {
            Some(b) => Some(b),
            None => Some(!self.is_playing()),
        }
    }

    /// Applies the outcome of driving the sink's play primitive with
    /// `play`: on success the state follows the flag, on failure the state
    /// is left exactly as it was.
    pub fn play(&mut self, play: bool, sink_ok: bool)
        requires
            old(self).inv(),
        ensures
            final(self).inv(),
            sink_ok ==> *final(self) == old(self).state_set(
                state_for(old(self).playlist_model().position(), play),
            ),
            sink_ok ==> final(self).spec_state() == state_for(
                old(self).playlist_model().position(),
                play,
            ),
            !sink_ok ==> *final(self) == *old(self),
            final(self).playlist_model() == old(self).playlist_model(),
            final(self).spec_volume() == old(self).spec_volume(),
            final(self).spec_mute() == old(self).spec_mute(),
    {
        if sink_ok {
            self.set_state(play);
        }
    }

    /// Resolves a play/pause request and applies the sink outcome; a no-op
    /// when stopped.
    pub fn play_pause(&mut self, play: Option<bool>, sink_ok: bool)
        requires
            old(self).inv(),
        ensures
            final(self).inv(),
            old(self).spec_state() == PlayState::Stopped ==> *final(self) == *old(self),
            old(self).spec_state() != PlayState::Stopped && sink_ok ==> *final(self) == old(
                self,
            ).state_set(
                state_for(
                    old(self).playlist_model().position(),
                    resolve_flag(play, old(self).spec_state() == PlayState::Playing),
                ),
            ),
            old(self).spec_state() != PlayState::Stopped && sink_ok ==> final(self).spec_state()
                == state_for(
                old(self).playlist_model().position(),
                resolve_flag(play, old(self).spec_state() == PlayState::Playing),
            ),
            old(self).spec_state() != PlayState::Stopped && !sink_ok ==> *final(self) == *old(
                self,
            ),
            final(self).playlist_model() == old(self).playlist_model(),
            final(self).spec_volume() == old(self).spec_volume(),
            final(self).spec_mute() == old(self).spec_mute(),
    {
        if self.is_stopped() {
            return ;
        }
        let p = match self.resolve_play(play) {
            Some(p) => p,
            None => false,
        };
        self.play(p, sink_ok);
    }

    /// Applies the outcome of driving the sink with a volume value in
    /// thousandths: on success the clamped value is stored, on failure the
    /// stored volume is left unchanged.
    pub fn set_vol(&mut self, volume: i64, sink_ok: bool)
        requires
            old(self).inv(),
        ensures
            final(self).inv(),
            sink_ok ==> *final(self) == old(self).volume_set(clamp_milli(volume as int) as u32),
            sink_ok ==> final(self).spec_volume() == clamp_milli(volume as int),
            !sink_ok ==> *final(self) == *old(self),
            final(self).playlist_model() == old(self).playlist_model(),
            final(self).spec_state() == old(self).spec_state(),
            final(self).spec_mute() == old(self).spec_mute(),
    {
        if sink_ok {
            self.volume = clamp_volume(volume);
            self.changed = true;
        }
    }

    /// The volume a `VolumeUp` request aims at: the stored volume plus the
    /// requested or configured step, clamped.
    pub fn volume_up_target(&self, step: Option<i64>) -> (r: u32)
        requires
            self.inv(),
        ensures
            r == clamp_milli(
                self.spec_volume() + match step {
                    Some(s) => s as int,
                    None => self.spec_volume_step() as int,
                },
            ),
    {
        let s: i64 = match step {
            Some(s) => s,
            None => self.volume_step as i64,
        };
        if s > 1000 {
            1000
        } else if s < -1000 {
            0
        } else {
            clamp_volume(self.volume as i64 + s)
        }
    }

    /// The volume a `VolumeDown` request aims at: the stored volume minus
    /// the requested or configured step, clamped.
    pub fn volume_down_target(&self, step: Option<i64>) -> (r: u32)
        requires
            self.inv(),
        ensures
            r == clamp_milli(
                self.spec_volume() - match step {
                    Some(s) => s as int,
                    None => self.spec_volume_step() as int,
                },
            ),
    {
        let s: i64 = match step {
            Some(s) => s,
            None => self.volume_step as i64,
        };
        if s > 1000 {
            0
        } else if s < -1000 {
            1000
        } else {
            clamp_volume(self.volume as i64 - s)
        }
    }

    /// The mute flag a `Mute` request resolves to: the explicit request or
    /// a toggle.
    pub fn resolve_mute(&self, requested: Option<bool>) -> (r: bool)
        ensures
            r == resolve_flag(requested, self.spec_mute()),
    {
        match requested {
            Some(b) => b,
            None => !self.mute,
        }
    }

    /// Applies the outcome of driving the sink gain for a mute transition:
    /// on success only the mute flag moves — the stored volume is untouched,
    /// so unmuting restores it exactly — and on failure nothing changes.
    pub fn mute(&mut self, requested: Option<bool>, sink_ok: bool)
        requires
            old(self).inv(),
        ensures
            final(self).inv(),
            sink_ok ==> *final(self) == old(self).mute_applied(
                resolve_flag(requested, old(self).spec_mute()),
            ),
            sink_ok ==> final(self).spec_mute() == resolve_flag(
                requested,
                old(self).spec_mute(),
            ),
            !sink_ok ==> *final(self) == *old(self),
            final(self).spec_volume() == old(self).spec_volume(),
            final(self).playlist_model() == old(self).playlist_model(),
            final(self).spec_state() == old(self).spec_state(),
    {
        if sink_ok {
            self.mute = self.resolve_mute(requested);
            self.changed = true;
        }
    }

    /// Applies the outcome of the startup volume push to the sink: when the
    /// sink refuses, a muted engine falls back to unmuted, an unmuted one
    /// to full volume.
    pub fn init_volume(&mut self, sink_ok: bool)
        requires
            old(self).inv(),
        ensures
            final(self).inv(),
            sink_ok ==> *final(self) == *old(self),
            !sink_ok && old(self).spec_mute() ==> *final(self) == old(self).mute_applied(false)
                && !final(self).spec_mute() && final(self).spec_volume() == old(
                self,
            ).spec_volume(),
            !sink_ok && !old(self).spec_mute() ==> *final(self) == old(self).volume_set(1000)
                && final(self).spec_volume() == 1000 && final(self).spec_mute() == old(
                self,
            ).spec_mute(),
            final(self).playlist_model() == old(self).playlist_model(),
            final(self).spec_state() == old(self).spec_state(),
    {
        if !sink_ok {
            if self.mute {
                self.mute = false;
            } else {
                self.volume = 1000;
            }
            self.changed = true;
        }
    }

    /// Selects the playlist position `index` and asks for its song to be
    /// loaded; an out-of-range index stops the engine instead (nothing to
    /// load).  The state follows once the caller reports the load outcome.
    pub fn play_at(&mut self, index: usize, play: bool) -> (r: Option<LoadRequest>)
        requires
            old(self).inv(),
        ensures
            final(self).inv(),
            final(self).playlist_model().ids_seq() == old(self).playlist_model().ids_seq(),
            final(self).spec_volume() == old(self).spec_volume(),
            final(self).spec_mute() == old(self).spec_mute(),
            final(self).spec_volume_step() == old(self).spec_volume_step(),
            final(self).spec_shuffle_current() == old(self).spec_shuffle_current(),
            index < old(self).playlist_model().ids_seq().len() ==> {
                &&& final(self).playlist_model().position() == Some(index)
                &&& r == Some(
                    LoadRequest {
                        song: old(self).playlist_model().ids_seq()[index as int],
                        play,
                    },
                )
                &&& final(self).spec_state() == (if old(self).spec_state()
                    == PlayState::Stopped {
                    PlayState::Paused
                } else {
                    old(self).spec_state()
                })
            },
            index >= old(self).playlist_model().ids_seq().len() ==> {
                &&& final(self).playlist_model().position() is None
                &&& final(self).spec_state() == PlayState::Stopped
                &&& r is None
            },
    {
        if index < self.playlist.len() {
            let id = match self.playlist.id_at(index) {
                Some(id) => id,
                None => 0,
            };
            self.playlist.set_position(index);
            if self.state == PlayState::Stopped {
                self.state = PlayState::Paused;
            }
            self.changed = true;
            Some(LoadRequest { song: id, play })
        } else {
            self.stop();
            None
        }
    }

    /// Asks for the selected song to be loaded; when nothing is selected
    /// the engine stops instead.
    pub fn try_load_song(&mut self, play: bool) -> (r: Option<LoadRequest>)
        requires
            old(self).inv(),
        ensures
            final(self).inv(),
            final(self).playlist_model().ids_seq() == old(self).playlist_model().ids_seq(),
            match old(self).playlist_model().position() {
                Some(p) => r == Some(
                    LoadRequest {
                        song: old(self).playlist_model().ids_seq()[p as int],
                        play,
                    },
                ) && final(self).playlist_model().position() == Some(p) && final(self).spec_state()
                    == (if old(self).spec_state() == PlayState::Stopped {
                    PlayState::Paused
                } else {
                    old(self).spec_state()
                }),
                None => r is None && final(self).spec_state() == PlayState::Stopped && (final(self).playlist_model().position() is None),
            },
    {
        match self.playlist.get_position() {
            Some(p) => self.play_at(p, play),
            None => {
                self.stop();
                None
            },
        }
    }

    /// Steps to a following song, wrapping past the end, and asks for it to
    /// be loaded with the current playing intent kept; a no-op when nothing
    /// is selected.
    pub fn next(&mut self, num: Option<usize>) -> (r: Option<LoadRequest>)
        requires
            old(self).inv(),
        ensures
            final(self).inv(),
            final(self).playlist_model().ids_seq() == old(self).playlist_model().ids_seq(),
            final(self).spec_volume() == old(self).spec_volume(),
            final(self).spec_mute() == old(self).spec_mute(),
            final(self).spec_volume_step() == old(self).spec_volume_step(),
            final(self).spec_shuffle_current() == old(self).spec_shuffle_current(),
            match old(self).playlist_model().position() {
                None => r is None && *final(self) == *old(self),
                Some(p) => {
                    let len = old(self).playlist_model().ids_seq().len() as int;
                    let by = match num {
                        Some(n) => n as int,
                        None => 1int,
                    };
                    let np = wrap_add(p as int, by, len);
                    &&& final(self).playlist_model().position() == Some(np as usize)
                    &&& r == Some(
                        LoadRequest {
                            song: old(self).playlist_model().ids_seq()[np],
                            play: old(self).spec_state() == PlayState::Playing,
                        },
                    )
                    &&& final(self).spec_state() == old(self).spec_state()
                },
            },
    {
        let by = match num {
            Some(n) => n,
            None => 1,
        };
        if self.playlist.get_position().is_none() {
            return None;
        }
        let play = self.is_playing();
        // the length binding puts the playlist length's usize bound in scope
        let n = self.playlist.len();
        proof {
            match old(self).playlist_model().position() {
                Some(p0) => {
                    crate::playlist::lemma_wrap_in_bounds(
                        p0 as int,
                        by as int,
                        n as int,
                    );
                },
                None => {},
            }
        }
        self.playlist.advance(by);
        let p = match self.playlist.get_position() {
            Some(p) => p,
            None => 0,
        };
        self.play_at(p, play)
    }

    /// Steps to a preceding song, wrapping past the front, and asks for it
    /// to be loaded with the current playing intent kept; a no-op when
    /// nothing is selected.
    pub fn prev(&mut self, num: Option<usize>) -> (r: Option<LoadRequest>)
        requires
            old(self).inv(),
        ensures
            final(self).inv(),
            final(self).playlist_model().ids_seq() == old(self).playlist_model().ids_seq(),
            final(self).spec_volume() == old(self).spec_volume(),
            final(self).spec_mute() == old(self).spec_mute(),
            final(self).spec_volume_step() == old(self).spec_volume_step(),
            final(self).spec_shuffle_current() == old(self).spec_shuffle_current(),
            match old(self).playlist_model().position() {
                None => r is None && *final(self) == *old(self),
                Some(p) => {
                    let len = old(self).playlist_model().ids_seq().len() as int;
                    let by = match num {
                        Some(n) => n as int,
                        None => 1int,
                    };
                    let np = wrap_sub(p as int, by, len);
                    &&& final(self).playlist_model().position() == Some(np as usize)
                    &&& r == Some(
                        LoadRequest {
                            song: old(self).playlist_model().ids_seq()[np],
                            play: old(self).spec_state() == PlayState::Playing,
                        },
                    )
                    &&& final(self).spec_state() == old(self).spec_state()
                },
            },
    {
        let by = match num {
            Some(n) => n,
            None => 1,
        };
        if self.playlist.get_position().is_none() {
            return None;
        }
        let play = self.is_playing();
        // the length binding puts the playlist length's usize bound in scope
        let n = self.playlist.len();
        proof {
            match old(self).playlist_model().position() {
                Some(p0) => {
                    crate::playlist::lemma_wrap_in_bounds(
                        p0 as int,
                        by as int,
                        n as int,
                    );
                },
                None => {},
            }
        }
        self.playlist.retreat(by);
        let p = match self.playlist.get_position() {
            Some(p) => p,
            None => 0,
        };
        self.play_at(p, play)
    }

    /// Decides a seek once the sink's total duration is known: seeking past
    /// the end of the current song advances to the next song instead of
    /// clamping or failing; otherwise the sink is asked to seek.
    pub fn seek_with_total(&mut self, time_ms: u64, total_ms: Option<u64>) -> (r: EngineAction)
        requires
            old(self).inv(),
        ensures
            final(self).inv(),
            final(self).playlist_model().ids_seq() == old(self).playlist_model().ids_seq(),
            final(self).spec_volume() == old(self).spec_volume(),
            final(self).spec_mute() == old(self).spec_mute(),
            final(self).spec_state() == old(self).spec_state(),
            match total_ms {
                Some(total) => {
                    &&& total < time_ms ==> r == (match final(self).playlist_model().position() {
                        Some(_) => EngineAction::Load(
                            LoadRequest {
                                song: final(self).playlist_model().spec_current_id()->0,
                                play: old(self).spec_state() == PlayState::Playing,
                            },
                        ),
                        None => EngineAction::Idle,
                    })
                    &&& total < time_ms ==> (old(self).playlist_model().position() matches Some(p)
                        ==> final(self).playlist_model().position() == Some(
                        wrap_add(
                            p as int,
                            1,
                            old(self).playlist_model().ids_seq().len() as int,
                        ) as usize,
                    ))
                    &&& total >= time_ms ==> r == EngineAction::Seek(time_ms) && *final(self)
                        == *old(self)
                },
                None => r == EngineAction::Seek(time_ms) && *final(self) == *old(self),
            },
    {
        if let Some(total) = total_ms {
            if total < time_ms {
                // the length binding puts the playlist length's usize bound in scope
                let n = self.playlist.len();
                let req = self.next(Some(1));
                return match req {
                    Some(req) => EngineAction::Load(req),
                    None => EngineAction::Idle,
                };
            }
        }
        EngineAction::Seek(time_ms)
    }

    /// Randomly reorders the playlist.  The selected song stays selected:
    /// its id is reported unchanged afterwards.  Unless the configuration
    /// lets the playing song move, it is pinned to the front and the
    /// position set to `0`.  A no-op when nothing is selected.
    pub fn shuffle(&mut self)
        requires
            old(self).inv(),
        ensures
            final(self).inv(),
            final(self).playlist_model().ids_seq().to_multiset() == old(
                self,
            ).playlist_model().ids_seq().to_multiset(),
            final(self).spec_state() == old(self).spec_state(),
            final(self).spec_volume() == old(self).spec_volume(),
            final(self).spec_mute() == old(self).spec_mute(),
            final(self).spec_volume_step() == old(self).spec_volume_step(),
            final(self).spec_shuffle_current() == old(self).spec_shuffle_current(),
            old(self).playlist_model().position() is None ==> *final(self) == *old(self),
            old(self).playlist_model().position() is Some ==> final(self).playlist_model().spec_current_id() == old(self).playlist_model().spec_current_id(),
            old(self).playlist_model().position() is Some && !old(self).spec_shuffle_current()
                ==> final(self).playlist_model().position() == Some(0usize),
    {
        if self.playlist.get_position().is_none() {
            return ;
        }
        let pin = !self.shuffle_current;
        self.playlist.shuffle(pin);
        self.changed = true;
    }

    /// Rebuilds the playlist from the whole library (all indices in library
    /// order) and selects the song with index `id`.  An id outside the
    /// library falls back to the front of the new playlist: position `0`
    /// when it is non-empty, nothing otherwise.
    pub fn create_playlist(&mut self, lib_count: usize, id: usize)
        requires
            old(self).inv(),
        ensures
            final(self).inv(),
            final(self).playlist_model().ids_seq() == identity_seq(lib_count as nat),
            final(self).spec_volume() == old(self).spec_volume(),
            final(self).spec_mute() == old(self).spec_mute(),
            final(self).spec_volume_step() == old(self).spec_volume_step(),
            final(self).spec_shuffle_current() == old(self).spec_shuffle_current(),
            id < lib_count ==> final(self).playlist_model().spec_current_id() == Some(id),
            id >= lib_count && lib_count > 0 ==> final(self).playlist_model().position() == Some(
                0usize,
            ),
            lib_count == 0 ==> final(self).playlist_model().position() is None && final(self).spec_state() == PlayState::Stopped,
    {
        let ids = identity_vec(lib_count);
        self.playlist.set_playlist(ids);
        self.changed = true;
        proof {
            if id < lib_count {
                assert(self.playlist.ids_seq()[id as int] == id);
                assert(self.playlist.ids_seq().contains(id));
            }
        }
        let found = self.playlist.set_current_to(id);
        if !found && lib_count > 0 {
            self.playlist.set_position(0);
        }
        if self.playlist.get_position().is_some() {
            if self.state == PlayState::Stopped {
                self.state = PlayState::Paused;
            }
        } else {
            self.state = PlayState::Stopped;
        }
    }

    /// Selects the first playlist entry holding the song id `id`; when the
    /// id is not in the playlist the selection is left unchanged.
    pub fn find_current(&mut self, id: usize)
        requires
            old(self).inv(),
        ensures
            final(self).inv(),
            final(self).playlist_model().ids_seq() == old(self).playlist_model().ids_seq(),
            final(self).spec_volume() == old(self).spec_volume(),
            final(self).spec_mute() == old(self).spec_mute(),
            final(self).spec_volume_step() == old(self).spec_volume_step(),
            final(self).spec_shuffle_current() == old(self).spec_shuffle_current(),
            old(self).playlist_model().ids_seq().contains(id) ==> final(self).playlist_model().spec_current_id() == Some(id) && final(self).spec_state() == (
            if old(self).spec_state() == PlayState::Stopped {
                PlayState::Paused
            } else {
                old(self).spec_state()
            }),
            old(self).playlist_model().ids_seq().contains(id) ==> match final(self).playlist_model().position() {
                Some(i) => final(self).playlist_model().ids_seq()[i as int] == id
                    && (forall|j: int|
                        0 <= j < i ==> final(self).playlist_model().ids_seq()[j] != id),
                None => false,
            },
            !old(self).playlist_model().ids_seq().contains(id) ==> *final(self) == *old(self),
    {
        let found = self.playlist.set_current_to(id);
        if found {
            self.changed = true;
            if self.state == PlayState::Stopped {
                self.state = PlayState::Paused;
            }
        }
    }
}

impl Player {
    /// Routes one playback control message: updates the engine state and
    /// says what the caller must now do at the sink.  Every control surface
    /// funnels into this one function, so all of them drive identical
    /// semantics.
    pub fn handle_msg(&mut self, msg: PlayerMsg, lib: &Library) -> (r: EngineAction)
        requires
            old(self).inv(),
        ensures
            final(self).inv(),
            final(self).spec_volume() == old(self).spec_volume(),
            final(self).spec_mute() == old(self).spec_mute(),
            final(self).spec_volume_step() == old(self).spec_volume_step(),
            final(self).spec_shuffle_current() == old(self).spec_shuffle_current(),
            msg matches PlayerMsg::Play(p) ==> {
                &&& *final(self) == *old(self)
                &&& old(self).spec_state() == PlayState::Stopped ==> r == EngineAction::Idle
                &&& old(self).spec_state() != PlayState::Stopped ==> r == EngineAction::Play(
                    resolve_flag(p, old(self).spec_state() == PlayState::Playing),
                )
            },
            msg matches PlayerMsg::Next(n) ==> match old(self).playlist_model().position() {
                None => r == EngineAction::Idle && *final(self) == *old(self),
                Some(p) => {
                    let len = old(self).playlist_model().ids_seq().len() as int;
                    let by = match n {
                        Some(k) => k as int,
                        None => 1int,
                    };
                    let np = wrap_add(p as int, by, len);
                    &&& final(self).playlist_model().position() == Some(np as usize)
                    &&& r == EngineAction::Load(
                        LoadRequest {
                            song: old(self).playlist_model().ids_seq()[np],
                            play: old(self).spec_state() == PlayState::Playing,
                        },
                    )
                    &&& final(self).spec_state() == old(self).spec_state()
                    &&& final(self).playlist_model().ids_seq() == old(
                        self,
                    ).playlist_model().ids_seq()
                },
            },
            msg matches PlayerMsg::Prev(n) ==> match old(self).playlist_model().position() {
                None => r == EngineAction::Idle && *final(self) == *old(self),
                Some(p) => {
                    let len = old(self).playlist_model().ids_seq().len() as int;
                    let by = match n {
                        Some(k) => k as int,
                        None => 1int,
                    };
                    let np = wrap_sub(p as int, by, len);
                    &&& final(self).playlist_model().position() == Some(np as usize)
                    &&& r == EngineAction::Load(
                        LoadRequest {
                            song: old(self).playlist_model().ids_seq()[np],
                            play: old(self).spec_state() == PlayState::Playing,
                        },
                    )
                    &&& final(self).spec_state() == old(self).spec_state()
                    &&& final(self).playlist_model().ids_seq() == old(
                        self,
                    ).playlist_model().ids_seq()
                },
            },
            msg matches PlayerMsg::PlaySong(id, fresh) ==> {
                &&& fresh ==> {
                    &&& final(self).playlist_model().ids_seq() == identity_seq(
                        lib.songs_seq().len(),
                    )
                    &&& id < lib.songs_seq().len() ==> r == EngineAction::Load(
                        LoadRequest { song: id, play: true },
                    ) && final(self).playlist_model().spec_current_id() == Some(id)
                    &&& id >= lib.songs_seq().len() && lib.songs_seq().len() > 0 ==> r
                        == EngineAction::Load(LoadRequest { song: 0, play: true }) && final(self).playlist_model().position() == Some(0usize)
                    &&& lib.songs_seq().len() == 0 ==> r == EngineAction::Idle && final(self).spec_state() == PlayState::Stopped
                }
                &&& !fresh ==> {
                    &&& final(self).playlist_model().ids_seq() == old(
                        self,
                    ).playlist_model().ids_seq()
                    &&& old(self).playlist_model().ids_seq().contains(id) ==> r
                        == EngineAction::Load(LoadRequest { song: id, play: true }) && final(self).playlist_model().spec_current_id() == Some(id)
                    &&& !old(self).playlist_model().ids_seq().contains(id)
                        ==> match old(self).playlist_model().position() {
                        Some(p) => r == EngineAction::Load(
                            LoadRequest {
                                song: old(self).playlist_model().ids_seq()[p as int],
                                play: true,
                            },
                        ) && final(self).playlist_model().position() == Some(p),
                        None => r == EngineAction::Idle && *final(self) == *old(self),
                    }
                }
            },
            msg matches PlayerMsg::SeekTo(t) ==> r == EngineAction::QueryTimestamp(t) && *final(self) == *old(self),
            msg == PlayerMsg::SongEnd ==> match old(self).playlist_model().position() {
                None => r == EngineAction::Idle && *final(self) == *old(self),
                Some(p) => {
                    let np = wrap_add(
                        p as int,
                        1,
                        old(self).playlist_model().ids_seq().len() as int,
                    );
                    &&& final(self).playlist_model().position() == Some(np as usize)
                    &&& r == EngineAction::Load(
                        LoadRequest {
                            song: old(self).playlist_model().ids_seq()[np],
                            play: old(self).spec_state() == PlayState::Playing,
                        },
                    )
                    &&& final(self).spec_state() == old(self).spec_state()
                },
            },
            msg matches PlayerMsg::Volume(v) ==> r == EngineAction::SetVolume(v) && *final(self)
                == *old(self),
            msg matches PlayerMsg::VolumeUp(s) ==> *final(self) == *old(self) && r
                == EngineAction::SetVolume(
                clamp_milli(
                    old(self).spec_volume() + match s {
                        Some(k) => k as int,
                        None => old(self).spec_volume_step() as int,
                    },
                ) as i64,
            ),
            msg matches PlayerMsg::VolumeDown(s) ==> *final(self) == *old(self) && r
                == EngineAction::SetVolume(
                clamp_milli(
                    old(self).spec_volume() - match s {
                        Some(k) => k as int,
                        None => old(self).spec_volume_step() as int,
                    },
                ) as i64,
            ),
            msg matches PlayerMsg::Mute(m) ==> *final(self) == *old(self) && r
                == EngineAction::SetMuteGain(resolve_flag(m, old(self).spec_mute())),
            msg == PlayerMsg::Shuffle ==> {
                &&& r == EngineAction::Idle
                &&& final(self).playlist_model().ids_seq().to_multiset() == old(
                    self,
                ).playlist_model().ids_seq().to_multiset()
                &&& final(self).spec_state() == old(self).spec_state()
                &&& final(self).spec_volume() == old(self).spec_volume()
                &&& final(self).spec_mute() == old(self).spec_mute()
                &&& old(self).playlist_model().position() is None ==> *final(self) == *old(self)
                &&& old(self).playlist_model().position() is Some ==> final(self).playlist_model().spec_current_id() == old(
                    self,
                ).playlist_model().spec_current_id()
                &&& (old(self).playlist_model().position() is Some && !old(
                    self,
                ).spec_shuffle_current()) ==> final(self).playlist_model().position() == Some(
                    0usize,
                )
            },
    {
        match msg {
            PlayerMsg::Play(p) => {
                match self.resolve_play(p) {
                    Some(flag) => EngineAction::Play(flag),
                    None => EngineAction::Idle,
                }
            },
            PlayerMsg::Next(n) => {
                match self.next(n) {
                    Some(req) => EngineAction::Load(req),
                    None => EngineAction::Idle,
                }
            },
            PlayerMsg::Prev(n) => {
                match self.prev(n) {
                    Some(req) => EngineAction::Load(req),
                    None => EngineAction::Idle,
                }
            },
            PlayerMsg::PlaySong(id, fresh) => {
                if fresh {
                    self.create_playlist(lib.count(), id);
                } else {
                    self.find_current(id);
                }
                match self.get_current() {
                    Some(current) => {
                        match self.play_at(current, true) {
                            Some(req) => EngineAction::Load(req),
                            None => EngineAction::Idle,
                        }
                    },
                    None => EngineAction::Idle,
                }
            },
            PlayerMsg::SeekTo(t) => EngineAction::QueryTimestamp(t),
            PlayerMsg::SongEnd => {
                match self.next(Some(1)) {
                    Some(req) => EngineAction::Load(req),
                    None => EngineAction::Idle,
                }
            },
            PlayerMsg::Volume(v) => EngineAction::SetVolume(v),
            PlayerMsg::VolumeUp(s) => {
                let target = self.volume_up_target(s);
                EngineAction::SetVolume(target as i64)
            },
            PlayerMsg::VolumeDown(s) => {
                let target = self.volume_down_target(s);
                EngineAction::SetVolume(target as i64)
            },
            PlayerMsg::Mute(m) => EngineAction::SetMuteGain(self.resolve_mute(m)),
            PlayerMsg::Shuffle => {
                self.shuffle();
                EngineAction::Idle
            },
        }
    }
}

/// The vector `[0, 1, ..., n-1]`.
fn identity_vec(n: usize) -> (r: Vec<usize>)
    ensures
        r@ == identity_seq(n as nat),
{
    let mut v: Vec<usize> = Vec::new();
    let mut i: usize = 0;
    while i < n
        invariant
            i <= n,
            v@ == identity_seq(i as nat),
        decreases n - i,
    {
        v.push(i);
        i = i + 1;
        assert(v@ =~= identity_seq(i as nat));
    }
    v
}

impl Default for Player {
    /// A fresh engine: stopped, empty playlist, full volume, unmuted.
    fn default() -> (r: Player)
        ensures
            r.inv(),
            r.playlist_model().ids_seq() == Seq::<usize>::empty(),
            r.playlist_model().position() is None,
            r.spec_state() == PlayState::Stopped,
            r.spec_volume() == 1000,
            !r.spec_mute(),
            r.spec_shuffle_current(),
            r.spec_volume_step() == 100,
    {
        Player {
            playlist: Playlist::new(),
            volume: 1000,
            mute: false,
            state: PlayState::Stopped,
            shuffle_current: true,
            volume_step: 100,
            changed: true,
        }
    }
}

impl Default for PlayerData {
    /// Defaults used when no persisted state can be read: nothing selected,
    /// full volume, unmuted, empty playlist.
    fn default() -> (r: PlayerData)
        ensures
            r.current_song_id is None,
            r.volume == 1000,
            !r.mute,
            r.playlist@ == Seq::<usize>::empty(),
    {
        PlayerData { current_song_id: None, volume: 1000, mute: false, playlist: Vec::new() }
    }
}

/// Muting never touches the stored volume, however often it is applied:
/// one mute transition keeps the volume, and muting then unmuting restores
/// exactly the volume held before while ending unmuted.
pub proof fn lemma_mute_round_trip(p: Player, m: bool)
    ensures
        p.mute_applied(m).spec_volume() == p.spec_volume(),
        p.mute_applied(true).mute_applied(false).spec_volume() == p.spec_volume(),
        !p.mute_applied(true).mute_applied(false).spec_mute(),
        p.mute_applied(m).mute_applied(!m).spec_volume() == p.spec_volume(),
{
}

} // verus!
