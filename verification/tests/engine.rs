//! Scenario tests for the playback control engine.

use bump::config::Config;
use bump::library::Library;
use bump::msg::PlayerMsg;
use bump::player::{clamp_volume, gain_millionths, EngineAction, LoadRequest, PlayState, Player, PlayerData};
use bump::song::Song;

fn data(current: Option<usize>, volume: u32, mute: bool, playlist: Vec<usize>) -> PlayerData {
    PlayerData { current_song_id: current, volume, mute, playlist }
}

fn song(name: &str) -> Song {
    Song::new(
        format!("/tmp/{name}.mp3"),
        name.to_string(),
        "artist".to_string(),
        "album".to_string(),
        2020,
        180_000,
        "genre".to_string(),
    )
}

fn library_of(count: usize) -> Library {
    let mut lib = Library::new();
    let mut songs = Vec::new();
    for i in 0..count {
        songs.push(song(&format!("song{i}")));
    }
    lib.set_songs(songs);
    lib
}

/// Playlist `[3,1,4,1,5]`, position 0, playing: `Next(None)` moves to
/// position 1 (song id 1) and keeps playing; `Prev(Some(2))` from position
/// 1 wraps to position 4 (song id 5).
#[test]
fn next_and_prev_wrap_through_playlist() {
    let lib = library_of(6);
    let config = Config::default();
    let mut player = Player::load(data(Some(3), 1000, false, vec![3, 1, 4, 1, 5]), &config);
    player.play(true, true);
    assert_eq!(player.get_state(), PlayState::Playing);
    assert_eq!(player.get_current(), Some(0));
    assert_eq!(player.get_current_id(), Some(3));

    let action = player.handle_msg(PlayerMsg::Next(None), &lib);
    assert_eq!(action, EngineAction::Load(LoadRequest { song: 1, play: true }));
    player.play(true, true);
    assert_eq!(player.get_current(), Some(1));
    assert_eq!(player.get_current_id(), Some(1));
    assert_eq!(player.get_state(), PlayState::Playing);

    let action = player.handle_msg(PlayerMsg::Prev(Some(2)), &lib);
    assert_eq!(action, EngineAction::Load(LoadRequest { song: 5, play: true }));
    player.play(true, true);
    assert_eq!(player.get_current(), Some(4));
    assert_eq!(player.get_current_id(), Some(5));
}

/// A stopped engine ignores `Next` and `Prev`, and reports no current song.
#[test]
fn next_prev_are_noops_when_stopped() {
    let lib = library_of(4);
    let config = Config::default();
    let mut player = Player::new(data(None, 1000, false, vec![]), &config, 4);
    assert_eq!(player.get_state(), PlayState::Stopped);
    assert_eq!(player.handle_msg(PlayerMsg::Next(None), &lib), EngineAction::Idle);
    assert_eq!(player.handle_msg(PlayerMsg::Prev(None), &lib), EngineAction::Idle);
    assert_eq!(player.get_current_id(), None);
    assert_eq!(player.get_state(), PlayState::Stopped);
}

/// `PlaySong(7, true)` with a ten-song library rebuilds the playlist to
/// `[0..10]`, selects position 7 and starts playback.
#[test]
fn play_song_rebuilds_playlist() {
    let lib = library_of(10);
    let config = Config::default();
    let mut player = Player::new(data(None, 1000, false, vec![]), &config, 10);
    let action = player.handle_msg(PlayerMsg::PlaySong(7, true), &lib);
    assert_eq!(action, EngineAction::Load(LoadRequest { song: 7, play: true }));
    player.play(true, true);
    assert_eq!(player.get_playlist().as_slice(), (0..10).collect::<Vec<_>>().as_slice());
    assert_eq!(player.get_current_id(), Some(7));
    assert_eq!(player.get_state(), PlayState::Playing);
}

/// Persisted state `{current_song_id: 4, volume: 0.6, mute: false,
/// playlist: [4,2,9]}` loads with song 4 selected and volume 0.6 (600
/// thousandths).
#[test]
fn persisted_state_round_trips() {
    let config = Config::default();
    let mut player = Player::load(data(Some(4), 600, false, vec![4, 2, 9]), &config);
    assert_eq!(player.get_current_id(), Some(4));
    assert_eq!(player.get_current(), Some(0));
    assert_eq!(player.get_volume(), 600);
    assert!(!player.get_mute());

    let saved = player.take_save_data().expect("fresh state is dirty");
    assert_eq!(saved.current_song_id, Some(4));
    assert_eq!(saved.volume, 600);
    assert!(!saved.mute);
    assert_eq!(saved.playlist, vec![4, 2, 9]);
    // nothing changed since: no second save
    assert!(player.take_save_data().is_none());
}

/// Muting and unmuting restores exactly the stored volume, however often
/// the flag is toggled.
#[test]
fn mute_round_trip_restores_volume() {
    let config = Config::default();
    let mut player = Player::load(data(Some(0), 700, false, vec![0]), &config);
    for _ in 0..5 {
        player.mute(Some(true), true);
        assert!(player.get_mute());
        assert_eq!(player.get_volume(), 700);
        player.mute(Some(false), true);
        assert!(!player.get_mute());
        assert_eq!(player.get_volume(), 700);
    }
    player.mute(None, true);
    assert!(player.get_mute());
    assert_eq!(player.get_volume(), 700);
    player.mute(None, true);
    assert!(!player.get_mute());
    assert_eq!(player.get_volume(), 700);
}

/// Volume values outside the stored range are clamped before being stored.
#[test]
fn volume_is_clamped() {
    let config = Config::default();
    let mut player = Player::load(data(None, 500, false, vec![]), &config);
    player.set_vol(5000, true);
    assert_eq!(player.get_volume(), 1000);
    player.set_vol(-100, true);
    assert_eq!(player.get_volume(), 0);
    player.set_vol(250, true);
    assert_eq!(player.get_volume(), 250);
    assert_eq!(clamp_volume(1_000_000_000), 1000);
    assert_eq!(clamp_volume(-7), 0);
    assert_eq!(clamp_volume(999), 999);
    // a persisted volume beyond the range is clamped on load
    let player = Player::load(data(None, 4000, false, vec![]), &config);
    assert_eq!(player.get_volume(), 1000);
}

/// Volume steps move from the stored volume and clamp; the configured step
/// is used when none is given.
#[test]
fn volume_steps() {
    let config = Config::default();
    let mut player = Player::load(data(None, 500, false, vec![]), &config);
    assert_eq!(player.volume_up_target(None), 600); // configured step 0.1
    assert_eq!(player.volume_up_target(Some(300)), 800);
    assert_eq!(player.volume_up_target(Some(700)), 1000);
    assert_eq!(player.volume_down_target(Some(700)), 0);
    let up = player.handle_msg(PlayerMsg::VolumeUp(None), &Library::new());
    assert_eq!(up, EngineAction::SetVolume(600));
    player.set_vol(600, true);
    assert_eq!(player.get_volume(), 600);
}

/// The sink gain is the square of the volume.
#[test]
fn perceptual_gain_is_squared() {
    assert_eq!(gain_millionths(1000), 1_000_000);
    assert_eq!(gain_millionths(500), 250_000);
    assert_eq!(gain_millionths(0), 0);
}

/// Seeking past the current song's end advances to the next song instead
/// of clamping; an in-range seek just seeks.
#[test]
fn seek_past_end_advances() {
    let config = Config::default();
    let mut player = Player::load(data(Some(3), 1000, false, vec![3, 1, 4]), &config);
    player.play(true, true);
    let action = player.seek_with_total(200_000, Some(180_000));
    assert_eq!(action, EngineAction::Load(LoadRequest { song: 1, play: true }));
    assert_eq!(player.get_current(), Some(1));

    let action = player.seek_with_total(100_000, Some(180_000));
    assert_eq!(action, EngineAction::Seek(100_000));
    assert_eq!(player.get_current(), Some(1));

    // seeking past the end on the last song wraps to the front
    let action = player.handle_msg(PlayerMsg::Next(None), &Library::new());
    assert!(matches!(action, EngineAction::Load(_)));
    player.play(true, true);
    assert_eq!(player.get_current(), Some(2));
    let action = player.seek_with_total(999_000, Some(180_000));
    assert_eq!(action, EngineAction::Load(LoadRequest { song: 3, play: true }));
    assert_eq!(player.get_current(), Some(0));
}

/// A failed sink call leaves the engine state exactly as it was.
#[test]
fn sink_failure_rolls_back() {
    let config = Config::default();
    let mut player = Player::load(data(Some(3), 700, false, vec![3, 1, 4]), &config);
    assert_eq!(player.get_state(), PlayState::Paused);
    player.play(true, false);
    assert_eq!(player.get_state(), PlayState::Paused);
    player.set_vol(100, false);
    assert_eq!(player.get_volume(), 700);
    player.mute(Some(true), false);
    assert!(!player.get_mute());
}

/// `Play` resolves an explicit request, toggles without one, and does
/// nothing when stopped.
#[test]
fn play_pause_resolution() {
    let lib = library_of(4);
    let config = Config::default();
    let mut stopped = Player::new(data(None, 1000, false, vec![]), &config, 0);
    assert_eq!(stopped.handle_msg(PlayerMsg::Play(None), &lib), EngineAction::Idle);

    let mut player = Player::load(data(Some(1), 1000, false, vec![1, 2]), &config);
    assert_eq!(player.get_state(), PlayState::Paused);
    assert_eq!(player.handle_msg(PlayerMsg::Play(None), &lib), EngineAction::Play(true));
    player.play(true, true);
    assert_eq!(player.get_state(), PlayState::Playing);
    assert_eq!(player.handle_msg(PlayerMsg::Play(None), &lib), EngineAction::Play(false));
    player.play(false, true);
    assert_eq!(player.get_state(), PlayState::Paused);
    assert_eq!(player.handle_msg(PlayerMsg::Play(Some(true)), &lib), EngineAction::Play(true));
    assert_eq!(player.handle_msg(PlayerMsg::Play(Some(false)), &lib), EngineAction::Play(false));
}

/// `Stop` clears the selection and the engine reports nothing as playing.
#[test]
fn stop_clears_selection() {
    let config = Config::default();
    let mut player = Player::load(data(Some(2), 1000, false, vec![2, 3]), &config);
    player.play(true, true);
    player.stop();
    assert_eq!(player.get_state(), PlayState::Stopped);
    assert_eq!(player.get_current(), None);
    assert_eq!(player.get_current_id(), None);
    // the playlist itself survives a stop
    assert_eq!(player.get_playlist().as_slice(), &[2, 3]);
}

/// Shuffle keeps the same song selected; with the pinning configuration it
/// moves the song to the front.
#[test]
fn shuffle_preserves_current_song() {
    let mut config = Config::default();
    config.shuffle_current = false; // pin the playing song at the front
    let mut player = Player::load(data(Some(7), 1000, false, (0..50).collect()), &config);
    let before = player.get_current_id();
    player.shuffle();
    assert_eq!(player.get_current_id(), before);
    assert_eq!(player.get_current(), Some(0));
    let mut ids = player.get_playlist().clone();
    ids.sort();
    assert_eq!(ids, (0..50).collect::<Vec<_>>());

    // with the flag on, the song may move but stays selected
    config.shuffle_current = true;
    let mut player = Player::load(data(Some(7), 1000, false, (0..50).collect()), &config);
    player.shuffle();
    assert_eq!(player.get_current_id(), Some(7));
    let mut ids = player.get_playlist().clone();
    ids.sort();
    assert_eq!(ids, (0..50).collect::<Vec<_>>());
}

/// An id not in the rebuilt playlist falls back to the front; rebuilding
/// over an empty library stops the engine.
#[test]
fn play_song_fallbacks() {
    let lib = library_of(3);
    let config = Config::default();
    let mut player = Player::load(data(Some(1), 1000, false, vec![0, 1, 2]), &config);
    let action = player.handle_msg(PlayerMsg::PlaySong(9, true), &lib);
    assert_eq!(action, EngineAction::Load(LoadRequest { song: 0, play: true }));
    assert_eq!(player.get_current(), Some(0));

    let empty = Library::new();
    let action = player.handle_msg(PlayerMsg::PlaySong(0, true), &empty);
    assert_eq!(action, EngineAction::Idle);
    assert_eq!(player.get_state(), PlayState::Stopped);
}

/// Looking up a stale index yields the placeholder song, never a panic.
#[test]
fn stale_indices_yield_placeholder() {
    let lib = library_of(2);
    let config = Config::default();
    let player = Player::load(data(Some(9), 1000, false, vec![9]), &config);
    let song = player.get_current_song(&lib);
    assert_eq!(song.get_name(), "Not playing");
    assert!(song.get_deleted());
    assert_eq!(lib.get_song(17).get_name(), "Not playing");
    assert_eq!(lib.get_song(0).get_name(), "song0");
}

/// The startup volume fallback: when the sink refuses the initial gain, a
/// muted engine unmutes, an unmuted one goes to full volume.
#[test]
fn startup_volume_fallback() {
    let config = Config::default();
    let mut player = Player::load(data(None, 300, true, vec![]), &config);
    player.init_volume(false);
    assert!(!player.get_mute());
    assert_eq!(player.get_volume(), 300);

    let mut player = Player::load(data(None, 300, false, vec![]), &config);
    player.init_volume(false);
    assert_eq!(player.get_volume(), 1000);

    let mut player = Player::load(data(None, 300, true, vec![]), &config);
    player.init_volume(true);
    assert!(player.get_mute());
    assert_eq!(player.get_volume(), 300);
}

/// An empty persisted playlist is replaced by the whole library in order.
#[test]
fn empty_playlist_filled_from_library() {
    let config = Config::default();
    let player = Player::new(data(None, 1000, false, vec![]), &config, 5);
    assert_eq!(player.get_playlist().as_slice(), &[0, 1, 2, 3, 4]);
    // a non-empty persisted playlist is kept as it is
    let player = Player::new(data(None, 1000, false, vec![2, 0]), &config, 5);
    assert_eq!(player.get_playlist().as_slice(), &[2, 0]);
}

/// A persisted song id that is not in the playlist leaves the engine
/// stopped.
#[test]
fn missing_persisted_song_id() {
    let config = Config::default();
    let player = Player::load(data(Some(9), 1000, false, vec![1, 2, 3]), &config);
    assert_eq!(player.get_state(), PlayState::Stopped);
    assert_eq!(player.get_current(), None);
}

/// `SongEnd` behaves as a single `Next`, keeping the playing intent.
#[test]
fn song_end_advances() {
    let lib = library_of(3);
    let config = Config::default();
    let mut player = Player::load(data(Some(0), 1000, false, vec![0, 1, 2]), &config);
    player.play(true, true);
    let action = player.handle_msg(PlayerMsg::SongEnd, &lib);
    assert_eq!(action, EngineAction::Load(LoadRequest { song: 1, play: true }));
    player.play(true, true);
    assert_eq!(player.get_current(), Some(1));
    assert_eq!(player.get_state(), PlayState::Playing);
}
