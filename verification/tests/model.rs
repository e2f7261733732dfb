//! Tests for the data model around the engine: playlist wraparound, song
//! display strings, configuration and settings, window state.

use bump::config::{ConfMsg, Config};
use bump::gui::Gui;
use bump::library::Library;
use bump::playlist::Playlist;
use bump::settings::{convert_to_duration, Settings, SettingsAction, SettingsMsg, SettingsPage};
use bump::song::Song;

fn song(name: &str, year: i32, length_ms: u64) -> Song {
    Song::new(
        format!("/music/{name}.flac"),
        name.to_string(),
        "someone".to_string(),
        "somewhere".to_string(),
        year,
        length_ms,
        "something".to_string(),
    )
}

/// Advancing one place from the last position wraps to the front, and
/// retreating one place from the front wraps to the back.
#[test]
fn single_step_wraparound() {
    let mut pl = Playlist::new();
    pl.set_playlist(vec![10, 11, 12]);
    pl.set_position(2);
    pl.advance(1);
    assert_eq!(pl.get_position(), Some(0));
    pl.retreat(1);
    assert_eq!(pl.get_position(), Some(2));
    // and for a one-entry playlist every step stays at the front
    let mut pl = Playlist::new();
    pl.set_playlist(vec![7]);
    pl.set_position(0);
    pl.advance(1);
    assert_eq!(pl.get_position(), Some(0));
    pl.retreat(1);
    assert_eq!(pl.get_position(), Some(0));
}

#[test]
fn multi_step_wraparound() {
    let mut pl = Playlist::new();
    pl.set_playlist(vec![0, 1, 2, 3, 4]);
    pl.set_position(3);
    pl.advance(4);
    assert_eq!(pl.get_position(), Some(2));
    pl.advance(10);
    assert_eq!(pl.get_position(), Some(2));
    pl.retreat(7);
    assert_eq!(pl.get_position(), Some(0));
    // empty playlists ignore stepping
    let mut pl = Playlist::new();
    pl.advance(3);
    pl.retreat(3);
    assert_eq!(pl.get_position(), None);
}

#[test]
fn find_first_occurrence() {
    let mut pl = Playlist::new();
    pl.set_playlist(vec![3, 1, 4, 1, 5]);
    assert_eq!(pl.find_position(1), Some(1));
    assert_eq!(pl.find_position(5), Some(4));
    assert_eq!(pl.find_position(9), None);
    assert!(pl.set_current_to(4));
    assert_eq!(pl.get_position(), Some(2));
    assert_eq!(pl.current_id(), Some(4));
    assert!(!pl.set_current_to(9));
    assert_eq!(pl.get_position(), Some(2));
}

#[test]
fn length_strings() {
    assert_eq!(song("a", 2020, 0).get_length_str(), "--:--");
    assert_eq!(song("a", 2020, 61_000).get_length_str(), "01:01");
    assert_eq!(song("a", 2020, 59_999).get_length_str(), "00:59");
    assert_eq!(song("a", 2020, 3_661_000).get_length_str(), "01:01:01");
    assert_eq!(song("a", 2020, 90_061_000).get_length_str(), "1d:01:01:01");
    assert_eq!(song("a", 2020, 600_000).get_length_str(), "10:00");
}

#[test]
fn year_strings() {
    assert_eq!(song("a", 2020, 0).get_year_str(), "2020");
    assert_eq!(song("a", -44, 0).get_year_str(), "-44");
    assert_eq!(song("a", i32::MAX, 0).get_year_str(), "-");
    assert_eq!(song("a", 0, 0).get_year_str(), "0");
}

#[test]
fn song_attributes() {
    let mut s = song("tune", 1999, 123_000);
    assert_eq!(s.get_name(), "tune");
    assert_eq!(s.get_artist(), "someone");
    assert_eq!(s.get_album(), "somewhere");
    assert_eq!(s.get_genre(), "something");
    assert_eq!(s.get_path(), "/music/tune.flac");
    assert_eq!(s.get_year(), 1999);
    assert_eq!(s.get_length(), 123_000);
    assert!(!s.get_deleted());
    s.set_deleted(true);
    assert!(s.get_deleted());
    let d = Song::default();
    assert_eq!(d.get_name(), "Not playing");
    assert!(d.get_deleted());
}

#[test]
fn library_lookup() {
    let mut lib = Library::new();
    assert_eq!(lib.count(), 0);
    lib.set_songs(vec![song("x", 2001, 1000), song("y", 2002, 2000)]);
    assert_eq!(lib.count(), 2);
    assert_eq!(lib.get_song(1).get_name(), "y");
    assert_eq!(lib.get_song(2).get_name(), "Not playing");
    assert_eq!(lib.get_songs().len(), 2);
}

/// The scan merge rule: everything is first marked deleted; a re-found
/// path is marked present again, a fresh one is appended.
#[test]
fn scan_merge_rule() {
    let mut lib = Library::new();
    lib.set_songs(vec![song("a", 2000, 1000), song("b", 2001, 2000)]);
    lib.mark_all_deleted();
    assert!(lib.get_song(0).get_deleted());
    assert!(lib.get_song(1).get_deleted());
    assert_eq!(lib.get_song(0).get_name(), "a");

    // "a" is found again: marked present, not duplicated
    assert!(lib.absorb(song("a", 2000, 1000)));
    assert_eq!(lib.count(), 2);
    assert!(!lib.get_song(0).get_deleted());
    assert!(lib.get_song(1).get_deleted());

    // "c" is new: appended
    assert!(!lib.absorb(song("c", 2002, 3000)));
    assert_eq!(lib.count(), 3);
    assert_eq!(lib.get_song(2).get_name(), "c");
    assert!(!lib.get_song(2).get_deleted());
}

#[test]
fn config_defaults_and_messages() {
    let mut config = Config::default();
    assert_eq!(config.server_ip, "127.0.0.1");
    assert_eq!(config.server_port, "2867");
    assert_eq!(config.get_server_address(), "127.0.0.1:2867");
    assert_eq!(Config::get_app_id(), "bump");
    assert_eq!(config.fade_ms, 150);
    assert_eq!(config.volume_step, 100);
    assert!(!config.shuffle_current);
    assert!(!config.autoplay);
    assert_eq!(config.paths, vec![".".to_string()]);
    assert_eq!(
        config.hotkeys,
        vec![
            ("ctrl+alt+home".to_string(), "pp".to_string()),
            ("ctrl+alt+pg_up".to_string(), "prev".to_string()),
            ("ctrl+alt+pg_down".to_string(), "next".to_string()),
            ("ctrl+alt+up".to_string(), "vu".to_string()),
            ("ctrl+alt+down".to_string(), "vd".to_string()),
        ]
    );

    config.conf_update(ConfMsg::AddPath(vec!["/music".to_string()]));
    assert_eq!(config.paths.len(), 2);
    config.conf_update(ConfMsg::RemPath(0));
    assert_eq!(config.paths, vec!["/music".to_string()]);
    config.conf_update(ConfMsg::RemPath(7));
    assert_eq!(config.paths.len(), 1);
    config.conf_update(ConfMsg::ShuffleCurrent(true));
    assert!(config.shuffle_current);
    config.conf_update(ConfMsg::Gapless(true));
    assert!(config.gapless);
    config.conf_update(ConfMsg::ResetAll);
    assert!(!config.gapless);
    assert_eq!(config.paths, vec![".".to_string()]);
}

#[test]
fn settings_round_trip() {
    let config = Config::default();
    let settings = Settings::new(&config);
    assert_eq!(settings.page, SettingsPage::Library);
    assert_eq!(settings.fade, "00:00.150");
    assert_eq!(settings.vol_jmp, "0.1");

    // the rendered fields parse back to the configured values
    assert_eq!(convert_to_duration(&settings.fade), Some(config.fade_ms));

    let mut config = Config::default();
    config.volume_step = 250;
    config.fade_ms = 61_500;
    let settings = Settings::new(&config);
    assert_eq!(settings.vol_jmp, "0.25");
    assert_eq!(settings.fade, "01:01.500");
    assert_eq!(convert_to_duration(&settings.fade), Some(61_500));
}

#[test]
fn settings_updates() {
    let mut config = Config::default();
    let mut settings = Settings::new(&config);

    assert_eq!(
        settings.settings_update(&mut config, SettingsMsg::Page(SettingsPage::Playback)),
        SettingsAction::Quiet
    );
    assert_eq!(settings.page, SettingsPage::Playback);

    settings.settings_update(&mut config, SettingsMsg::Fade("00:02.250".to_string()));
    assert_eq!(
        settings.settings_update(&mut config, SettingsMsg::FadeSave),
        SettingsAction::FadeChanged(2250)
    );
    assert_eq!(config.fade_ms, 2250);

    settings.settings_update(&mut config, SettingsMsg::Fade("nonsense".to_string()));
    assert_eq!(settings.settings_update(&mut config, SettingsMsg::FadeSave), SettingsAction::Quiet);
    assert_eq!(config.fade_ms, 2250);

    settings.settings_update(&mut config, SettingsMsg::VolJump("0.2".to_string()));
    assert_eq!(
        settings.settings_update(&mut config, SettingsMsg::VolJumpSave),
        SettingsAction::StepChanged(200)
    );
    assert_eq!(config.volume_step, 200);

    settings.settings_update(&mut config, SettingsMsg::VolJump("-1".to_string()));
    assert_eq!(
        settings.settings_update(&mut config, SettingsMsg::VolJumpSave),
        SettingsAction::Quiet
    );
    assert_eq!(config.volume_step, 200);

    // a step beyond full volume is rejected too
    settings.settings_update(&mut config, SettingsMsg::VolJump("2".to_string()));
    assert_eq!(
        settings.settings_update(&mut config, SettingsMsg::VolJumpSave),
        SettingsAction::Quiet
    );
    assert_eq!(config.volume_step, 200);

    assert_eq!(
        settings.settings_update(&mut config, SettingsMsg::PickSearchPath),
        SettingsAction::PickFolder
    );
}

#[test]
fn fade_field_grammar() {
    assert_eq!(convert_to_duration("00:00.150"), Some(150));
    assert_eq!(convert_to_duration("01:30.000"), Some(90_000));
    assert_eq!(convert_to_duration("0:1.5"), Some(1005));
    assert_eq!(convert_to_duration("00:00.1000"), None);
    assert_eq!(convert_to_duration("00:00"), None);
    assert_eq!(convert_to_duration("150"), None);
    assert_eq!(convert_to_duration(":."), None);
}

#[test]
fn window_state() {
    let mut gui = Gui::default();
    assert_eq!(gui.get_size(), (1280, 720));
    assert_eq!(gui.get_pos(), None);
    assert!(!gui.changed);
    gui.set_size(800, 600);
    gui.set_pos(10, 20);
    assert_eq!(gui.get_size(), (800, 600));
    assert_eq!(gui.get_pos(), Some((10, 20)));
    assert!(gui.changed);
}
