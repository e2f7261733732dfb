//! Tests for the command-token grammar shared by the CLI, the hotkey layer
//! and the network protocol, and for the smaller text parsers.

use bump::cli::{classify_arg, CliCommand};
use bump::instance::Instance;
use bump::msg::{LibMsg, Msg, PlayerMsg};
use bump::server::{Server, ServerRoute};
use bump::strutil::{find_char, parse_milli, str_eq, str_starts_with};

fn msg_of(token: &str) -> Option<Msg> {
    Instance::get_action_msg(token)
}

#[test]
fn play_pause_tokens() {
    assert_eq!(msg_of("pp"), Some(Msg::Plr(PlayerMsg::Play(None))));
    assert_eq!(msg_of("play-pause"), Some(Msg::Plr(PlayerMsg::Play(None))));
    assert_eq!(msg_of("pp=play"), Some(Msg::Plr(PlayerMsg::Play(Some(true)))));
    assert_eq!(msg_of("pp=pause"), Some(Msg::Plr(PlayerMsg::Play(Some(false)))));
    assert_eq!(msg_of("play-pause=play"), Some(Msg::Plr(PlayerMsg::Play(Some(true)))));
    assert_eq!(msg_of("play-pause=pause"), Some(Msg::Plr(PlayerMsg::Play(Some(false)))));
    assert_eq!(msg_of("pp=stop"), None);
    assert_eq!(msg_of("pp=sideways"), None);
}

#[test]
fn step_tokens() {
    assert_eq!(msg_of("next"), Some(Msg::Plr(PlayerMsg::Next(None))));
    assert_eq!(msg_of("prev"), Some(Msg::Plr(PlayerMsg::Prev(None))));
}

#[test]
fn volume_tokens() {
    assert_eq!(msg_of("vu"), Some(Msg::Plr(PlayerMsg::VolumeUp(None))));
    assert_eq!(msg_of("volume-up"), Some(Msg::Plr(PlayerMsg::VolumeUp(None))));
    assert_eq!(msg_of("vd"), Some(Msg::Plr(PlayerMsg::VolumeDown(None))));
    assert_eq!(msg_of("volume-down"), Some(Msg::Plr(PlayerMsg::VolumeDown(None))));
    assert_eq!(msg_of("vu=0.2"), Some(Msg::Plr(PlayerMsg::VolumeUp(Some(200)))));
    assert_eq!(msg_of("vd=0.05"), Some(Msg::Plr(PlayerMsg::VolumeDown(Some(50)))));
    assert_eq!(msg_of("vu=-0.1"), Some(Msg::Plr(PlayerMsg::VolumeUp(Some(-100)))));
    assert_eq!(msg_of("vol=0.5"), Some(Msg::Plr(PlayerMsg::Volume(500))));
    assert_eq!(msg_of("volume=1"), Some(Msg::Plr(PlayerMsg::Volume(1000))));
    assert_eq!(msg_of("vol=2.5"), Some(Msg::Plr(PlayerMsg::Volume(2500))));
    // no parameter, or one that does not parse, rejects the token
    assert_eq!(msg_of("vol"), None);
    assert_eq!(msg_of("vol=loud"), None);
    assert_eq!(msg_of("vu=much"), None);
}

#[test]
fn seek_tokens() {
    assert_eq!(msg_of("seek-to=1:30"), Some(Msg::Plr(PlayerMsg::SeekTo(90_000))));
    assert_eq!(msg_of("seek=90"), Some(Msg::Plr(PlayerMsg::SeekTo(90_000))));
    assert_eq!(msg_of("seek-to=1:01:05"), Some(Msg::Plr(PlayerMsg::SeekTo(3_665_000))));
    assert_eq!(msg_of("seek-to=0.5"), Some(Msg::Plr(PlayerMsg::SeekTo(500))));
    assert_eq!(msg_of("seek"), None);
    assert_eq!(msg_of("seek-to=then"), None);
}

#[test]
fn mute_tokens() {
    assert_eq!(msg_of("mute"), Some(Msg::Plr(PlayerMsg::Mute(None))));
    assert_eq!(msg_of("mute=true"), Some(Msg::Plr(PlayerMsg::Mute(Some(true)))));
    assert_eq!(msg_of("mute=false"), Some(Msg::Plr(PlayerMsg::Mute(Some(false)))));
    assert_eq!(msg_of("mute=loud"), None);
}

#[test]
fn remaining_tokens() {
    assert_eq!(msg_of("shuffle"), Some(Msg::Plr(PlayerMsg::Shuffle)));
    assert_eq!(msg_of("mix"), Some(Msg::Plr(PlayerMsg::Shuffle)));
    assert_eq!(msg_of("load-songs"), Some(Msg::Lib(LibMsg::LoadStart)));
    assert_eq!(msg_of("exit"), Some(Msg::Close));
    assert_eq!(msg_of("close"), Some(Msg::Close));
    assert_eq!(msg_of("quit"), Some(Msg::Close));
    assert_eq!(msg_of("dance"), None);
    assert_eq!(msg_of(""), None);
}

/// Parsing a list of tokens collects messages until the first unknown one.
#[test]
fn instance_parse_collects_until_failure() {
    let mut instance = Instance::new();
    let args = vec!["pp".to_string(), "next".to_string()];
    assert_eq!(instance.parse(&args), None);
    assert!(!instance.invalid);
    assert_eq!(
        instance.actions,
        vec![Msg::Plr(PlayerMsg::Play(None)), Msg::Plr(PlayerMsg::Next(None))]
    );

    let mut instance = Instance::new();
    let args = vec!["pp".to_string(), "what".to_string(), "next".to_string()];
    assert_eq!(instance.parse(&args), Some(1));
    assert!(instance.invalid);
    assert_eq!(instance.actions, vec![Msg::Plr(PlayerMsg::Play(None))]);
}

#[test]
fn duration_parsing() {
    assert_eq!(Instance::string_to_dur("90"), Some(90_000));
    assert_eq!(Instance::string_to_dur("1:30"), Some(90_000));
    assert_eq!(Instance::string_to_dur("0:90"), Some(90_000));
    assert_eq!(Instance::string_to_dur("2:00:00"), Some(7_200_000));
    assert_eq!(Instance::string_to_dur("1.5"), Some(1_500));
    assert_eq!(Instance::string_to_dur("1:-30"), Some(30_000));
    assert_eq!(Instance::string_to_dur("-10"), None);
    assert_eq!(Instance::string_to_dur("1:2:3:4"), None);
    assert_eq!(Instance::string_to_dur(""), None);
    assert_eq!(Instance::string_to_dur("abc"), None);
}

#[test]
fn milli_parsing() {
    assert_eq!(parse_milli("0.5"), Some(500));
    assert_eq!(parse_milli("0.25"), Some(250));
    assert_eq!(parse_milli("-0.25"), Some(-250));
    assert_eq!(parse_milli("+2"), Some(2000));
    assert_eq!(parse_milli("3"), Some(3000));
    assert_eq!(parse_milli(".5"), Some(500));
    assert_eq!(parse_milli("7."), Some(7000));
    assert_eq!(parse_milli("0.1239"), Some(123));
    assert_eq!(parse_milli(""), None);
    assert_eq!(parse_milli("-"), None);
    assert_eq!(parse_milli("."), None);
    assert_eq!(parse_milli("1.2.3"), None);
    assert_eq!(parse_milli("1e3"), None);
    assert_eq!(parse_milli("00042"), Some(42_000));
}

#[test]
fn text_utilities() {
    assert!(str_eq("abc", "abc"));
    assert!(!str_eq("abc", "abd"));
    assert!(!str_eq("abc", "ab"));
    assert!(str_starts_with("volume-up=1", "volume-up="));
    assert!(!str_starts_with("vol", "volume"));
    assert_eq!(find_char("a=b", '='), Some(1));
    assert_eq!(find_char("ab", '='), None);
    assert_eq!(Instance::get_action_param("vol=0.5"), "0.5");
    assert_eq!(Instance::get_action_param("vol"), "");
    assert_eq!(Instance::get_action_param("a=b=c"), "b");
}

#[test]
fn cli_classification() {
    assert_eq!(classify_arg("h"), CliCommand::Help);
    assert_eq!(classify_arg("-h"), CliCommand::Help);
    assert_eq!(classify_arg("--help"), CliCommand::Help);
    assert_eq!(classify_arg("i"), CliCommand::Instance);
    assert_eq!(classify_arg("instance"), CliCommand::Instance);
    assert_eq!(classify_arg("frobnicate"), CliCommand::Invalid);
}

#[test]
fn server_routing() {
    assert_eq!(Server::route_request("GET / HTTP/1.1"), ServerRoute::Index);
    assert_eq!(Server::route_request("GET /instance/play HTTP/1.1"), ServerRoute::InstancePlay);
    assert_eq!(
        Server::route_request("GET /icons/play.svg HTTP/1.1"),
        ServerRoute::Icon("/icons/play.svg".to_string())
    );
    assert_eq!(Server::route_request("{\"Plr\":{\"Play\":null}}"), ServerRoute::Control);
}
