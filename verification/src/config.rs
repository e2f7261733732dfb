//! Configuration record: search paths, playback options and the control
//! server address, plus the message vocabulary that mutates it.
//!
//! Loading and saving the record are outside work; the record itself, its
//! defaults and every mutation are plain verified logic.  Times are held in
//! milliseconds and the volume step in thousandths of full volume.

use vstd::prelude::*;
use vstd::string::StringExecFns;

verus! {

/// Messages that change the configuration.
#[derive(Debug, Clone, PartialEq)]
pub enum ConfMsg {
    AddPath(Vec<String>),
    RemPath(usize),
    EnableHotkeys(bool),
    RecursiveSearch(bool),
    ShuffleCurrent(bool),
    Autoplay(bool),
    StartLoad(bool),
    Gapless(bool),
    ResetAll,
}

pub struct Config {
    /// Directories searched for songs.
    pub paths: Vec<String>,
    /// File extensions accepted by the search.
    pub extensions: Vec<String>,
    /// File that the library is persisted in.
    pub library_path: String,
    /// File that the window state is persisted in.
    pub gui_path: String,
    /// File that the player state is persisted in.
    pub player_path: String,
    /// Address the control server listens on.
    pub server_ip: String,
    /// Port the control server listens on.
    pub server_port: String,
    /// Hotkey bindings: key combination and the action token it fires.
    pub hotkeys: Vec<(String, String)>,
    /// Fade length for pause and resume, in milliseconds.
    pub fade_ms: u64,
    /// Default volume step, in thousandths of full volume.
    pub volume_step: u32,
    /// Whether the song search descends into subdirectories.
    pub recursive_search: bool,
    /// Whether a shuffle may move the playing song away from the front.
    pub shuffle_current: bool,
    /// Whether playback starts right after startup.
    pub autoplay: bool,
    /// Whether a song search starts at startup.
    pub start_load: bool,
    /// Whether gapless decoding is enabled.
    pub gapless: bool,
    /// Whether global hotkeys are registered.
    pub enable_hotkeys: bool,
    /// Whether the record changed since it was last saved.
    pub changed: bool,
}

impl Config {
    /// The identifier the application is known by to the window system and
    /// configuration directory.
    pub fn get_app_id() -> (r: String)
        ensures
            r@ == "bump"@,
    {
        String::from_str("bump")
    }

    /// Appends the given directories to the search paths.
    pub fn add_path(&mut self, paths: Vec<String>)
        ensures
            final(self).paths@ == old(self).paths@ + paths@,
            *final(self) == (Config { paths: final(self).paths, changed: true, ..*old(self) }),
    {
        self.changed = true;
        let mut rest = paths;
        self.paths.append(&mut rest);
    }

    /// Removes the search path under `id`; out-of-range ids are ignored.
    pub fn remove_path(&mut self, id: usize)
        ensures
            id < old(self).paths@.len() ==> final(self).paths@ == old(self).paths@.remove(
                id as int,
            ) && *final(self) == (Config {
                paths: final(self).paths,
                changed: true,
                ..*old(self)
            }),
            id >= old(self).paths@.len() ==> *final(self) == *old(self),
    {
        if id < self.paths.len() {
            self.changed = true;
            self.paths.remove(id);
        }
    }

    /// The `ip:port` address of the control server.
    pub fn get_server_address(&self) -> (r: String)
        ensures
            r@ == self.server_ip@ + seq![':'] + self.server_port@,
    {
        let mut s = self.server_ip.clone();
        crate::text::push_char(&mut s, ':');
        s.append(self.server_port.as_str());
        assert(s@ =~= self.server_ip@ + seq![':'] + self.server_port@);
        s
    }

    /// Puts every setting back to its default value.
    pub fn reset_all(&mut self)
        ensures
            final(self).is_default(),
    {
        *self = Config::default();
    }

    /// Applies one configuration message.
    pub fn conf_update(&mut self, msg: ConfMsg)
        ensures
            msg matches ConfMsg::RecursiveSearch(v) ==> *final(self) == (Config {
                recursive_search: v,
                changed: true,
                ..*old(self)
            }),
            msg matches ConfMsg::ShuffleCurrent(v) ==> *final(self) == (Config {
                shuffle_current: v,
                changed: true,
                ..*old(self)
            }),
            msg matches ConfMsg::Autoplay(v) ==> *final(self) == (Config {
                autoplay: v,
                changed: true,
                ..*old(self)
            }),
            msg matches ConfMsg::StartLoad(v) ==> *final(self) == (Config {
                start_load: v,
                changed: true,
                ..*old(self)
            }),
            msg matches ConfMsg::Gapless(v) ==> *final(self) == (Config {
                gapless: v,
                changed: true,
                ..*old(self)
            }),
            msg matches ConfMsg::EnableHotkeys(v) ==> *final(self) == (Config {
                enable_hotkeys: v,
                changed: true,
                ..*old(self)
            }),
            msg matches ConfMsg::AddPath(p) ==> final(self).paths@ == old(self).paths@ + p@
                && *final(self) == (Config {
                paths: final(self).paths,
                changed: true,
                ..*old(self)
            }),
            msg matches ConfMsg::RemPath(id) ==> {
                &&& id < old(self).paths@.len() ==> final(self).paths@ == old(
                    self,
                ).paths@.remove(id as int) && *final(self) == (Config {
                    paths: final(self).paths,
                    changed: true,
                    ..*old(self)
                })
                &&& id >= old(self).paths@.len() ==> *final(self) == *old(self)
            },
            msg is ResetAll ==> final(self).is_default(),
    {
        match msg {
            ConfMsg::AddPath(paths) => self.add_path(paths),
            ConfMsg::RemPath(id) => self.remove_path(id),
            ConfMsg::EnableHotkeys(v) => {
                self.changed = true;
                self.enable_hotkeys = v;
            },
            ConfMsg::RecursiveSearch(v) => {
                self.changed = true;
                self.recursive_search = v;
            },
            ConfMsg::ShuffleCurrent(v) => {
                self.changed = true;
                self.shuffle_current = v;
            },
            ConfMsg::Autoplay(v) => {
                self.changed = true;
                self.autoplay = v;
            },
            ConfMsg::StartLoad(v) => {
                self.changed = true;
                self.start_load = v;
            },
            ConfMsg::Gapless(v) => {
                self.changed = true;
                self.gapless = v;
            },
            ConfMsg::ResetAll => self.reset_all(),
        }
    }

    /// True when every field holds its default value.
    pub open spec fn is_default(&self) -> bool {
        &&& self.paths@.len() == 1 && self.paths@[0]@ == "."@
        &&& self.extensions@.len() == 4
        &&& self.extensions@[0]@ == "mp3"@
        &&& self.extensions@[1]@ == "flac"@
        &&& self.extensions@[2]@ == "m4a"@
        &&& self.extensions@[3]@ == "mp4"@
        &&& self.library_path@ == "library.json"@
        &&& self.gui_path@ == "gui.json"@
        &&& self.player_path@ == "player.json"@
        &&& self.server_ip@ == "127.0.0.1"@
        &&& self.server_port@ == "2867"@
        &&& self.hotkeys@.len() == 5
        &&& self.hotkeys@[0].0@ == "ctrl+alt+home"@ && self.hotkeys@[0].1@ == "pp"@
        &&& self.hotkeys@[1].0@ == "ctrl+alt+pg_up"@ && self.hotkeys@[1].1@ == "prev"@
        &&& self.hotkeys@[2].0@ == "ctrl+alt+pg_down"@ && self.hotkeys@[2].1@ == "next"@
        &&& self.hotkeys@[3].0@ == "ctrl+alt+up"@ && self.hotkeys@[3].1@ == "vu"@
        &&& self.hotkeys@[4].0@ == "ctrl+alt+down"@ && self.hotkeys@[4].1@ == "vd"@
        &&& self.fade_ms == 150
        &&& self.volume_step == 100
        &&& self.recursive_search
        &&& !self.shuffle_current
        &&& !self.autoplay
        &&& self.start_load
        &&& !self.gapless
        &&& self.enable_hotkeys
        &&& self.changed
    }
}

impl Default for Config {
    fn default() -> (r: Config)
        ensures
            r.is_default(),
    {
        let mut paths: Vec<String> = Vec::new();
        paths.push(String::from_str("."));

        let mut extensions: Vec<String> = Vec::new();
        extensions.push(String::from_str("mp3"));
        extensions.push(String::from_str("flac"));
        extensions.push(String::from_str("m4a"));
        extensions.push(String::from_str("mp4"));

        let mut hotkeys: Vec<(String, String)> = Vec::new();
        hotkeys.push((String::from_str("ctrl+alt+home"), String::from_str("pp")));
        hotkeys.push((String::from_str("ctrl+alt+pg_up"), String::from_str("prev")));
        hotkeys.push((String::from_str("ctrl+alt+pg_down"), String::from_str("next")));
        hotkeys.push((String::from_str("ctrl+alt+up"), String::from_str("vu")));
        hotkeys.push((String::from_str("ctrl+alt+down"), String::from_str("vd")));

        Config {
            paths,
            extensions,
            library_path: String::from_str("library.json"),
            gui_path: String::from_str("gui.json"),
            player_path: String::from_str("player.json"),
            server_ip: String::from_str("127.0.0.1"),
            server_port: String::from_str("2867"),
            hotkeys,
            fade_ms: 150,
            volume_step: 100,
            recursive_search: true,
            shuffle_current: false,
            autoplay: false,
            start_load: true,
            gapless: false,
            enable_hotkeys: true,
            changed: true,
        }
    }
}

} // verus!
