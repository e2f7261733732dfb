//! The settings panel's state: which page is open and the text fields for
//! the fade length and the volume step, with the pure parts of applying a
//! settings message (formatting and parsing those fields).

use crate::config::Config;
use crate::strutil;
use crate::strutil::all_digits;
use crate::strutil::digits_val;
use crate::strutil::first_index_of;
use crate::text;
use crate::text::dec_digits;
use crate::text::dec_padded;
use vstd::prelude::*;
use vstd::string::StrSliceExecFns;
use vstd::string::StringExecFns;

verus! {

/// The pages of the settings panel.
#[derive(Debug, Clone, Copy, PartialEq)]
pub enum SettingsPage {
    Library,
    Playback,
    Hotkeys,
}

/// Messages that drive the settings panel.
#[derive(Debug, Clone, PartialEq)]
pub enum SettingsMsg {
    PickSearchPath,
    Page(SettingsPage),
    Fade(String),
    FadeSave,
    VolJump(String),
    VolJumpSave,
    Hotkey(String),
    HotkeySave,
}

/// What the caller should do after a settings message was applied.
#[derive(Debug, Clone, Copy, PartialEq)]
pub enum SettingsAction {
    /// Nothing outside the settings state.
    Quiet,
    /// Open a folder picker and feed the choice back as a path addition.
    PickFolder,
    /// The fade length changed to this many milliseconds; the sink wants to
    /// know.
    FadeChanged(u64),
    /// The volume step changed to this many thousandths; the engine wants
    /// to re-read its configuration.
    StepChanged(u32),
}

/// The value, in milliseconds, of a fade field written as
/// `minutes:seconds.milliseconds`; `None` when the text is not of that
/// shape or the milliseconds part goes beyond three digits' worth.
pub open spec fn fade_val(s: Seq<char>) -> Option<int> {
    match first_index_of(s, ':') {
        None => None,
        Some(c) => match first_index_of(s.subrange(c + 1, s.len() as int), '.') {
            None => None,
            Some(dd) => {
                let d = c + 1 + dd;
                let mins = s.subrange(0, c);
                let secs = s.subrange(c + 1, d);
                let millis = s.subrange(d + 1, s.len() as int);
                if mins.len() > 0 && secs.len() > 0 && millis.len() > 0 && all_digits(mins)
                    && all_digits(secs) && all_digits(millis) && digits_val(millis) <= 999 {
                    Some(
                        digits_val(mins) * 60000 + digits_val(secs) * 1000 + digits_val(millis) as int,
                    )
                } else {
                    None
                }
            },
        },
    }
}

/// The display form of a volume step of `m` thousandths: the whole part,
/// then the fractional digits with trailing zeroes cut off, as `1`, `0.1`
/// or `0.15`.
pub open spec fn step_str(m: nat) -> Seq<char> {
    let ip = m / 1000;
    let fr = m % 1000;
    if fr == 0 {
        dec_digits(ip)
    } else if fr % 100 == 0 {
        dec_digits(ip) + seq!['.'] + dec_digits(fr / 100)
    } else if fr % 10 == 0 {
        dec_digits(ip) + seq!['.'] + dec_padded(fr / 10, 2)
    } else {
        dec_digits(ip) + seq!['.'] + dec_padded(fr, 3)
    }
}

/// The display form of a fade length of `ms` milliseconds:
/// `minutes:seconds.milliseconds`, the first two padded to two digits.
pub open spec fn fade_str(ms: nat) -> Seq<char> {
    let secs = ms / 1000;
    let millis = ms % 1000;
    dec_padded(secs / 60, 2) + seq![':'] + dec_padded(secs % 60, 2) + seq!['.'] + dec_padded(
        millis,
        2,
    )
}

pub struct Settings {
    /// The open settings page.
    pub page: SettingsPage,
    /// The fade length field, as the user typed it.
    pub fade: String,
    /// The volume step field, as the user typed it.
    pub vol_jmp: String,
}

impl Settings {
    /// Builds the panel state from the configuration, rendering the fade
    /// length and volume step into their text fields.
    pub fn new(config: &Config) -> (r: Settings)
        ensures
            r.page == SettingsPage::Library,
            r.fade@ == fade_str(config.fade_ms as nat),
            r.vol_jmp@ == step_str(config.volume_step as nat),
    {
        let ms = config.fade_ms;
        let secs: u64 = ms / 1000;
        let millis: u64 = ms % 1000;
        let mut fade = String::new();
        text::push_padded2(&mut fade, secs / 60);
        text::push_char(&mut fade, ':');
        text::push_padded2(&mut fade, secs % 60);
        text::push_char(&mut fade, '.');
        text::push_padded2(&mut fade, millis);
        assert(fade@ =~= fade_str(ms as nat));

        let m = config.volume_step as u64;
        let ip: u64 = m / 1000;
        let fr: u64 = m % 1000;
        let mut vol_jmp = String::new();
        if fr == 0 {
            text::push_decimal(&mut vol_jmp, ip);
        } else if fr % 100 == 0 {
            text::push_decimal(&mut vol_jmp, ip);
            text::push_char(&mut vol_jmp, '.');
            text::push_decimal(&mut vol_jmp, fr / 100);
        } else if fr % 10 == 0 {
            text::push_decimal(&mut vol_jmp, ip);
            text::push_char(&mut vol_jmp, '.');
            text::push_padded2(&mut vol_jmp, fr / 10);
        } else {
            text::push_decimal(&mut vol_jmp, ip);
            text::push_char(&mut vol_jmp, '.');
            text::push_padded3(&mut vol_jmp, fr);
        }
        assert(vol_jmp@ =~= step_str(m as nat));

        Settings { page: SettingsPage::Library, fade, vol_jmp }
    }

    /// Applies one settings message: page switches and field edits land in
    /// the panel state; saving a field parses it and, when it parses,
    /// writes it to the configuration and reports what changed.  A field
    /// that does not parse changes nothing.
    pub fn settings_update(&mut self, config: &mut Config, msg: SettingsMsg) -> (r: SettingsAction)
        ensures
            msg == SettingsMsg::PickSearchPath ==> r == SettingsAction::PickFolder && *final(self)
                == *old(self) && *final(config) == *old(config),
            msg matches SettingsMsg::Page(p) ==> final(self).page == p && final(self).fade == old(
                self,
            ).fade && *final(config) == *old(config) && r == SettingsAction::Quiet,
            msg matches SettingsMsg::Fade(v) ==> final(self).fade == v && final(self).page == old(
                self,
            ).page && *final(config) == *old(config) && r == SettingsAction::Quiet,
            msg matches SettingsMsg::VolJump(v) ==> final(self).vol_jmp == v && final(self).page
                == old(self).page && *final(config) == *old(config) && r == SettingsAction::Quiet,
            msg == SettingsMsg::FadeSave ==> *final(self) == *old(self) && match fade_val(
                old(self).fade@,
            ) {
                Some(t) => if t <= strutil::parse_bound() {
                    &&& final(config).fade_ms == t
                    &&& *final(config) == (Config {
                        fade_ms: final(config).fade_ms,
                        changed: true,
                        ..*old(config)
                    })
                    &&& r == SettingsAction::FadeChanged(t as u64)
                } else {
                    *final(config) == *old(config) && r == SettingsAction::Quiet
                },
                None => *final(config) == *old(config) && r == SettingsAction::Quiet,
            },
            msg == SettingsMsg::VolJumpSave ==> *final(self) == *old(self) && match strutil::milli_val(
                old(self).vol_jmp@,
            ) {
                Some(v) => if 0 <= v <= 1000 {
                    &&& final(config).volume_step == v
                    &&& *final(config) == (Config {
                        volume_step: final(config).volume_step,
                        changed: true,
                        ..*old(config)
                    })
                    &&& r == SettingsAction::StepChanged(v as u32)
                } else {
                    *final(config) == *old(config) && r == SettingsAction::Quiet
                },
                None => *final(config) == *old(config) && r == SettingsAction::Quiet,
            },
            msg matches SettingsMsg::Hotkey(_) ==> *final(self) == *old(self) && *final(config)
                == *old(config) && r == SettingsAction::Quiet,
            msg == SettingsMsg::HotkeySave ==> *final(self) == *old(self) && *final(config)
                == *old(config) && r == SettingsAction::Quiet,
    {
        match msg {
            SettingsMsg::PickSearchPath => SettingsAction::PickFolder,
            SettingsMsg::Page(p) => {
                self.page = p;
                SettingsAction::Quiet
            },
            SettingsMsg::Fade(v) => {
                self.fade = v;
                SettingsAction::Quiet
            },
            SettingsMsg::FadeSave => {
                match convert_to_duration(self.fade.as_str()) {
                    Some(ms) => {
                        config.fade_ms = ms;
                        config.changed = true;
                        SettingsAction::FadeChanged(ms)
                    },
                    None => SettingsAction::Quiet,
                }
            },
            SettingsMsg::VolJump(v) => {
                self.vol_jmp = v;
                SettingsAction::Quiet
            },
            SettingsMsg::VolJumpSave => {
                match strutil::parse_milli(self.vol_jmp.as_str()) {
                    Some(v) => {
                        if 0 <= v && v <= 1000 {
                            config.volume_step = v as u32;
                            config.changed = true;
                            SettingsAction::StepChanged(v as u32)
                        } else {
                            SettingsAction::Quiet
                        }
                    },
                    None => SettingsAction::Quiet,
                }
            },
            SettingsMsg::Hotkey(_) => SettingsAction::Quiet,
            SettingsMsg::HotkeySave => SettingsAction::Quiet,
        }
    }
}

impl Default for Settings {
    fn default() -> (r: Settings)
        ensures
            r.page == SettingsPage::Library,
            r.fade@ == "00:00.150"@,
            r.vol_jmp@ == "0.1"@,
    {
        Settings {
            page: SettingsPage::Library,
            fade: String::from_str("00:00.150"),
            vol_jmp: String::from_str("0.1"),
        }
    }
}

/// Parses a fade field of the shape `minutes:seconds.milliseconds` into
/// milliseconds.  Malformed text, or a value beyond `10^15`, yields `None`.
pub fn convert_to_duration(dur: &str) -> (r: Option<u64>)
    ensures
        match fade_val(dur@) {
            Some(t) => if t <= strutil::parse_bound() {
                r == Some(t as u64)
            } else {
                r is None
            },
            None => r is None,
        },
{
    let n = dur.unicode_len();
    let colon = match strutil::find_char(dur, ':') {
        Some(c) => c,
        None => {
            return None;
        },
    };
    let ghost tail = dur@.subrange(colon as int + 1, dur@.len() as int);
    let dot = match strutil::find_char_from(dur, '.', colon + 1) {
        Some(d) => d,
        None => {
            proof {
                assert(first_index_of(tail, '.') is None) by {
                    strutil::lemma_first_index_of(tail, '.');
                    match first_index_of(tail, '.') {
                        Some(k) => {
                            assert(tail[k] == '.');
                            assert(dur@[colon + 1 + k] == '.');
                        },
                        None => {},
                    }
                }
            }
            return None;
        },
    };
    proof {
        strutil::lemma_first_index_of(tail, '.');
        assert(tail[dot - colon - 1] == '.');
        match first_index_of(tail, '.') {
            Some(k) => {
                assert(forall|j: int|
                    colon + 1 <= j < dot ==> dur@[j] == tail[j - colon - 1] && dur@[j] != '.');
                assert(k == dot - colon - 1);
            },
            None => {
                assert(false);
            },
        }
    }
    let ghost mins_s = dur@.subrange(0, colon as int);
    let ghost secs_s = dur@.subrange(colon as int + 1, dot as int);
    let ghost millis_s = dur@.subrange(dot as int + 1, dur@.len() as int);
    proof {
        assert(tail.subrange(dot - colon, tail.len() as int) =~= millis_s);
    }
    if colon == 0 || dot == colon + 1 || dot + 1 == n {
        return None;
    }
    let mins = match parse_all_digits(dur, 0, colon) {
        Some(v) => v,
        None => {
            return None;
        },
    };
    let secs = match parse_all_digits(dur, colon + 1, dot) {
        Some(v) => v,
        None => {
            return None;
        },
    };
    let millis = match parse_all_digits(dur, dot + 1, n) {
        Some(v) => v,
        None => {
            return None;
        },
    };
    if millis > 999 {
        return None;
    }
    let total: u128 = (mins as u128) * 60000 + (secs as u128) * 1000 + (millis as u128);
    proof {
        if digits_val(mins_s) >= 1000000000000000000 || digits_val(secs_s)
            >= 1000000000000000000 {
            assert(digits_val(mins_s) * 60000 + digits_val(secs_s) * 1000 + digits_val(millis_s)
                > strutil::parse_bound()) by (nonlinear_arith)
                requires
                    digits_val(mins_s) >= 1000000000000000000 || digits_val(secs_s)
                        >= 1000000000000000000,
                    digits_val(millis_s) >= 0,
                    strutil::parse_bound() == 1000000000000000,
            ;
            assert(total > strutil::parse_bound() as u128) by (nonlinear_arith)
                requires
                    mins as u128 >= 1000000000000000000 || secs as u128 >= 1000000000000000000,
                    strutil::parse_bound() == 1000000000000000,
                    total == (mins as u128) * 60000 + (secs as u128) * 1000 + (millis as u128),
            ;
        }
    }
    if total > 1000000000000000u128 {
        None
    } else {
        Some(total as u64)
    }
}

/// Parses the digit run `s[from..to]` when it is non-empty, made of digits
/// only, and worth at most `10^18`; `None` otherwise.
fn parse_all_digits(s: &str, from: usize, to: usize) -> (r: Option<u64>)
    requires
        from <= to <= s@.len(),
    ensures
        ({
            let part = s@.subrange(from as int, to as int);
            match r {
                Some(v) => part.len() > 0 && all_digits(part) && (v == digits_val(part) || (v
                    == 1000000000000000000 && digits_val(part) >= 1000000000000000000)),
                None => part.len() == 0 || !all_digits(part),
            }
        }),
{
    let ghost part = s@.subrange(from as int, to as int);
    if from == to {
        return None;
    }
    let mut i: usize = from;
    while i < to
        invariant
            from <= i <= to <= s@.len(),
            part == s@.subrange(from as int, to as int),
            forall|j: int| from <= j < i ==> strutil::is_digit_char(#[trigger] s@[j]),
        decreases to - i,
    {
        let u = s.get_char(i) as u32;
        if u < 48 || u > 57 {
            proof {
                assert(part[i - from] == s@[i as int]);
                assert(!all_digits(part));
            }
            return None;
        }
        i = i + 1;
    }
    proof {
        assert(forall|j: int| 0 <= j < part.len() ==> part[j] == s@[from + j]);
        assert(all_digits(part));
    }
    Some(crate::strutil::parse_digits_capped(s, from, to))
}

} // verus!
