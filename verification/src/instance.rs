//! The instance-command vocabulary: the human-readable tokens a secondary
//! invocation accepts, and their translation into control messages.  The
//! same translation serves the hotkey layer, so both surfaces speak the
//! engine's language.
//!
//! Token values are written as decimals (volumes in fractions of full
//! volume, durations as `h:m:s` with decimal parts); what does not parse is
//! rejected, never guessed at.

use crate::msg::LibMsg;
use crate::msg::Msg;
use crate::msg::PlayerMsg;
use crate::strutil;
use crate::strutil::first_index_of;
use crate::strutil::is_prefix;
use crate::strutil::lemma_first_index_of;
use crate::strutil::milli_val;
use crate::strutil::parse_bound;
use vstd::prelude::*;
use vstd::string::StrSliceExecFns;

verus! {

/// The text between the first `=` and the second `=` or the end; empty
/// when there is no `=`.
pub open spec fn param_of(s: Seq<char>) -> Seq<char> {
    match first_index_of(s, '=') {
        None => Seq::<char>::empty(),
        Some(i) => {
            let rest = s.subrange(i + 1, s.len() as int);
            match first_index_of(rest, '=') {
                None => rest,
                Some(j) => rest.subrange(0, j),
            }
        },
    }
}

/// A parsed numeric value only counts when its magnitude stays within the
/// parse bound.
pub open spec fn bounded_milli(v: Option<int>) -> Option<int> {
    match v {
        Some(m) => if -parse_bound() <= m <= parse_bound() {
            Some(m)
        } else {
            None
        },
        None => None,
    }
}

/// A single-part duration: one decimal number of seconds, non-negative.
pub open spec fn dur1(v1: Option<int>) -> Option<int> {
    match bounded_milli(v1) {
        Some(m) => if 0 <= m <= parse_bound() {
            Some(m)
        } else {
            None
        },
        None => None,
    }
}

/// A two-part duration: minutes and seconds.
pub open spec fn dur2(v1: Option<int>, v2: Option<int>) -> Option<int> {
    match (bounded_milli(v1), bounded_milli(v2)) {
        (Some(a), Some(b)) => {
            let t = a * 60 + b;
            if 0 <= t <= parse_bound() {
                Some(t)
            } else {
                None
            }
        },
        _ => None,
    }
}

/// A three-part duration: hours, minutes and seconds.
pub open spec fn dur3(v1: Option<int>, v2: Option<int>, v3: Option<int>) -> Option<int> {
    match (bounded_milli(v1), bounded_milli(v2), bounded_milli(v3)) {
        (Some(a), Some(b), Some(d)) => {
            let t = a * 3600 + b * 60 + d;
            if 0 <= t <= parse_bound() {
                Some(t)
            } else {
                None
            }
        },
        _ => None,
    }
}

/// The duration, in milliseconds, written as up to three `:`-separated
/// decimal parts (hours, minutes, seconds from the right, so `1:30` is 90
/// seconds).  Negative totals, more than three parts, malformed parts and
/// values beyond the parse bound are all rejected.
pub open spec fn dur_val(s: Seq<char>) -> Option<int> {
    match first_index_of(s, ':') {
        None => dur1(milli_val(s)),
        Some(c) => {
            let p1 = s.subrange(0, c);
            let rest = s.subrange(c + 1, s.len() as int);
            match first_index_of(rest, ':') {
                None => dur2(milli_val(p1), milli_val(rest)),
                Some(c2) => {
                    let p2 = rest.subrange(0, c2);
                    let p3 = rest.subrange(c2 + 1, rest.len() as int);
                    if first_index_of(p3, ':') is Some {
                        None
                    } else {
                        dur3(milli_val(p1), milli_val(p2), milli_val(p3))
                    }
                },
            }
        },
    }
}

/// The control message an instance-action token stands for; `None` for an
/// unknown token or an unusable parameter.  The tokens, tried in order:
/// `pp`/`play-pause` with an optional `=play`/`=pause`; `next`; `prev`;
/// `seek`/`seek-to=` a duration; `vu`/`volume-up` and `vd`/`volume-down`
/// with an optional step; `vol`/`volume=` a volume; `mute` with an optional
/// `=true`/`=false`; `shuffle`/`mix`; `load-songs`; `exit`/`close`/`quit`.
pub open spec fn action_msg(s: Seq<char>) -> Option<Msg> {
    if s == "pp"@ || s == "play-pause"@ {
        Some(Msg::Plr(PlayerMsg::Play(None)))
    } else if is_prefix("pp="@, s) || is_prefix("play-pause="@, s) {
        if param_of(s) == "play"@ {
            Some(Msg::Plr(PlayerMsg::Play(Some(true))))
        } else if param_of(s) == "pause"@ {
            Some(Msg::Plr(PlayerMsg::Play(Some(false))))
        } else {
            None
        }
    } else if s == "next"@ {
        Some(Msg::Plr(PlayerMsg::Next(None)))
    } else if s == "prev"@ {
        Some(Msg::Plr(PlayerMsg::Prev(None)))
    } else if is_prefix("seek"@, s) {
        match dur_val(param_of(s)) {
            Some(t) => Some(Msg::Plr(PlayerMsg::SeekTo(t as u64))),
            None => None,
        }
    } else if s == "vu"@ || s == "volume-up"@ {
        Some(Msg::Plr(PlayerMsg::VolumeUp(None)))
    } else if is_prefix("vu="@, s) || is_prefix("volume-up="@, s) {
        match bounded_milli(milli_val(param_of(s))) {
            Some(v) => Some(Msg::Plr(PlayerMsg::VolumeUp(Some(v as i64)))),
            None => None,
        }
    } else if s == "vd"@ || s == "volume-down"@ {
        Some(Msg::Plr(PlayerMsg::VolumeDown(None)))
    } else if is_prefix("vd="@, s) || is_prefix("volume-down="@, s) {
        match bounded_milli(milli_val(param_of(s))) {
            Some(v) => Some(Msg::Plr(PlayerMsg::VolumeDown(Some(v as i64)))),
            None => None,
        }
    } else if is_prefix("vol"@, s) {
        match bounded_milli(milli_val(param_of(s))) {
            Some(v) => Some(Msg::Plr(PlayerMsg::Volume(v as i64))),
            None => None,
        }
    } else if s == "mute"@ {
        Some(Msg::Plr(PlayerMsg::Mute(None)))
    } else if is_prefix("mute="@, s) {
        if param_of(s) == "true"@ {
            Some(Msg::Plr(PlayerMsg::Mute(Some(true))))
        } else if param_of(s) == "false"@ {
            Some(Msg::Plr(PlayerMsg::Mute(Some(false))))
        } else {
            None
        }
    } else if s == "shuffle"@ || s == "mix"@ {
        Some(Msg::Plr(PlayerMsg::Shuffle))
    } else if s == "load-songs"@ {
        Some(Msg::Lib(LibMsg::LoadStart))
    } else if s == "exit"@ || s == "close"@ || s == "quit"@ {
        Some(Msg::Close)
    } else {
        None
    }
}

/// An instance invocation: the actions collected from its arguments, and
/// whether an unknown action was met.
pub struct Instance {
    /// The control messages to submit, in argument order.
    pub actions: Vec<Msg>,
    /// Whether an argument failed to parse; nothing is submitted then.
    pub invalid: bool,
}

impl Instance {
    pub fn new() -> (r: Instance)
        ensures
            r.actions@ == Seq::<Msg>::empty(),
            !r.invalid,
    {
        Instance { actions: Vec::new(), invalid: false }
    }

    /// The parameter after the first `=` of an action token (up to a second
    /// `=`); empty when there is none.
    pub fn get_action_param(action: &str) -> (r: &str)
        ensures
            r@ == param_of(action@),
    {
        let n = action.unicode_len();
        proof {
            lemma_first_index_of(action@, '=');
        }
        match strutil::find_char(action, '=') {
            None => {
                let e = action.substring_char(0, 0);
                proof {
                    assert(e@ =~= param_of(action@));
                }
                e
            },
            Some(i) => {
                let ghost rest = action@.subrange(i + 1, action@.len() as int);
                proof {
                    lemma_first_index_of(rest, '=');
                }
                match strutil::find_char_from(action, '=', i + 1) {
                    None => {
                        proof {
                            match first_index_of(rest, '=') {
                                Some(k) => {
                                    assert(rest[k] == '=');
                                    assert(action@[i + 1 + k] == '=');
                                },
                                None => {},
                            }
                        }
                        action.substring_char(i + 1, n)
                    },
                    Some(j) => {
                        proof {
                            assert(rest[j - i - 1] == '=');
                            match first_index_of(rest, '=') {
                                Some(k) => {
                                    assert(forall|x: int|
                                        i + 1 <= x < j ==> action@[x] == rest[x - i - 1]
                                            && action@[x] != '=');
                                    assert(k == j - i - 1);
                                },
                                None => {
                                    assert(false);
                                },
                            }
                        }
                        let p = action.substring_char(i + 1, j);
                        proof {
                            assert(p@ =~= rest.subrange(0, j - i - 1));
                        }
                        p
                    },
                }
            },
        }
    }

    /// The message an action token stands for, or `None` for an unknown
    /// token or an unusable parameter.
    pub fn get_action_msg(action: &str) -> (r: Option<Msg>)
        ensures
            r == action_msg(action@),
    {
        if strutil::str_eq(action, "pp") || strutil::str_eq(action, "play-pause") {
            Some(Msg::Plr(PlayerMsg::Play(None)))
        } else if strutil::str_starts_with(action, "pp=") || strutil::str_starts_with(
            action,
            "play-pause=",
        ) {
            let param = Instance::get_action_param(action);
            if strutil::str_eq(param, "play") {
                Some(Msg::Plr(PlayerMsg::Play(Some(true))))
            } else if strutil::str_eq(param, "pause") {
                Some(Msg::Plr(PlayerMsg::Play(Some(false))))
            } else {
                None
            }
        } else if strutil::str_eq(action, "next") {
            Some(Msg::Plr(PlayerMsg::Next(None)))
        } else if strutil::str_eq(action, "prev") {
            Some(Msg::Plr(PlayerMsg::Prev(None)))
        } else if strutil::str_starts_with(action, "seek") {
            let param = Instance::get_action_param(action);
            match Instance::string_to_dur(param) {
                Some(t) => Some(Msg::Plr(PlayerMsg::SeekTo(t))),
                None => None,
            }
        } else if strutil::str_eq(action, "vu") || strutil::str_eq(action, "volume-up") {
            Some(Msg::Plr(PlayerMsg::VolumeUp(None)))
        } else if strutil::str_starts_with(action, "vu=") || strutil::str_starts_with(
            action,
            "volume-up=",
        ) {
            let param = Instance::get_action_param(action);
            match strutil::parse_milli(param) {
                Some(v) => Some(Msg::Plr(PlayerMsg::VolumeUp(Some(v)))),
                None => None,
            }
        } else if strutil::str_eq(action, "vd") || strutil::str_eq(action, "volume-down") {
            Some(Msg::Plr(PlayerMsg::VolumeDown(None)))
        } else if strutil::str_starts_with(action, "vd=") || strutil::str_starts_with(
            action,
            "volume-down=",
        ) {
            let param = Instance::get_action_param(action);
            match strutil::parse_milli(param) {
                Some(v) => Some(Msg::Plr(PlayerMsg::VolumeDown(Some(v)))),
                None => None,
            }
        } else if strutil::str_starts_with(action, "vol") {
            let param = Instance::get_action_param(action);
            match strutil::parse_milli(param) {
                Some(v) => Some(Msg::Plr(PlayerMsg::Volume(v))),
                None => None,
            }
        } else if strutil::str_eq(action, "mute") {
            Some(Msg::Plr(PlayerMsg::Mute(None)))
        } else if strutil::str_starts_with(action, "mute=") {
            let param = Instance::get_action_param(action);
            if strutil::str_eq(param, "true") {
                Some(Msg::Plr(PlayerMsg::Mute(Some(true))))
            } else if strutil::str_eq(param, "false") {
                Some(Msg::Plr(PlayerMsg::Mute(Some(false))))
            } else {
                None
            }
        } else if strutil::str_eq(action, "shuffle") || strutil::str_eq(action, "mix") {
            Some(Msg::Plr(PlayerMsg::Shuffle))
        } else if strutil::str_eq(action, "load-songs") {
            Some(Msg::Lib(LibMsg::LoadStart))
        } else if strutil::str_eq(action, "exit") || strutil::str_eq(action, "close")
            || strutil::str_eq(action, "quit") {
            Some(Msg::Close)
        } else {
            None
        }
    }

    /// Collects the messages for the given action tokens, in order.  At the
    /// first unknown token the instance is marked invalid and the token's
    /// position returned; the tokens before it are still collected.
    pub fn parse(&mut self, args: &Vec<String>) -> (r: Option<usize>)
        ensures
            match r {
                None => {
                    &&& forall|j: int|
                        0 <= j < args@.len() ==> (#[trigger] action_msg(args@[j]@)) is Some
                    &&& final(self).actions@ == old(self).actions@ + Seq::new(
                        args@.len(),
                        |j: int| action_msg(args@[j]@)->0,
                    )
                    &&& final(self).invalid == old(self).invalid
                },
                Some(k) => {
                    &&& k < args@.len()
                    &&& action_msg(args@[k as int]@) is None
                    &&& forall|j: int| 0 <= j < k ==> (#[trigger] action_msg(args@[j]@)) is Some
                    &&& final(self).actions@ == old(self).actions@ + Seq::new(
                        k as nat,
                        |j: int| action_msg(args@[j]@)->0,
                    )
                    &&& final(self).invalid
                },
            },
    {
        let n = args.len();
        let mut i: usize = 0;
        while i < n
            invariant
                i <= n,
                n == args@.len(),
                forall|j: int| 0 <= j < i ==> (#[trigger] action_msg(args@[j]@)) is Some,
                self.actions@ == old(self).actions@ + Seq::new(
                    i as nat,
                    |j: int| action_msg(args@[j]@)->0,
                ),
                self.invalid == old(self).invalid,
            decreases n - i,
        {
            match Instance::get_action_msg(args[i].as_str()) {
                Some(msg) => {
                    self.actions.push(msg);
                    proof {
                        assert(self.actions@ =~= old(self).actions@ + Seq::new(
                            (i + 1) as nat,
                            |j: int| action_msg(args@[j]@)->0,
                        ));
                    }
                },
                None => {
                    self.invalid = true;
                    return Some(i);
                },
            }
            i = i + 1;
        }
        proof {
            assert(self.actions@ =~= old(self).actions@ + Seq::new(
                n as nat,
                |j: int| action_msg(args@[j]@)->0,
            ));
        }
        None
    }

    /// The duration, in milliseconds, of a token written as up to three
    /// `:`-separated decimal parts, `h:m:s` from the right.
    pub fn string_to_dur(data: &str) -> (r: Option<u64>)
        ensures
            match dur_val(data@) {
                Some(t) => r == Some(t as u64),
                None => r is None,
            },
    {
        let n = data.unicode_len();
        proof {
            lemma_first_index_of(data@, ':');
        }
        match strutil::find_char(data, ':') {
            None => dur_one_part(data),
            Some(c) => {
                let ghost rest = data@.subrange(c + 1, data@.len() as int);
                proof {
                    lemma_first_index_of(rest, ':');
                }
                match strutil::find_char_from(data, ':', c + 1) {
                    None => {
                        proof {
                            match first_index_of(rest, ':') {
                                Some(k) => {
                                    assert(rest[k] == ':');
                                    assert(data@[c + 1 + k] == ':');
                                },
                                None => {},
                            }
                        }
                        dur_two_parts(data, c)
                    },
                    Some(c2) => {
                        proof {
                            assert(rest[c2 - c - 1] == ':');
                            match first_index_of(rest, ':') {
                                Some(k) => {
                                    assert(forall|x: int|
                                        c + 1 <= x < c2 ==> data@[x] == rest[x - c - 1]
                                            && data@[x] != ':');
                                    assert(k == c2 - c - 1);
                                },
                                None => {
                                    assert(false);
                                },
                            }
                        }
                        let ghost rp3 = rest.subrange(c2 - c, rest.len() as int);
                        proof {
                            lemma_first_index_of(rp3, ':');
                        }
                        match strutil::find_char_from(data, ':', c2 + 1) {
                            Some(c3) => {
                                proof {
                                    assert(rp3[c3 - c2 - 1] == ':');
                                    match first_index_of(rp3, ':') {
                                        Some(_) => {},
                                        None => {
                                            assert(false);
                                        },
                                    }
                                }
                                None
                            },
                            None => {
                                proof {
                                    match first_index_of(rp3, ':') {
                                        Some(k) => {
                                            assert(rp3[k] == ':');
                                            assert(data@[c2 + 1 + k] == ':');
                                        },
                                        None => {},
                                    }
                                }
                                dur_three_parts(data, c, c2)
                            },
                        }
                    },
                }
            },
        }
    }
}

/// The single-part duration case: the whole token is one decimal number of
/// seconds.
fn dur_one_part(data: &str) -> (r: Option<u64>)
    requires
        first_index_of(data@, ':') is None,
    ensures
        match dur_val(data@) {
            Some(t) => r == Some(t as u64),
            None => r is None,
        },
{
    match strutil::parse_milli(data) {
        Some(v) => {
            if v >= 0 {
                Some(v as u64)
            } else {
                None
            }
        },
        None => None,
    }
}

/// The two-part duration case: minutes and seconds around the only `:`.
fn dur_two_parts(data: &str, c: usize) -> (r: Option<u64>)
    requires
        c < data@.len(),
        first_index_of(data@, ':') == Some(c as int),
        first_index_of(data@.subrange(c as int + 1, data@.len() as int), ':') is None,
    ensures
        match dur_val(data@) {
            Some(t) => r == Some(t as u64),
            None => r is None,
        },
{
    let n = data.unicode_len();
    let p1 = data.substring_char(0, c);
    let p2 = data.substring_char(c + 1, n);
    proof {
        assert(p2@ =~= data@.subrange(c as int + 1, data@.len() as int));
    }
    let a = match strutil::parse_milli(p1) {
        Some(a) => a,
        None => {
            return None;
        },
    };
    let b = match strutil::parse_milli(p2) {
        Some(b) => b,
        None => {
            return None;
        },
    };
    let t: i128 = (a as i128) * 60 + (b as i128);
    if 0 <= t && t <= 1000000000000000i128 {
        Some(t as u64)
    } else {
        None
    }
}

/// The three-part duration case: hours, minutes and seconds around the
/// only two `:`s.
#[verifier::rlimit(100)]
fn dur_three_parts(data: &str, c: usize, c2: usize) -> (r: Option<u64>)
    requires
        c < c2 < data@.len(),
        first_index_of(data@, ':') == Some(c as int),
        first_index_of(data@.subrange(c as int + 1, data@.len() as int), ':') == Some(
            c2 - c - 1 as int,
        ),
        first_index_of(
            data@.subrange(c as int + 1, data@.len() as int).subrange(
                c2 - c,
                data@.len() - c - 1 as int,
            ),
            ':',
        ) is None,
    ensures
        match dur_val(data@) {
            Some(t) => r == Some(t as u64),
            None => r is None,
        },
{
    let n = data.unicode_len();
    let ghost rest = data@.subrange(c as int + 1, data@.len() as int);
    let p1 = data.substring_char(0, c);
    let p2 = data.substring_char(c + 1, c2);
    let p3 = data.substring_char(c2 + 1, n);
    proof {
        assert(p2@ =~= rest.subrange(0, c2 - c - 1));
        assert(p3@ =~= rest.subrange(c2 - c, rest.len() as int));
    }
    let a = match strutil::parse_milli(p1) {
        Some(a) => a,
        None => {
            return None;
        },
    };
    let b = match strutil::parse_milli(p2) {
        Some(b) => b,
        None => {
            return None;
        },
    };
    let d = match strutil::parse_milli(p3) {
        Some(d) => d,
        None => {
            return None;
        },
    };
    let t: i128 = (a as i128) * 3600 + (b as i128) * 60 + (d as i128);
    if 0 <= t && t <= 1000000000000000i128 {
        Some(t as u64)
    } else {
        None
    }
}

impl Default for Instance {
    fn default() -> (r: Instance)
        ensures
            r.actions@ == Seq::<Msg>::empty(),
            !r.invalid,
    {
        Instance::new()
    }
}

} // verus!
