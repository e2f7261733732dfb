//! Song reference: the attributes of one library entry that the engine and
//! the interfaces read.  The engine itself never owns song data; it stores
//! library indices and reads entries through the library.

use crate::text::{dec_digits, dec_padded, push_decimal, push_padded2};
use crate::text;
use vstd::prelude::*;
use vstd::string::StringExecFns;

verus! {

/// The display form of a song length of `total` seconds: `--:--` for an
/// unknown (zero) length, then minutes:seconds, with hour and day parts put
/// in front once they are non-zero.
pub open spec fn length_str(total: nat) -> Seq<char> {
    let days = total / 86400;
    let rem_day = total % 86400;
    let hours = rem_day / 3600;
    let rem_hour = rem_day % 3600;
    let mins = rem_hour / 60;
    let secs = rem_hour % 60;
    if days > 0 {
        dec_digits(days) + seq!['d', ':'] + dec_padded(hours, 2) + seq![':'] + dec_padded(mins, 2)
            + seq![':'] + dec_padded(secs, 2)
    } else if hours > 0 {
        dec_padded(hours, 2) + seq![':'] + dec_padded(mins, 2) + seq![':'] + dec_padded(secs, 2)
    } else if rem_hour > 0 {
        dec_padded(mins, 2) + seq![':'] + dec_padded(secs, 2)
    } else {
        seq!['-', '-', ':', '-', '-']
    }
}

/// The display form of a year: a decimal number, with a leading minus sign
/// when negative.
pub open spec fn year_str(y: int) -> Seq<char> {
    if y < 0 {
        seq!['-'] + dec_digits((-y) as nat)
    } else {
        dec_digits(y as nat)
    }
}

#[derive(Clone, Debug)]
pub struct Song {
    path: String,
    name: String,
    artist: String,
    album: String,
    year: i32,
    length_ms: u64,
    genre: String,
    deleted: bool,
}

impl Song {
    pub closed spec fn spec_path(&self) -> Seq<char> {
        self.path@
    }

    pub closed spec fn spec_name(&self) -> Seq<char> {
        self.name@
    }

    pub closed spec fn spec_artist(&self) -> Seq<char> {
        self.artist@
    }

    pub closed spec fn spec_album(&self) -> Seq<char> {
        self.album@
    }

    pub closed spec fn spec_year(&self) -> int {
        self.year as int
    }

    pub closed spec fn spec_length_ms(&self) -> nat {
        self.length_ms as nat
    }

    pub closed spec fn spec_genre(&self) -> Seq<char> {
        self.genre@
    }

    pub closed spec fn spec_deleted(&self) -> bool {
        self.deleted
    }

    /// True when the two songs carry the same attribute values.
    pub open spec fn same_attrs(&self, other: &Song) -> bool {
        &&& self.spec_path() == other.spec_path()
        &&& self.spec_name() == other.spec_name()
        &&& self.spec_artist() == other.spec_artist()
        &&& self.spec_album() == other.spec_album()
        &&& self.spec_year() == other.spec_year()
        &&& self.spec_length_ms() == other.spec_length_ms()
        &&& self.spec_genre() == other.spec_genre()
        &&& self.spec_deleted() == other.spec_deleted()
    }

    /// True when the two songs carry the same attribute values, the
    /// deleted mark aside.
    pub open spec fn same_attrs_except_deleted(&self, other: &Song) -> bool {
        &&& self.spec_path() == other.spec_path()
        &&& self.spec_name() == other.spec_name()
        &&& self.spec_artist() == other.spec_artist()
        &&& self.spec_album() == other.spec_album()
        &&& self.spec_year() == other.spec_year()
        &&& self.spec_length_ms() == other.spec_length_ms()
        &&& self.spec_genre() == other.spec_genre()
    }

    /// The placeholder entry handed out when an index no longer resolves to
    /// a real song.
    pub open spec fn is_placeholder(&self) -> bool {
        &&& self.spec_path() == Seq::<char>::empty()
        &&& self.spec_name() == "Not playing"@
        &&& self.spec_artist() == Seq::<char>::empty()
        &&& self.spec_album() == Seq::<char>::empty()
        &&& self.spec_year() == 0
        &&& self.spec_length_ms() == 0
        &&& self.spec_genre() == Seq::<char>::empty()
        &&& self.spec_deleted()
    }

    /// Builds a song entry from its attributes.
    pub fn new(
        path: String,
        name: String,
        artist: String,
        album: String,
        year: i32,
        length_ms: u64,
        genre: String,
    ) -> (r: Song)
        ensures
            r.spec_path() == path@,
            r.spec_name() == name@,
            r.spec_artist() == artist@,
            r.spec_album() == album@,
            r.spec_year() == year as int,
            r.spec_length_ms() == length_ms as nat,
            r.spec_genre() == genre@,
            !r.spec_deleted(),
    {
        Song { path, name, artist, album, year, length_ms, genre, deleted: false }
    }

    pub fn get_path(&self) -> (r: &str)
        ensures
            r@ == self.spec_path(),
    {
        self.path.as_str()
    }

    pub fn get_name(&self) -> (r: &str)
        ensures
            r@ == self.spec_name(),
    {
        self.name.as_str()
    }

    pub fn get_artist(&self) -> (r: &str)
        ensures
            r@ == self.spec_artist(),
    {
        self.artist.as_str()
    }

    pub fn get_album(&self) -> (r: &str)
        ensures
            r@ == self.spec_album(),
    {
        self.album.as_str()
    }

    pub fn get_year(&self) -> (r: i32)
        ensures
            r as int == self.spec_year(),
    {
        self.year
    }

    /// The year as text; `-` when the year is unknown (`i32::MAX`, the mark
    /// used by the tag reader for a missing year).
    pub fn get_year_str(&self) -> (r: String)
        ensures
            self.spec_year() == i32::MAX ==> r@ == seq!['-'],
            self.spec_year() != i32::MAX ==> r@ == year_str(self.spec_year()),
    {
        let mut s = String::new();
        if self.year == i32::MAX {
            text::push_char(&mut s, '-');
            assert(s@ =~= seq!['-']);
        } else if self.year < 0 {
            text::push_char(&mut s, '-');
            let m: u64 = (-(self.year as i64)) as u64;
            push_decimal(&mut s, m);
            assert(s@ =~= year_str(self.spec_year()));
        } else {
            push_decimal(&mut s, self.year as u64);
            assert(s@ =~= year_str(self.spec_year()));
        }
        s
    }

    /// The song length in milliseconds.
    pub fn get_length(&self) -> (r: u64)
        ensures
            r as nat == self.spec_length_ms(),
    {
        self.length_ms
    }

    /// The length as text; `--:--` when the length is unknown.
    pub fn get_length_str(&self) -> (r: String)
        ensures
            r@ == length_str((self.spec_length_ms() / 1000) as nat),
    {
        let total_secs: u64 = self.length_ms / 1000;

        let days = total_secs / 86400;
        let rem_day = total_secs % 86400;
        let hours = rem_day / 3600;
        let rem_hour = rem_day % 3600;
        let mins = rem_hour / 60;
        let secs = rem_hour % 60;

        let mut s = String::new();
        if days > 0 {
            push_decimal(&mut s, days);
            text::push_char(&mut s, 'd');
            text::push_char(&mut s, ':');
            push_padded2(&mut s, hours);
            text::push_char(&mut s, ':');
            push_padded2(&mut s, mins);
            text::push_char(&mut s, ':');
            push_padded2(&mut s, secs);
            assert(s@ =~= length_str(total_secs as nat));
        } else if hours > 0 {
            push_padded2(&mut s, hours);
            text::push_char(&mut s, ':');
            push_padded2(&mut s, mins);
            text::push_char(&mut s, ':');
            push_padded2(&mut s, secs);
            assert(s@ =~= length_str(total_secs as nat));
        } else if rem_hour > 0 {
            push_padded2(&mut s, mins);
            text::push_char(&mut s, ':');
            push_padded2(&mut s, secs);
            assert(s@ =~= length_str(total_secs as nat));
        } else {
            text::push_char(&mut s, '-');
            text::push_char(&mut s, '-');
            text::push_char(&mut s, ':');
            text::push_char(&mut s, '-');
            text::push_char(&mut s, '-');
            assert(s@ =~= length_str(total_secs as nat));
        }
        s
    }

    pub fn get_genre(&self) -> (r: &str)
        ensures
            r@ == self.spec_genre(),
    {
        self.genre.as_str()
    }

    pub fn get_deleted(&self) -> (r: bool)
        ensures
            r == self.spec_deleted(),
    {
        self.deleted
    }

    pub fn set_deleted(&mut self, deleted: bool)
        ensures
            final(self).spec_deleted() == deleted,
            final(self).spec_path() == old(self).spec_path(),
            final(self).spec_name() == old(self).spec_name(),
            final(self).spec_artist() == old(self).spec_artist(),
            final(self).spec_album() == old(self).spec_album(),
            final(self).spec_year() == old(self).spec_year(),
            final(self).spec_length_ms() == old(self).spec_length_ms(),
            final(self).spec_genre() == old(self).spec_genre(),
    {
        self.deleted = deleted;
    }

    /// A copy of this song, attribute for attribute.
    pub fn duplicate(&self) -> (r: Song)
        ensures
            r.same_attrs(self),
    {
        Song {
            path: self.path.clone(),
            name: self.name.clone(),
            artist: self.artist.clone(),
            album: self.album.clone(),
            year: self.year,
            length_ms: self.length_ms,
            genre: self.genre.clone(),
            deleted: self.deleted,
        }
    }
}

impl Default for Song {
    /// The placeholder entry: shown when nothing resolves.
    fn default() -> (r: Song)
        ensures
            r.is_placeholder(),
    {
        let r = Song {
            path: String::new(),
            name: String::from_str("Not playing"),
            artist: String::new(),
            album: String::new(),
            year: 0,
            length_ms: 0,
            genre: String::new(),
            deleted: true,
        };
        r
    }
}

} // verus!
