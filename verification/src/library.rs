//! The song library as the engine sees it: a count of songs and lookup by
//! index.  An index that no longer resolves yields the placeholder song, so
//! stale playlist entries can never make a lookup fail.
//!
//! Scanning directories, reading tags and persisting the library are outside
//! work; they hand a finished song list in through `set_songs`.

use crate::song::Song;
use vstd::prelude::*;
use vstd::pervasive::VecAdditionalExecFns;

verus! {

pub struct Library {
    songs: Vec<Song>,
}

impl Library {
    pub closed spec fn songs_seq(&self) -> Seq<Song> {
        self.songs@
    }

    pub fn new() -> (r: Library)
        ensures
            r.songs_seq() == Seq::<Song>::empty(),
    {
        Library { songs: Vec::new() }
    }

    /// Replaces the whole song list, as a finished scan or load hands it in.
    pub fn set_songs(&mut self, songs: Vec<Song>)
        ensures
            final(self).songs_seq() == songs@,
    {
        self.songs = songs;
    }

    pub fn get_songs(&self) -> (r: &Vec<Song>)
        ensures
            r@ == self.songs_seq(),
    {
        &self.songs
    }

    /// The song under `id`; the placeholder when `id` is out of range.
    pub fn get_song(&self, id: usize) -> (r: Song)
        ensures
            id < self.songs_seq().len() ==> r.same_attrs(&self.songs_seq()[id as int]),
            id >= self.songs_seq().len() ==> r.is_placeholder(),
    {
        if id < self.songs.len() {
            self.songs[id].duplicate()
        } else {
            Song::default()
        }
    }

    /// Marks every entry deleted, as a song search starts: entries whose
    /// files are found again are marked present one by one, and the rest
    /// keep standing as deleted so playlist indices keep their meaning.
    pub fn mark_all_deleted(&mut self)
        ensures
            final(self).songs_seq().len() == old(self).songs_seq().len(),
            forall|i: int|
                0 <= i < old(self).songs_seq().len() ==> (#[trigger] final(self).songs_seq()[i]).spec_deleted()
                    && final(self).songs_seq()[i].same_attrs_except_deleted(
                    &old(self).songs_seq()[i],
                ),
    {
        let n = self.songs.len();
        let mut i: usize = 0;
        while i < n
            invariant
                i <= n,
                n == self.songs_seq().len(),
                n == old(self).songs_seq().len(),
                forall|j: int|
                    i <= j < n ==> #[trigger] self.songs_seq()[j] == old(self).songs_seq()[j],
                forall|j: int|
                    0 <= j < i ==> (#[trigger] self.songs_seq()[j]).spec_deleted()
                        && self.songs_seq()[j].same_attrs_except_deleted(
                        &old(self).songs_seq()[j],
                    ),
            decreases n - i,
        {
            let mut entry = self.songs[i].duplicate();
            entry.set_deleted(true);
            self.songs.set(i, entry);
            i = i + 1;
        }
    }

    /// Takes one freshly scanned song in: when an entry with the same path
    /// already stands in the library, that entry (the first such) is marked
    /// present and the scanned copy dropped; otherwise the song is
    /// appended.  Returns whether the path was already known.
    pub fn absorb(&mut self, song: Song) -> (found: bool)
        ensures
            !found ==> {
                &&& final(self).songs_seq().len() == old(self).songs_seq().len() + 1
                &&& final(self).songs_seq()[old(self).songs_seq().len() as int].same_attrs(&song)
                &&& forall|j: int|
                    0 <= j < old(self).songs_seq().len() ==> #[trigger] final(self).songs_seq()[j]
                        == old(self).songs_seq()[j]
                &&& forall|j: int|
                    0 <= j < old(self).songs_seq().len() ==> (#[trigger] old(
                        self,
                    ).songs_seq()[j]).spec_path() != song.spec_path()
            },
            found ==> exists|j: int|
                {
                    &&& 0 <= j < old(self).songs_seq().len()
                    &&& (#[trigger] old(self).songs_seq()[j]).spec_path() == song.spec_path()
                    &&& final(self).songs_seq() == old(self).songs_seq().update(
                        j,
                        final(self).songs_seq()[j],
                    )
                    &&& !final(self).songs_seq()[j].spec_deleted()
                    &&& final(self).songs_seq()[j].same_attrs_except_deleted(
                        &old(self).songs_seq()[j],
                    )
                },
    {
        let n = self.songs.len();
        let mut i: usize = 0;
        while i < n
            invariant
                i <= n,
                n == self.songs_seq().len(),
                self.songs_seq() == old(self).songs_seq(),
                forall|j: int|
                    0 <= j < i ==> (#[trigger] self.songs_seq()[j]).spec_path()
                        != song.spec_path(),
            decreases n - i,
        {
            if crate::strutil::str_eq(self.songs[i].get_path(), song.get_path()) {
                let mut entry = self.songs[i].duplicate();
                entry.set_deleted(false);
                self.songs.set(i, entry);
                return true;
            }
            i = i + 1;
        }
        self.songs.push(song);
        return false;
    }

    /// The number of songs in the library.
    pub fn count(&self) -> (r: usize)
        ensures
            r == self.songs_seq().len(),
    {
        self.songs.len()
    }
}

impl Default for Library {
    fn default() -> (r: Library)
        ensures
            r.songs_seq() == Seq::<Song>::empty(),
    {
        Library::new()
    }
}

} // verus!
