//! Playlist/position model: an ordered sequence of library song indices plus
//! an optional current position into that sequence.
//!
//! The position is an index into the playlist, never into the library.  The
//! model keeps the invariant that a present position is always in bounds, and
//! every reordering operation re-derives the position instead of leaving it
//! dangling.

use crate::rng;
use vstd::prelude::*;
use vstd::seq_lib::group_to_multiset_ensures;

verus! {

/// Wraparound advance: the position reached from `p` after stepping forward
/// `by` places in a cycle of length `len`.
pub open spec fn wrap_add(p: int, by: int, len: int) -> int
    recommends
        0 <= p < len,
        0 <= by,
{
    let b = by % len;
    if p + b < len {
        p + b
    } else {
        p + b - len
    }
}

/// Wraparound retreat: the position reached from `p` after stepping backward
/// `by` places in a cycle of length `len`.
pub open spec fn wrap_sub(p: int, by: int, len: int) -> int
    recommends
        0 <= p < len,
        0 <= by,
{
    let b = by % len;
    if p - b >= 0 {
        p - b
    } else {
        p - b + len
    }
}

pub struct Playlist {
    ids: Vec<usize>,
    pos: Option<usize>,
}

impl Playlist {
    /// A present position always points inside the playlist.
    pub open spec fn inv(&self) -> bool {
        self.position() matches Some(p) ==> p < self.ids_seq().len()
    }

    pub closed spec fn ids_seq(&self) -> Seq<usize> {
        self.ids@
    }

    pub closed spec fn position(&self) -> Option<usize> {
        self.pos
    }

    /// The song id under the current position, if there is one.
    pub open spec fn spec_current_id(&self) -> Option<usize> {
        match self.position() {
            Some(p) => Some(self.ids_seq()[p as int]),
            None => None,
        }
    }

    pub fn new() -> (r: Playlist)
        ensures
            r.inv(),
            r.ids_seq() == Seq::<usize>::empty(),
            r.position() is None,
    {
        Playlist { ids: Vec::new(), pos: None }
    }

    pub fn len(&self) -> (r: usize)
        ensures
            r == self.ids_seq().len(),
    {
        self.ids.len()
    }

    pub fn get_ids(&self) -> (r: &Vec<usize>)
        ensures
            r@ == self.ids_seq(),
    {
        &self.ids
    }

    pub fn get_position(&self) -> (r: Option<usize>)
        ensures
            r == self.position(),
    {
        self.pos
    }

    /// Song id at a playlist index, or `None` when the index is out of range.
    pub fn id_at(&self, index: usize) -> (r: Option<usize>)
        ensures
            index < self.ids_seq().len() ==> r == Some(self.ids_seq()[index as int]),
            index >= self.ids_seq().len() ==> r is None,
    {
        if index < self.ids.len() {
            Some(self.ids[index])
        } else {
            None
        }
    }

    /// The song id under the current position.
    pub fn current_id(&self) -> (r: Option<usize>)
        requires
            self.inv(),
        ensures
            r == self.spec_current_id(),
    {
        match self.pos {
            Some(p) => Some(self.ids[p]),
            None => None,
        }
    }

    /// Replaces the playlist contents and clears the position, so that no
    /// stale index survives the reordering.
    pub fn set_playlist(&mut self, ids: Vec<usize>)
        ensures
            final(self).inv(),
            final(self).ids_seq() == ids@,
            final(self).position() is None,
    {
        self.ids = ids;
        self.pos = None;
    }

    /// Clears the position.
    pub fn clear_position(&mut self)
        ensures
            final(self).inv(),
            final(self).ids_seq() == old(self).ids_seq(),
            final(self).position() is None,
    {
        self.pos = None;
    }

    /// Selects the playlist index `index`.
    pub fn set_position(&mut self, index: usize)
        requires
            index < old(self).ids_seq().len(),
        ensures
            final(self).inv(),
            final(self).ids_seq() == old(self).ids_seq(),
            final(self).position() == Some(index),
    {
        self.pos = Some(index);
    }

    /// First position holding `id`, scanning from the front.
    pub fn find_position(&self, id: usize) -> (r: Option<usize>)
        ensures
            match r {
                Some(i) => i < self.ids_seq().len() && self.ids_seq()[i as int] == id
                    && (forall|j: int| 0 <= j < i ==> self.ids_seq()[j] != id),
                None => forall|j: int| 0 <= j < self.ids_seq().len() ==> self.ids_seq()[j] != id,
            },
    {
        let n = self.ids.len();
        let mut i: usize = 0;
        while i < n
            invariant
                i <= n,
                n == self.ids_seq().len(),
                forall|j: int| 0 <= j < i ==> self.ids_seq()[j] != id,
            decreases n - i,
        {
            if self.ids[i] == id {
                return Some(i);
            }
            i = i + 1;
        }
        None
    }

    /// Moves the position to the first occurrence of `id`; when `id` is not
    /// in the playlist the position is left unchanged.
    pub fn set_current_to(&mut self, id: usize) -> (found: bool)
        requires
            old(self).inv(),
        ensures
            final(self).inv(),
            final(self).ids_seq() == old(self).ids_seq(),
            found ==> final(self).spec_current_id() == Some(id),
            found == final(self).ids_seq().contains(id),
            !found ==> *final(self) == *old(self),
            found ==> match final(self).position() {
                Some(i) => final(self).ids_seq()[i as int] == id
                    && (forall|j: int| 0 <= j < i ==> final(self).ids_seq()[j] != id),
                None => false,
            },
    {
        match self.find_position(id) {
            Some(i) => {
                self.pos = Some(i);
                assert(self.ids_seq().contains(id)) by {
                    assert(self.ids_seq()[i as int] == id);
                }
                true
            }
            None => {
                assert(!self.ids_seq().contains(id));
                false
            }
        }
    }

    /// Advances the position `by` places with wraparound; a no-op when the
    /// playlist is empty or nothing is selected.
    pub fn advance(&mut self, by: usize)
        requires
            old(self).inv(),
        ensures
            final(self).inv(),
            final(self).ids_seq() == old(self).ids_seq(),
            old(self).position() is None ==> final(self).position() is None,
            old(self).ids_seq().len() == 0 ==> final(self).position() == old(self).position(),
            old(self).position() matches Some(p) ==> old(self).ids_seq().len() > 0
                ==> final(self).position() == Some(
                    wrap_add(p as int, by as int, old(self).ids_seq().len() as int) as usize,
                ),
    {
        let len = self.ids.len();
        if len == 0 {
            return;
        }
        if let Some(p) = self.pos {
            let b = by % len;
            let np = if p >= len - b {
                p - (len - b)
            } else {
                p + b
            };
            self.pos = Some(np);
        }
    }

    /// Randomly permutes the playlist, keeping the same song selected.  When
    /// nothing is selected this is a no-op.  With `pin_current` the selected
    /// song is moved to the front and the position set to `0`; without it the
    /// position follows the song to wherever the permutation put it (its
    /// first occurrence, when the playlist holds duplicates).
    pub fn shuffle(&mut self, pin_current: bool)
        requires
            old(self).inv(),
        ensures
            final(self).inv(),
            final(self).ids_seq().len() == old(self).ids_seq().len(),
            final(self).ids_seq().to_multiset() == old(self).ids_seq().to_multiset(),
            old(self).position() is None ==> *final(self) == *old(self),
            old(self).position() is Some ==> {
                &&& final(self).position() is Some
                &&& final(self).spec_current_id() == old(self).spec_current_id()
            },
            old(self).position() is Some && pin_current ==> final(self).position() == Some(0usize),
    {
        broadcast use group_to_multiset_ensures;

        let p = match self.pos {
            Some(p) => p,
            None => {
                return ;
            },
        };
        let ghost pre = self.ids@;
        let id = self.ids[p];
        let mut gen = rng::fresh_rng();
        rng::shuffle_ids(&mut self.ids, &mut gen);
        proof {
            assert(pre.contains(id));
            assert(self.ids@.to_multiset().count(id) > 0);
            assert(self.ids@.contains(id));
        }
        self.pos = None;
        let found = self.set_current_to(id);
        assert(found);
        if pin_current {
            let cur = self.pos.unwrap();
            if cur != 0 {
                let ghost mid = self.ids@;
                let a = self.ids[cur];
                let b = self.ids[0];
                self.ids.set(cur, b);
                self.ids.set(0, a);
                self.pos = Some(0);
                proof {
                    lemma_swap_preserves_multiset(mid, cur as int, 0);
                }
            }
        }
    }

    /// Retreats the position `by` places with wraparound; a no-op when the
    /// playlist is empty or nothing is selected.
    pub fn retreat(&mut self, by: usize)
        requires
            old(self).inv(),
        ensures
            final(self).inv(),
            final(self).ids_seq() == old(self).ids_seq(),
            old(self).position() is None ==> final(self).position() is None,
            old(self).ids_seq().len() == 0 ==> final(self).position() == old(self).position(),
            old(self).position() matches Some(p) ==> old(self).ids_seq().len() > 0
                ==> final(self).position() == Some(
                    wrap_sub(p as int, by as int, old(self).ids_seq().len() as int) as usize,
                ),
    {
        let len = self.ids.len();
        if len == 0 {
            return;
        }
        if let Some(p) = self.pos {
            let b = by % len;
            let np = if p >= b {
                p - b
            } else {
                p + (len - b)
            };
            self.pos = Some(np);
        }
    }
}

/// Swapping two entries of a sequence keeps its multiset of elements.
proof fn lemma_swap_preserves_multiset(s: Seq<usize>, i: int, j: int)
    requires
        0 <= i < s.len(),
        0 <= j < s.len(),
        i != j,
    ensures
        s.update(i, s[j]).update(j, s[i]).to_multiset() == s.to_multiset(),
{
    broadcast use group_to_multiset_ensures;

    let s1 = s.update(i, s[j]);
    let s2 = s1.update(j, s[i]);
    assert(s1[j] == s[j]);
    assert(s1.to_multiset() == s.to_multiset().remove(s[i]).insert(s[j]));
    assert(s2.to_multiset() == s1.to_multiset().remove(s1[j]).insert(s[i]));
    assert(s.to_multiset().contains(s[i]));
    assert(s2.to_multiset() =~= s.to_multiset());
}

/// Advancing one place from the last position wraps to the front, and
/// retreating one place from the front wraps to the last position.
pub proof fn lemma_single_step_wraps(p: int, len: int)
    requires
        0 <= p < len,
    ensures
        p == len - 1 ==> wrap_add(p, 1, len) == 0,
        p == 0 ==> wrap_sub(p, 1, len) == len - 1,
{
    if len == 1 {
        assert(1int % 1int == 0) by (nonlinear_arith);
    } else {
        assert(1int % len == 1) by (nonlinear_arith)
            requires
                len > 1,
        ;
    }
}

/// Wraparound stepping never leaves the playlist: the reached position is
/// always in bounds.
pub proof fn lemma_wrap_in_bounds(p: int, by: int, len: int)
    requires
        0 <= p < len,
        0 <= by,
    ensures
        0 <= wrap_add(p, by, len) < len,
        0 <= wrap_sub(p, by, len) < len,
{
}

} // verus!
