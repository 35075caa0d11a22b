//! The ordered playback queue and its mutation semantics.
//!
//! A queue is a sequence of tracks together with a position cursor. The
//! invariant: when the queue is non-empty the cursor indexes a track; when it
//! is empty the cursor rests at the sentinel value `0`. Every mutation is
//! atomic — it either fully applies with the invariant intact, or it is
//! rejected and the queue is observably unchanged.
//!
//! Removal policy: `remove_by_id` removes the first occurrence of the
//! identifier only; later duplicates stay in place.

use vstd::prelude::*;

use crate::error::Error;
use crate::models::MusicKitTrack;

verus! {

/// Whether some track in `s` carries the identifier `id`.
pub open spec fn contains_id(s: Seq<MusicKitTrack>, id: Seq<char>) -> bool {
    exists|k: int| 0 <= k < s.len() && s[k].id@ == id
}

/// The index of the first track in `s` whose identifier is `id`; meaningful
/// only when `contains_id(s, id)` holds.
pub open spec fn first_id_index(s: Seq<MusicKitTrack>, id: Seq<char>) -> int
    decreases s.len(),
{
    if s.len() == 0 {
        0
    } else if s[0].id@ == id {
        0
    } else {
        1 + first_id_index(s.skip(1), id)
    }
}

/// When `id` occurs in `s`, `first_id_index` names an index that carries it
/// and before which no index does.
pub proof fn lemma_first_id_index(s: Seq<MusicKitTrack>, id: Seq<char>)
    requires
        contains_id(s, id),
    ensures
        0 <= first_id_index(s, id) < s.len(),
        s[first_id_index(s, id)].id@ == id,
        forall|k: int| 0 <= k < first_id_index(s, id) ==> s[k].id@ != id,
    decreases s.len(),
{
    if s.len() == 0 {
    } else if s[0].id@ == id {
    } else {
        let t = s.skip(1);
        assert(contains_id(t, id)) by {
            let w = choose|k: int| 0 <= k < s.len() && s[k].id@ == id;
            assert(t[w - 1] == s[w]);
        }
        lemma_first_id_index(t, id);
        let j = first_id_index(t, id);
        assert(s[1 + j] == t[j]);
        assert(forall|k: int| 1 <= k < 1 + j ==> s[k] == t[k - 1]);
    }
}

/// `first_id_index` agrees with any index that carries `id` and is preceded
/// by none that does.
pub proof fn lemma_first_id_index_pins(s: Seq<MusicKitTrack>, id: Seq<char>, i: int)
    requires
        0 <= i < s.len(),
        s[i].id@ == id,
        forall|k: int| 0 <= k < i ==> s[k].id@ != id,
    ensures
        first_id_index(s, id) == i,
    decreases s.len(),
{
    if s[0].id@ == id {
    } else {
        let t = s.skip(1);
        assert(forall|k: int| 0 <= k < i - 1 ==> t[k] == s[k + 1]);
        assert(t[i - 1] == s[i]);
        lemma_first_id_index_pins(t, id, i - 1);
    }
}

/// For every track sequence and every index at most its length: inserting a
/// track there yields a sequence one longer, with the new track at that
/// index, every earlier element unmoved, and every later element shifted by
/// exactly one — the original relative order is kept.
pub proof fn lemma_insert_preserves_order(s: Seq<MusicKitTrack>, t: MusicKitTrack, i: int)
    requires
        0 <= i <= s.len(),
    ensures
        s.insert(i, t).len() == s.len() + 1,
        s.insert(i, t)[i] == t,
        forall|k: int| 0 <= k < i ==> s.insert(i, t)[k] == s[k],
        forall|k: int| i <= k < s.len() ==> s.insert(i, t)[k + 1] == s[k],
{
}

/// Where the cursor stands after `count` tracks were inserted at `at` into a
/// queue of length `old_len` whose cursor stood at `old_pos`: an insertion at
/// or before the cursor shifts it forward by the inserted count, so that it
/// keeps pointing at the same logical track.
pub open spec fn cursor_after_insert(old_len: int, old_pos: int, at: int, count: int) -> int {
    if old_len == 0 {
        0
    } else if at <= old_pos {
        old_pos + count
    } else {
        old_pos
    }
}

/// Where the cursor stands after the track at `removed` left a queue whose
/// cursor stood at `old_pos` and whose new length is `new_len`: a removal
/// before the cursor shifts it back by one; a removal at the cursor leaves it
/// in place so that it refers to the following track, clamped to the last
/// index when the cursor was on the final track; an empty result resets it to
/// the sentinel.
pub open spec fn cursor_after_remove(old_pos: int, removed: int, new_len: int) -> int {
    if new_len == 0 {
        0
    } else if removed < old_pos {
        old_pos - 1
    } else if old_pos < new_len {
        old_pos
    } else {
        new_len - 1
    }
}

/// The ordered upcoming-playback sequence together with its position cursor.
#[derive(Debug, Clone, PartialEq, Eq)]
pub struct Queue {
    pub items: Vec<MusicKitTrack>,
    pub position: usize,
}

impl Queue {
    /// The queue invariant: a cursor inside the sequence when there is one,
    /// the sentinel `0` when there is none.
    pub open spec fn valid(&self) -> bool {
        &&& self.items@.len() == 0 ==> self.position == 0
        &&& self.items@.len() > 0 ==> (self.position as int) < self.items@.len()
    }

    /// An empty queue with the cursor at the sentinel.
    pub fn new() -> (q: Queue)
        ensures
            q.valid(),
            q.items@ =~= Seq::<MusicKitTrack>::empty(),
            q.position == 0,
    {
        Queue { items: Vec::new(), position: 0 }
    }

    pub fn len(&self) -> (n: usize)
        ensures
            n == self.items@.len(),
    {
        self.items.len()
    }

    /// The track under the cursor, if the queue holds any.
    pub fn current(&self) -> (r: Option<&MusicKitTrack>)
        requires
            self.valid(),
        ensures
            self.items@.len() == 0 ==> r is None,
            self.items@.len() > 0 ==> r == Some(&self.items[self.position as int]),
    {
        if self.items.len() == 0 {
            None
        } else {
            Some(&self.items[self.position])
        }
    }

    /// Replaces the queue wholesale. An empty replacement empties the queue
    /// and resets the cursor to the sentinel; a non-empty one demands a
    /// start position inside it, and on success puts the cursor there. A
    /// start position out of range is rejected and the queue is unchanged.
    pub fn set(&mut self, tracks: Vec<MusicKitTrack>, start_position: usize) -> (r: Result<
        (),
        Error,
    >)
        requires
            old(self).valid(),
        ensures
            final(self).valid(),
            tracks@.len() == 0 ==> r is Ok && final(self).items@ == tracks@ && final(self).position == 0,
            tracks@.len() > 0 && (start_position as int) < tracks@.len() ==> r is Ok && final(self).items@ == tracks@ && final(self).position == start_position,
            tracks@.len() > 0 && (start_position as int) >= tracks@.len() ==> (r matches Err(
                Error::InvalidParameter(m),
            ) && m@ == "start position exceeds queue length"@) && *final(self) == *old(self),
            r is Err ==> *final(self) == *old(self),
    {
        if tracks.len() == 0 {
            self.items = tracks;
            self.position = 0;
            Ok(())
        } else if start_position < tracks.len() {
            self.items = tracks;
            self.position = start_position;
            Ok(())
        } else {
            Err(Error::InvalidParameter(String::from_str("start position exceeds queue length")))
        }
    }

    /// Replaces the queue contents while preserving the cursor where it still
    /// indexes a valid position, clamping it to the last valid index
    /// otherwise, or to the sentinel when the replacement is empty.
    pub fn update(&mut self, tracks: Vec<MusicKitTrack>)
        requires
            old(self).valid(),
        ensures
            final(self).valid(),
            final(self).items@ == tracks@,
            tracks@.len() == 0 ==> final(self).position == 0,
            tracks@.len() > 0 && (old(self).position as int) < tracks@.len() ==> final(self).position == old(self).position,
            tracks@.len() > 0 && (old(self).position as int) >= tracks@.len() ==> final(self).position as int == tracks@.len() - 1,
    {
        let new_pos: usize = if tracks.len() == 0 {
            0
        } else if self.position < tracks.len() {
            self.position
        } else {
            tracks.len() - 1
        };
        self.items = tracks;
        self.position = new_pos;
    }

    /// Inserts one track before index `position`; the cursor shifts forward
    /// by one when the insertion is at or before it. A position beyond the
    /// end is rejected and the queue is unchanged.
    pub fn insert_at(&mut self, track: MusicKitTrack, position: usize) -> (r: Result<(), Error>)
        requires
            old(self).valid(),
        ensures
            final(self).valid(),
            (position as int) <= old(self).items@.len() ==> r is Ok && final(self).items@ == old(self).items@.insert(position as int, track) && final(self).position as int
                == cursor_after_insert(
                old(self).items@.len() as int,
                old(self).position as int,
                position as int,
                1,
            ),
            (position as int) > old(self).items@.len() ==> (r matches Err(Error::InvalidParameter(
                m,
            )) && m@ == "insert position exceeds queue length"@) && *final(self) == *old(self),
    {
        if position > self.items.len() {
            return Err(
                Error::InvalidParameter(String::from_str("insert position exceeds queue length")),
            );
        }
        let was_empty = self.items.len() == 0;
        self.items.insert(position, track);
        if !was_empty && position <= self.position {
            self.position = self.position + 1;
        }
        Ok(())
    }

    /// Inserts a span of tracks before index `position`; the cursor shifts
    /// forward by the inserted count when the span lands at or before it. A
    /// position beyond the end is rejected and the queue is unchanged —
    /// validation precedes the splice, so no partial insertion can be seen.
    pub fn insert_many_at(&mut self, tracks: Vec<MusicKitTrack>, position: usize) -> (r: Result<
        (),
        Error,
    >)
        requires
            old(self).valid(),
        ensures
            final(self).valid(),
            (position as int) <= old(self).items@.len() ==> r is Ok && final(self).items@ == old(self).items@.subrange(0, position as int) + tracks@ + old(self).items@.subrange(
                position as int,
                old(self).items@.len() as int,
            ) && final(self).position as int == cursor_after_insert(
                old(self).items@.len() as int,
                old(self).position as int,
                position as int,
                tracks@.len() as int,
            ),
            (position as int) > old(self).items@.len() ==> (r matches Err(Error::InvalidParameter(
                m,
            )) && m@ == "insert position exceeds queue length"@) && *final(self) == *old(self),
    {
        if position > self.items.len() {
            return Err(
                Error::InvalidParameter(String::from_str("insert position exceeds queue length")),
            );
        }
        let was_empty = self.items.len() == 0;
        let count = tracks.len();
        let mut incoming = tracks;
        let mut tail = self.items.split_off(position);
        self.items.append(&mut incoming);
        self.items.append(&mut tail);
        if !was_empty && position <= self.position {
            let n = self.items.len();
            assert(self.position + count < n);
            self.position = self.position + count;
        }
        Ok(())
    }

    /// Inserts one track immediately after the cursor (at the front of an
    /// empty queue); the cursor is unaffected.
    pub fn insert_next(&mut self, track: MusicKitTrack)
        requires
            old(self).valid(),
        ensures
            final(self).valid(),
            old(self).items@.len() == 0 ==> final(self).items@ == old(self).items@.insert(0, track),
            old(self).items@.len() > 0 ==> final(self).items@ == old(self).items@.insert(
                old(self).position + 1,
                track,
            ),
            final(self).position == old(self).position,
    {
        if self.items.len() == 0 {
            self.items.insert(0, track);
        } else {
            self.items.insert(self.position + 1, track);
        }
    }

    /// Appends one track at the tail; the cursor is unaffected.
    pub fn insert_last(&mut self, track: MusicKitTrack)
        requires
            old(self).valid(),
        ensures
            final(self).valid(),
            final(self).items@ == old(self).items@.push(track),
            final(self).position == old(self).position,
    {
        self.items.push(track);
    }

    /// Appends a span of tracks at the tail; the cursor is unaffected.
    pub fn append(&mut self, tracks: Vec<MusicKitTrack>)
        requires
            old(self).valid(),
        ensures
            final(self).valid(),
            final(self).items@ == old(self).items@ + tracks@,
            final(self).position == old(self).position,
    {
        let mut incoming = tracks;
        self.items.append(&mut incoming);
    }

    /// Removes the first track carrying `track_id` and reports its former
    /// index. An absent identifier is rejected and the queue is unchanged.
    pub fn remove_by_id(&mut self, track_id: &String) -> (r: Result<usize, Error>)
        requires
            old(self).valid(),
        ensures
            final(self).valid(),
            !contains_id(old(self).items@, track_id@) ==> (r matches Err(Error::QueueError(m))
                && m@ == "no track with the given identifier is in the queue"@) && *final(self)
                == *old(self),
            contains_id(old(self).items@, track_id@) ==> (r matches Ok(j) && j as int
                == first_id_index(old(self).items@, track_id@) && final(self).items@ == old(self).items@.remove(j as int) && final(self).position as int == cursor_after_remove(
                old(self).position as int,
                j as int,
                old(self).items@.len() - 1,
            )),
    {
        let mut i: usize = 0;
        while i < self.items.len()
            invariant
                old(self).valid(),
                i <= self.items@.len(),
                *self == *old(self),
                forall|k: int| 0 <= k < i ==> old(self).items@[k].id@ != track_id@,
            decreases self.items@.len() - i,
        {
            if self.items[i].id.eq(track_id) {
                proof {
                    lemma_first_id_index_pins(old(self).items@, track_id@, i as int);
                }
                let _removed = self.items.remove(i);
                let new_len = self.items.len();
                if new_len == 0 {
                    self.position = 0;
                } else if i < self.position {
                    self.position = self.position - 1;
                } else if self.position >= new_len {
                    self.position = new_len - 1;
                }
                return Ok(i);
            }
            i = i + 1;
        }
        Err(Error::QueueError(String::from_str("no track with the given identifier is in the queue")))
    }

    /// Moves the cursor to the first track carrying `track_id` and reports
    /// its index. An absent identifier is rejected and the queue is
    /// unchanged.
    pub fn skip_to_id(&mut self, track_id: &String) -> (r: Result<usize, Error>)
        requires
            old(self).valid(),
        ensures
            final(self).valid(),
            final(self).items == old(self).items,
            !contains_id(old(self).items@, track_id@) ==> (r matches Err(
                Error::InvalidTrackIdentifier(m),
            ) && m@ == track_id@) && *final(self) == *old(self),
            contains_id(old(self).items@, track_id@) ==> (r matches Ok(j) && j as int
                == first_id_index(old(self).items@, track_id@) && final(self).position == j),
    {
        let mut i: usize = 0;
        while i < self.items.len()
            invariant
                old(self).valid(),
                i <= self.items@.len(),
                *self == *old(self),
                forall|k: int| 0 <= k < i ==> old(self).items@[k].id@ != track_id@,
            decreases self.items@.len() - i,
        {
            if self.items[i].id.eq(track_id) {
                proof {
                    lemma_first_id_index_pins(old(self).items@, track_id@, i as int);
                }
                self.position = i;
                return Ok(i);
            }
            i = i + 1;
        }
        Err(Error::InvalidTrackIdentifier(track_id.clone()))
    }

    /// Moves the cursor one track forward where a following track exists;
    /// reports whether it moved. The queue contents are untouched.
    pub fn advance(&mut self) -> (moved: bool)
        requires
            old(self).valid(),
        ensures
            final(self).valid(),
            final(self).items == old(self).items,
            moved == (old(self).items@.len() > 0 && old(self).position + 1 < old(self).items@.len()),
            moved ==> final(self).position == old(self).position + 1,
            !moved ==> *final(self) == *old(self),
    {
        if self.items.len() > 0 && self.position + 1 < self.items.len() {
            self.position = self.position + 1;
            true
        } else {
            false
        }
    }

    /// Moves the cursor one track back where a preceding track exists;
    /// reports whether it moved. The queue contents are untouched.
    pub fn retreat(&mut self) -> (moved: bool)
        requires
            old(self).valid(),
        ensures
            final(self).valid(),
            final(self).items == old(self).items,
            moved == (old(self).position > 0),
            moved ==> final(self).position == old(self).position - 1,
            !moved ==> *final(self) == *old(self),
    {
        if self.position > 0 {
            self.position = self.position - 1;
            true
        } else {
            false
        }
    }
}

} // verus!
