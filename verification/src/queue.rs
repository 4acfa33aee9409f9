//! The playback queue: an ordered list of track ids with a wrapping cursor.

use vstd::prelude::*;
use crate::text::str_eq;

verus! {

/// How the queue was ordered.
#[derive(Debug, Clone, Copy, PartialEq, Eq, Structural)]
pub enum QueueMode {
    Shuffle,
    Ascending,
    Descending,
}

/// Track ids in playing order and the position of the current track.
///
/// The cursor always points at a track when there is one, and is 0 otherwise.
pub struct PlaybackQueue {
    ordered_ids: Vec<String>,
    cursor: usize,
    mode: QueueMode,
    seed: Option<u64>,
}

/// The position after `c` in a ring of `n` places.
pub open spec fn ring_next(c: int, n: int) -> int {
    (c + 1) % n
}

/// The position before `c` in a ring of `n` places.
pub open spec fn ring_prev(c: int, n: int) -> int {
    if c == 0 {
        n - 1
    } else {
        c - 1
    }
}

/// The position `k` places after `c` in a ring of `n` places.
pub open spec fn ring_ahead(c: int, k: int, n: int) -> int {
    (c + k) % n
}

/// The character sequences of a list of strings.
pub open spec fn views(v: Seq<String>) -> Seq<Seq<char>> {
    v.map_values(|s: String| s@)
}

/// Pushing a string adds its characters at the end of the views.
pub proof fn lemma_views_push(v: Seq<String>, s: String)
    ensures
        views(v.push(s)) == views(v).push(s@),
{
    assert(views(v.push(s)) =~= views(v).push(s@));
}

/// The first position holding `id`, if any.
pub open spec fn first_index_of(ids: Seq<Seq<char>>, id: Seq<char>) -> Option<int> {
    if exists|i: int| 0 <= i < ids.len() && ids[i] == id {
        Some(
            choose|i: int|
                0 <= i < ids.len() && ids[i] == id && forall|j: int| 0 <= j < i ==> ids[j] != id,
        )
    } else {
        None
    }
}

impl PlaybackQueue {
    #[verifier::type_invariant]
    spec fn cursor_in_range(self) -> bool {
        if self.ordered_ids.len() == 0 {
            self.cursor == 0
        } else {
            self.cursor < self.ordered_ids.len()
        }
    }

    /// The track ids in playing order.
    pub closed spec fn ids(self) -> Seq<Seq<char>> {
        views(self.ordered_ids@)
    }

    /// The position of the current track.
    pub closed spec fn position(self) -> int {
        self.cursor as int
    }

    /// The ordering of the queue.
    pub closed spec fn queue_mode(self) -> QueueMode {
        self.mode
    }

    /// The seed of a shuffled queue.
    pub closed spec fn shuffle_seed(self) -> Option<u64> {
        self.seed
    }

    /// The id `k` places after the cursor, wrapping around; none when the queue is empty.
    pub open spec fn id_ahead(self, k: int) -> Option<Seq<char>> {
        if self.ids().len() == 0 {
            None
        } else {
            Some(self.ids()[ring_ahead(self.position(), k, self.ids().len() as int)])
        }
    }

    /// A queue in the order given, which was produced by shuffling with `seed`.
    pub fn new_shuffle_ordered(ordered_ids: Vec<String>, seed: u64) -> (q: Self)
        ensures
            q.ids() == views(ordered_ids@),
            q.position() == 0,
            q.queue_mode() == QueueMode::Shuffle,
            q.shuffle_seed() == Some(seed),
    {
        PlaybackQueue { ordered_ids, cursor: 0, mode: QueueMode::Shuffle, seed: Some(seed) }
    }

    /// A queue in the sorted order given.
    pub fn new_sorted(ids: Vec<String>, mode: QueueMode) -> (q: Self)
        requires
            mode != QueueMode::Shuffle,
        ensures
            q.ids() == views(ids@),
            q.position() == 0,
            q.queue_mode() == mode,
            q.shuffle_seed() is None,
    {
        PlaybackQueue { ordered_ids: ids, cursor: 0, mode, seed: None }
    }

    /// In shuffle mode, takes the newly shuffled order and seed and restarts at the
    /// first track; in a sorted mode, changes nothing.
    pub fn reshuffle_ordered(&mut self, ordered_ids: Vec<String>, seed: u64)
        ensures
            old(self).queue_mode() == QueueMode::Shuffle ==> {
                &&& final(self).ids() == views(ordered_ids@)
                &&& final(self).position() == 0
                &&& final(self).shuffle_seed() == Some(seed)
                &&& final(self).queue_mode() == QueueMode::Shuffle
            },
            old(self).queue_mode() != QueueMode::Shuffle ==> *final(self) == *old(self),
    {
        if self.mode == QueueMode::Shuffle {
            *self = PlaybackQueue { ordered_ids, cursor: 0, mode: QueueMode::Shuffle, seed: Some(seed) };
        }
    }

    /// The id of the current track.
    pub fn current_id(&self) -> (r: Option<&str>)
        ensures
            r is Some <==> self.ids().len() > 0,
            r matches Some(s) ==> s@ == self.ids()[self.position()],
            self.ids().len() > 0 ==> 0 <= self.position() < self.ids().len(),
    {
        proof {
            use_type_invariant(self);
        }
        if self.cursor < self.ordered_ids.len() {
            Some(self.ordered_ids[self.cursor].as_str())
        } else {
            None
        }
    }

    /// The id of the track after the current one, wrapping around.
    pub fn next_id(&self) -> (r: Option<&str>)
        ensures
            r is Some <==> self.ids().len() > 0,
            r matches Some(s) ==> s@ == self.ids()[ring_next(
                self.position(),
                self.ids().len() as int,
            )],
    {
        proof {
            use_type_invariant(self);
        }
        if self.ordered_ids.len() == 0 {
            return None;
        }
        let next_cursor = (self.cursor + 1) % self.ordered_ids.len();
        Some(self.ordered_ids[next_cursor].as_str())
    }

    /// The id `offset` places after the current one, wrapping around.
    pub fn peek_ahead(&self, offset: usize) -> (r: Option<&str>)
        ensures
            r is Some <==> self.ids().len() > 0,
            r matches Some(s) ==> s@ == self.ids()[ring_ahead(
                self.position(),
                offset as int,
                self.ids().len() as int,
            )],
    {
        proof {
            use_type_invariant(self);
        }
        let n = self.ordered_ids.len();
        if n == 0 {
            return None;
        }
        let r = offset % n;
        let room = n - self.cursor;
        let idx = if r >= room {
            r - room
        } else {
            self.cursor + r
        };
        proof {
            let c = self.cursor as int;
            let k = offset as int;
            let m = n as int;
            assert(k % m == r);
            assert((c + k) % m == (c + r) % m) by {
                vstd::arithmetic::div_mod::lemma_add_mod_noop(c, k, m);
                vstd::arithmetic::div_mod::lemma_add_mod_noop(c, r as int, m);
                vstd::arithmetic::div_mod::lemma_mod_twice(k, m);
                vstd::arithmetic::div_mod::lemma_small_mod(c as nat, m as nat);
            }
            if r >= room {
                assert((c + r) % m == (c + r - m) % m) by {
                    vstd::arithmetic::div_mod::lemma_mod_sub_multiples_vanish(c + r, m);
                }
                vstd::arithmetic::div_mod::lemma_small_mod((c + r - m) as nat, m as nat);
            } else {
                vstd::arithmetic::div_mod::lemma_small_mod((c + r) as nat, m as nat);
            }
        }
        Some(self.ordered_ids[idx].as_str())
    }

    /// Moves to the next track, wrapping around; an empty queue stays as it is.
    pub fn advance(&mut self)
        ensures
            final(self).ids() == old(self).ids(),
            final(self).queue_mode() == old(self).queue_mode(),
            final(self).shuffle_seed() == old(self).shuffle_seed(),
            old(self).ids().len() > 0 ==> final(self).position() == ring_next(
                old(self).position(),
                old(self).ids().len() as int,
            ),
            old(self).ids().len() == 0 ==> final(self).position() == old(self).position(),
    {
        proof {
            use_type_invariant(&*self);
        }
        if self.ordered_ids.len() > 0 {
            self.cursor = (self.cursor + 1) % self.ordered_ids.len();
        }
    }

    /// Moves to the previous track, wrapping around; an empty queue stays as it is.
    pub fn previous(&mut self)
        ensures
            final(self).ids() == old(self).ids(),
            final(self).queue_mode() == old(self).queue_mode(),
            final(self).shuffle_seed() == old(self).shuffle_seed(),
            old(self).ids().len() > 0 ==> final(self).position() == ring_prev(
                old(self).position(),
                old(self).ids().len() as int,
            ),
            old(self).ids().len() == 0 ==> final(self).position() == old(self).position(),
    {
        proof {
            use_type_invariant(&*self);
        }
        if self.ordered_ids.len() > 0 {
            self.cursor = if self.cursor == 0 {
                self.ordered_ids.len() - 1
            } else {
                self.cursor - 1
            };
        }
    }

    /// The position of the current track.
    pub fn cursor(&self) -> (c: usize)
        ensures
            c == self.position(),
            self.ids().len() == 0 ==> c == 0,
            self.ids().len() > 0 ==> c < self.ids().len(),
    {
        proof {
            use_type_invariant(self);
        }
        self.cursor
    }

    /// Moves the cursor to `pos` when that is a position of the queue.
    pub fn set_cursor(&mut self, pos: usize)
        ensures
            final(self).ids() == old(self).ids(),
            final(self).queue_mode() == old(self).queue_mode(),
            final(self).shuffle_seed() == old(self).shuffle_seed(),
            pos < old(self).ids().len() ==> final(self).position() == pos,
            pos >= old(self).ids().len() ==> final(self).position() == old(self).position(),
    {
        if pos < self.ordered_ids.len() {
            self.cursor = pos;
        }
    }

    /// Moves the cursor to the first occurrence of `id`, if the queue holds it.
    pub fn set_current_id(&mut self, id: &str)
        ensures
            final(self).ids() == old(self).ids(),
            final(self).queue_mode() == old(self).queue_mode(),
            final(self).shuffle_seed() == old(self).shuffle_seed(),
            first_index_of(old(self).ids(), id@) matches Some(i) ==> final(self).position() == i,
            first_index_of(old(self).ids(), id@) is None ==> final(self).position()
                == old(self).position(),
    {
        let ghost ids = self.ids();
        let mut i: usize = 0;
        while i < self.ordered_ids.len()
            invariant
                *self == *old(self),
                ids == views(self.ordered_ids@),
                i <= self.ordered_ids.len(),
                forall|j: int| 0 <= j < i ==> ids[j] != id@,
            decreases self.ordered_ids.len() - i,
        {
            if str_eq(self.ordered_ids[i].as_str(), id) {
                proof {
                    assert(ids[i as int] == id@);
                    let k = choose|k: int|
                        0 <= k < ids.len() && ids[k] == id@ && forall|j: int|
                            0 <= j < k ==> ids[j] != id@;
                    assert(k == i) by {
                        if k < i {
                            assert(ids[k] != id@);
                        } else if k > i {
                        }
                    }
                }
                self.cursor = i;
                return;
            }
            i = i + 1;
        }
    }

    /// The number of tracks.
    pub fn len(&self) -> (n: usize)
        ensures
            n == self.ids().len(),
    {
        self.ordered_ids.len()
    }

    /// Whether the queue holds no track.
    pub fn is_empty(&self) -> (b: bool)
        ensures
            b == (self.ids().len() == 0),
    {
        self.ordered_ids.len() == 0
    }

    /// The ordering of the queue.
    pub fn mode(&self) -> (m: QueueMode)
        ensures
            m == self.queue_mode(),
    {
        self.mode
    }

    /// The seed of a shuffled queue; none for a sorted one.
    pub fn seed(&self) -> (s: Option<u64>)
        ensures
            s == self.shuffle_seed(),
    {
        self.seed
    }
}


/// Stepping back after stepping forward returns to the same track.
pub proof fn law_previous_undoes_advance(c: int, n: int)
    requires
        0 <= c < n,
    ensures
        ring_prev(ring_next(c, n), n) == c,
{
    if c + 1 < n {
        vstd::arithmetic::div_mod::lemma_small_mod((c + 1) as nat, n as nat);
    } else {
        vstd::arithmetic::div_mod::lemma_mod_self_0(n);
    }
}

/// Stepping forward after stepping back returns to the same track.
pub proof fn law_advance_undoes_previous(c: int, n: int)
    requires
        0 <= c < n,
    ensures
        ring_next(ring_prev(c, n), n) == c,
{
    if c == 0 {
        vstd::arithmetic::div_mod::lemma_mod_self_0(n);
    } else {
        vstd::arithmetic::div_mod::lemma_small_mod(c as nat, n as nat);
    }
}

/// The position reached by stepping forward `k` times.
pub open spec fn ring_next_times(c: int, k: nat, n: int) -> int
    decreases k,
{
    if k == 0 {
        c
    } else {
        ring_next(ring_next_times(c, (k - 1) as nat, n), n)
    }
}

/// Stepping forward `k` times lands `k` places ahead, wrapping around.
pub proof fn law_advance_times_is_ahead(c: int, k: nat, n: int)
    requires
        0 <= c < n,
    ensures
        ring_next_times(c, k, n) == ring_ahead(c, k as int, n),
    decreases k,
{
    if k == 0 {
        vstd::arithmetic::div_mod::lemma_small_mod(c as nat, n as nat);
    } else {
        law_advance_times_is_ahead(c, (k - 1) as nat, n);
        vstd::arithmetic::div_mod::lemma_add_mod_noop(c + k - 1, 1, n);
        vstd::arithmetic::div_mod::lemma_mod_twice(c + k - 1, n);
        if n == 1 {
            assert((c + k - 1) % n == 0);
            assert(((c + k - 1) % n + 1) % n == 0);
            assert((c + k) % n == 0);
        } else {
            vstd::arithmetic::div_mod::lemma_add_mod_noop((c + k - 1) % n, 1, n);
        }
    }
}

/// Stepping forward once per track goes all the way round to the same track.
pub proof fn law_advance_wraps_around(c: int, n: int)
    requires
        0 <= c < n,
    ensures
        ring_next_times(c, n as nat, n) == c,
{
    law_advance_times_is_ahead(c, n as nat, n);
    vstd::arithmetic::div_mod::lemma_mod_add_multiples_vanish(c, n);
    vstd::arithmetic::div_mod::lemma_small_mod(c as nat, n as nat);
}

/// Looking zero places ahead shows the current track, one place ahead the next
/// track, and after advancing the current track is the one that was next.
pub proof fn law_peek_agrees_with_current_and_next(q: PlaybackQueue, r: PlaybackQueue)
    requires
        0 <= q.position() < q.ids().len(),
        r.ids() == q.ids(),
        r.position() == ring_next(q.position(), q.ids().len() as int),
    ensures
        q.id_ahead(0) == Some(q.ids()[q.position()]),
        q.id_ahead(1) == Some(q.ids()[ring_next(q.position(), q.ids().len() as int)]),
        r.id_ahead(0) == q.id_ahead(1),
{
    let n = q.ids().len() as int;
    vstd::arithmetic::div_mod::lemma_small_mod(q.position() as nat, n as nat);
    vstd::arithmetic::div_mod::lemma_mod_pos_bound(q.position() + 1, n);
    vstd::arithmetic::div_mod::lemma_small_mod(r.position() as nat, n as nat);
}

/// Selecting a track by id finds its first occurrence, exactly when the queue holds it.
pub proof fn law_first_index_of(ids: Seq<Seq<char>>, id: Seq<char>)
    ensures
        first_index_of(ids, id) is Some <==> ids.contains(id),
        first_index_of(ids, id) matches Some(i) ==> {
            &&& 0 <= i < ids.len()
            &&& ids[i] == id
            &&& forall|j: int| 0 <= j < i ==> ids[j] != id
        },
    decreases ids.len(),
{
    if ids.contains(id) {
        let w = choose|i: int| 0 <= i < ids.len() && ids[i] == id;
        lemma_least_index(ids, id, w);
    }
}

proof fn lemma_least_index(ids: Seq<Seq<char>>, id: Seq<char>, w: int)
    requires
        0 <= w < ids.len(),
        ids[w] == id,
    ensures
        exists|i: int|
            0 <= i < ids.len() && ids[i] == id && forall|j: int| 0 <= j < i ==> ids[j] != id,
    decreases w,
{
    if exists|j: int| 0 <= j < w && ids[j] == id {
        let j = choose|j: int| 0 <= j < w && ids[j] == id;
        lemma_least_index(ids, id, j);
    } else {
        assert(forall|j: int| 0 <= j < w ==> ids[j] != id);
    }
}

} // verus!
