use rand::seq::SliceRandom;
use vstd::prelude::*;

verus! {

broadcast use vstd::seq_lib::group_seq_properties;

/// Loop/repeat mode for queue playback.
#[derive(Debug, Clone, Copy, PartialEq, Eq, Structural)]
pub enum LoopMode {
    Off,
    RepeatOne,
    LoopAll,
    Shuffle,
}

/// The mode that follows `mode` in the cycle Off, RepeatOne, LoopAll, Shuffle.
pub open spec fn spec_next_loop_mode(mode: LoopMode) -> LoopMode {
    match mode {
        LoopMode::Off => LoopMode::RepeatOne,
        LoopMode::RepeatOne => LoopMode::LoopAll,
        LoopMode::LoopAll => LoopMode::Shuffle,
        LoopMode::Shuffle => LoopMode::Off,
    }
}

impl LoopMode {
    /// Cycle to the next loop mode, wrapping from the last back to `Off`.
    pub fn next(&self) -> (r: LoopMode)
        ensures
            r == spec_next_loop_mode(*self),
    {
        match self {
            LoopMode::Off => LoopMode::RepeatOne,
            LoopMode::RepeatOne => LoopMode::LoopAll,
            LoopMode::LoopAll => LoopMode::Shuffle,
            LoopMode::Shuffle => LoopMode::Off,
        }
    }

    /// Label shown for the mode in the interface.
    pub fn label(&self) -> (r: &'static str)
        ensures
            r@ == match *self {
                LoopMode::Off => "➡️ Off"@,
                LoopMode::RepeatOne => "🔂 One"@,
                LoopMode::LoopAll => "🔁 All"@,
                LoopMode::Shuffle => "🔀 Shuffle"@,
            },
    {
        match self {
            LoopMode::Off => "➡️ Off",
            LoopMode::RepeatOne => "🔂 One",
            LoopMode::LoopAll => "🔁 All",
            LoopMode::Shuffle => "🔀 Shuffle",
        }
    }
}

/// Stepping through the loop modes moves on at every step and comes back to
/// the starting mode after all four.
pub proof fn lemma_loop_modes_cycle(mode: LoopMode)
    ensures
        spec_next_loop_mode(mode) != mode,
        spec_next_loop_mode(spec_next_loop_mode(mode)) != mode,
        spec_next_loop_mode(spec_next_loop_mode(spec_next_loop_mode(mode))) != mode,
        spec_next_loop_mode(spec_next_loop_mode(spec_next_loop_mode(spec_next_loop_mode(mode)))) == mode,
{
}

/// A single item in the playback queue.  `M` is the metadata read from the
/// track once it has been loaded.
#[derive(Debug, Clone)]
pub struct QueueItem<M> {
    pub id: usize,
    pub path: String,
    pub metadata: Option<M>,
}

/// The playback queue state.
#[derive(Debug, Clone)]
pub struct PlaybackQueue<M> {
    pub items: Vec<QueueItem<M>>,
    pub current_index: Option<usize>,
    pub loop_mode: LoopMode,
    pub shuffle_order: Vec<usize>,
    /// Identifier handed to the next added item.
    pub next_id: usize,
}

/// `order` lists every position `0..n` exactly once.
pub open spec fn is_index_permutation(order: Seq<usize>, n: nat) -> bool {
    &&& order.len() == n
    &&& order.no_duplicates()
    &&& forall|i: int| 0 <= i < order.len() ==> order[i] < n
    &&& forall|k: usize| k < n ==> order.contains(k)
}

/// `i` is the first position of `x` in `s`.
pub open spec fn is_first_occurrence(s: Seq<usize>, x: usize, i: int) -> bool {
    &&& 0 <= i < s.len()
    &&& s[i] == x
    &&& forall|j: int| 0 <= j < i ==> s[j] != x
}

/// `p` is the first position of an item with identifier `id`.
pub open spec fn is_first_with_id<M>(items: Seq<QueueItem<M>>, id: usize, p: int) -> bool {
    &&& 0 <= p < items.len()
    &&& items[p].id == id
    &&& forall|j: int| 0 <= j < p ==> items[j].id != id
}

/// An item with identifier `id` at position `k` means a first such item
/// stands at or before `k`.
proof fn lemma_first_with_id_exists<M>(items: Seq<QueueItem<M>>, id: usize, k: int)
    requires
        0 <= k < items.len(),
        items[k].id == id,
    ensures
        exists|p: int| p <= k && is_first_with_id(items, id, p),
    decreases k,
{
    if exists|j: int| 0 <= j < k && items[j].id == id {
        let j = choose|j: int| 0 <= j < k && items[j].id == id;
        lemma_first_with_id_exists(items, id, j);
    } else {
        assert(is_first_with_id(items, id, k));
    }
}

/// The items appended for `paths`, numbered from `first_id`.
pub open spec fn fresh_items<M>(paths: Seq<String>, first_id: int) -> Seq<QueueItem<M>> {
    Seq::new(paths.len(), |i: int| QueueItem { id: (first_id + i) as usize, path: paths[i], metadata: None })
}

/// The index of the track that plays after `current`, for a queue of `len`
/// items in `mode` with shuffle order `order`.
pub open spec fn spec_step_forward(len: nat, order: Seq<usize>, mode: LoopMode, current: Option<usize>) -> Option<usize> {
    match current {
        None => None,
        Some(c) => if len == 0 {
            None
        } else {
            match mode {
                LoopMode::Off => if c + 1 < len { Some((c + 1) as usize) } else { None },
                LoopMode::RepeatOne => Some(c),
                LoopMode::LoopAll => Some(((c + 1) % (len as int)) as usize),
                LoopMode::Shuffle => if exists|p: int| is_first_occurrence(order, c, p) {
                    let p = choose|p: int| is_first_occurrence(order, c, p);
                    Some(order[(p + 1) % (order.len() as int)])
                } else if order.len() > 0 {
                    Some(order[0])
                } else {
                    None
                },
            }
        },
    }
}

/// The index of the track that plays before `current`.
pub open spec fn spec_step_back(len: nat, order: Seq<usize>, mode: LoopMode, current: Option<usize>) -> Option<usize> {
    match current {
        None => None,
        Some(c) => if len == 0 {
            None
        } else {
            match mode {
                LoopMode::Off => if c > 0 { Some((c - 1) as usize) } else { None },
                LoopMode::RepeatOne => Some(c),
                LoopMode::LoopAll => if c > 0 { Some((c - 1) as usize) } else { Some((len - 1) as usize) },
                LoopMode::Shuffle => if exists|p: int| is_first_occurrence(order, c, p) {
                    let p = choose|p: int| is_first_occurrence(order, c, p);
                    if p > 0 { Some(order[p - 1]) } else { Some(order[order.len() - 1]) }
                } else if order.len() > 0 {
                    Some(order[order.len() - 1])
                } else {
                    None
                },
            }
        },
    }
}

/// Where the current index moves when the item at `pos` is removed from a
/// queue that keeps `new_len` items afterwards.
pub open spec fn spec_current_after_removal(current: Option<usize>, pos: int, new_len: int) -> Option<usize> {
    match current {
        None => None,
        Some(idx) => if pos < idx {
            Some((idx - 1) as usize)
        } else if pos == idx {
            if new_len == 0 {
                None
            } else if idx >= new_len {
                Some((new_len - 1) as usize)
            } else {
                Some(idx)
            }
        } else {
            Some(idx)
        },
    }
}

/// Shuffles `order` in place with `rand`'s `SliceRandom::shuffle` driven by
/// the thread-local generator `rand::rng()`.  The contents are permuted, none
/// added or dropped; which permutation comes out is left to chance and is not
/// stated.
#[verifier::external_body]
fn shuffle_in_place(order: &mut Vec<usize>)
    ensures
        final(order)@.to_multiset() == old(order)@.to_multiset(),
{
    order.shuffle(&mut rand::rng());
}

/// A permutation of a sequence of distinct positions `0..n` lists each of them once.
proof fn lemma_shuffled_range_is_permutation(order: Seq<usize>, n: nat)
    requires
        order.to_multiset() == Seq::new(n, |k: int| k as usize).to_multiset(),
        n <= usize::MAX + 1,
    ensures
        is_index_permutation(order, n),
{
    let range = Seq::new(n, |k: int| k as usize);
    assert(range.no_duplicates());
    range.lemma_multiset_has_no_duplicates();
    order.lemma_multiset_has_no_duplicates_conv();
    assert(order.len() == range.len()) by {
        vstd::seq_lib::to_multiset_len(order);
        vstd::seq_lib::to_multiset_len(range);
    }
    assert forall|i: int| 0 <= i < order.len() implies order[i] < n by {
        assert(order.contains(order[i]));
        vstd::seq_lib::to_multiset_contains(order, order[i]);
        vstd::seq_lib::to_multiset_contains(range, order[i]);
    }
    assert forall|k: usize| k < n implies order.contains(k) by {
        assert(range[k as int] == k);
        assert(range.contains(k));
        vstd::seq_lib::to_multiset_contains(order, k);
        vstd::seq_lib::to_multiset_contains(range, k);
    }
}


/// Stepping forward and then back returns to the track one started from:
/// for a position inside a queue of `len` items (and, in shuffle mode, a
/// shuffle order that lists every position once), the previous index of the
/// next index is the current index.
pub proof fn lemma_step_back_undoes_step_forward(len: nat, order: Seq<usize>, mode: LoopMode, current: usize)
    requires
        current < len,
        len <= usize::MAX,
        mode == LoopMode::Shuffle ==> is_index_permutation(order, len),
    ensures
        spec_step_forward(len, order, mode, Some(current)) matches Some(n) ==> spec_step_back(
            len,
            order,
            mode,
            Some(n),
        ) == Some(current),
{
    if mode == LoopMode::LoopAll {
        let n = (current + 1) % (len as int);
        if current + 1 < len {
            assert(n == current + 1) by {
                vstd::arithmetic::div_mod::lemma_small_mod((current + 1) as nat, len);
            }
        } else {
            assert(n == 0) by {
                vstd::arithmetic::div_mod::lemma_mod_self_0(len as int);
            }
        }
    }
    if mode == LoopMode::Shuffle {
        let m = order.len() as int;
        assert(order.contains(current));
        let i = choose|i: int| 0 <= i < order.len() && order[i] == current;
        assert(exists|p: int| is_first_occurrence(order, current, p)) by {
            assert(is_first_occurrence(order, current, i)) by {
                assert forall|j: int| 0 <= j < i implies order[j] != current by {
                    if order[j] == current {
                        assert(order[j] == order[i]);
                    }
                }
            }
        }
        let p = choose|p: int| is_first_occurrence(order, current, p);
        let q = (p + 1) % m;
        let n = order[q];
        assert(0 <= q < m);
        assert(is_first_occurrence(order, n, q)) by {
            assert forall|j: int| 0 <= j < q implies order[j] != n by {
                if order[j] == n {
                    assert(order[j] == order[q]);
                }
            }
        }
        let q2 = choose|q2: int| is_first_occurrence(order, n, q2);
        assert(q2 == q) by {
            if q2 != q {
                assert(order[q2] == order[q]);
            }
        }
        if p + 1 < m {
            assert(q == p + 1) by {
                vstd::arithmetic::div_mod::lemma_small_mod((p + 1) as nat, m as nat);
            }
        } else {
            assert(q == 0) by {
                vstd::arithmetic::div_mod::lemma_mod_self_0(m);
            }
        }
    }
}

/// Stepping back and then forward returns to the track one started from.
pub proof fn lemma_step_forward_undoes_step_back(len: nat, order: Seq<usize>, mode: LoopMode, current: usize)
    requires
        current < len,
        len <= usize::MAX,
        mode == LoopMode::Shuffle ==> is_index_permutation(order, len),
    ensures
        spec_step_back(len, order, mode, Some(current)) matches Some(n) ==> spec_step_forward(
            len,
            order,
            mode,
            Some(n),
        ) == Some(current),
{
    if mode == LoopMode::LoopAll {
        if current > 0 {
            vstd::arithmetic::div_mod::lemma_small_mod(current as nat, len);
        } else {
            vstd::arithmetic::div_mod::lemma_mod_self_0(len as int);
        }
    }
    if mode == LoopMode::Shuffle {
        let m = order.len() as int;
        assert(order.contains(current));
        let i = choose|i: int| 0 <= i < order.len() && order[i] == current;
        assert(exists|p: int| is_first_occurrence(order, current, p)) by {
            assert(is_first_occurrence(order, current, i)) by {
                assert forall|j: int| 0 <= j < i implies order[j] != current by {
                    if order[j] == current {
                        assert(order[j] == order[i]);
                    }
                }
            }
        }
        let p = choose|p: int| is_first_occurrence(order, current, p);
        let q = if p > 0 { p - 1 } else { m - 1 };
        let n = order[q];
        assert(is_first_occurrence(order, n, q)) by {
            assert forall|j: int| 0 <= j < q implies order[j] != n by {
                if order[j] == n {
                    assert(order[j] == order[q]);
                }
            }
        }
        let q2 = choose|q2: int| is_first_occurrence(order, n, q2);
        assert(q2 == q) by {
            if q2 != q {
                assert(order[q2] == order[q]);
            }
        }
        if q + 1 < m {
            vstd::arithmetic::div_mod::lemma_small_mod((q + 1) as nat, m as nat);
        } else {
            vstd::arithmetic::div_mod::lemma_mod_self_0(m);
        }
    }
}

/// From a position inside the queue, the next and the previous index (when
/// there is one) are positions inside the queue too.
pub proof fn lemma_steps_stay_in_queue(len: nat, order: Seq<usize>, mode: LoopMode, current: usize)
    requires
        current < len,
        len <= usize::MAX,
        mode == LoopMode::Shuffle ==> is_index_permutation(order, len),
    ensures
        spec_step_forward(len, order, mode, Some(current)) matches Some(n) ==> n < len,
        spec_step_back(len, order, mode, Some(current)) matches Some(n) ==> n < len,
{
    if mode == LoopMode::LoopAll {
        vstd::arithmetic::div_mod::lemma_mod_bound((current + 1) as int, len as int);
    }
    if mode == LoopMode::Shuffle {
        let m = order.len() as int;
        if exists|p: int| is_first_occurrence(order, current, p) {
            let p = choose|p: int| is_first_occurrence(order, current, p);
            vstd::arithmetic::div_mod::lemma_mod_bound(p + 1, m);
        }
    }
}

/// Removing an item other than the current one keeps the current index on the
/// same track.
pub proof fn lemma_removal_keeps_current_track<M>(items: Seq<QueueItem<M>>, current: usize, pos: int)
    requires
        0 <= pos < items.len(),
        current < items.len(),
        pos != current,
    ensures
        spec_current_after_removal(Some(current), pos, items.len() - 1) matches Some(c) && items.remove(pos)[c as int] == items[current as int],
{
}

/// Removing the playing track moves playback on, never off: when the track
/// at the current index `c` of `items` is removed, the track after it becomes
/// current at the same index; removing the last of several tracks makes the
/// new last one current; only removing the sole track leaves none current.
pub proof fn lemma_removing_current_track<M>(items: Seq<QueueItem<M>>, c: usize)
    requires
        c < items.len(),
    ensures
        c + 1 < items.len() ==> spec_current_after_removal(Some(c), c as int, items.len() - 1) == Some(c) && items.remove(
            c as int,
        )[c as int] == items[c + 1],
        c + 1 == items.len() && items.len() > 1 ==> spec_current_after_removal(Some(c), c as int, items.len() - 1) == Some(
            (c - 1) as usize,
        ) && items.remove(c as int)[c - 1] == items[c - 1],
        items.len() == 1 ==> spec_current_after_removal(Some(c), c as int, items.len() - 1) is None,
{
}

/// Every identifier handed out by `add` locates the item it was given to: in
/// a queue whose identifiers lie below the next identifier `first_id`, the
/// item added for `paths[i]` is the first one with identifier `first_id + i`.
pub proof fn lemma_added_id_locates_its_item<M>(items: Seq<QueueItem<M>>, paths: Seq<String>, first_id: int, i: int)
    requires
        forall|k: int| 0 <= k < items.len() ==> items[k].id < first_id,
        0 <= first_id,
        first_id + paths.len() <= usize::MAX,
        0 <= i < paths.len(),
    ensures
        is_first_with_id(items + fresh_items::<M>(paths, first_id), (first_id + i) as usize, items.len() + i),
{
    let all = items + fresh_items::<M>(paths, first_id);
    assert forall|j: int| 0 <= j < items.len() + i implies all[j].id != (first_id + i) as usize by {
        if j < items.len() {
            assert(all[j] == items[j]);
        }
    }
}

/// Clearing does not restart the numbering: `clear` keeps the count of
/// identifiers handed out, so the items a later `add` appends to the emptied
/// queue `cleared` are numbered from where `before` stood, and none of them
/// takes an identifier that an item of `before` had (as long as the
/// identifiers fit in a `usize`, which `add` requires).
pub proof fn lemma_clear_then_add_continues_ids<M>(before: PlaybackQueue<M>, cleared: PlaybackQueue<M>, paths: Seq<String>, i: int)
    requires
        before.ids_ordered(),
        cleared.items@.len() == 0,
        cleared.issued_ids() == before.issued_ids(),
        before.issued_ids() + paths.len() <= usize::MAX,
        0 <= i < paths.len(),
    ensures
        (cleared.items@ + fresh_items::<M>(paths, cleared.issued_ids() as int))[i].id == before.issued_ids() + i,
        forall|j: int|
            0 <= j < before.items@.len() ==> before.items@[j].id != (cleared.items@ + fresh_items::<M>(
                paths,
                cleared.issued_ids() as int,
            ))[i].id,
{
    assert(cleared.items@ + fresh_items::<M>(paths, cleared.issued_ids() as int) =~= fresh_items::<M>(
        paths,
        cleared.issued_ids() as int,
    ));
}

/// On the queue itself, `prev_index` undoes `next_index` and `next_index`
/// undoes `prev_index`: for a queue whose current track is one of its items
/// (and, in shuffle mode, whose shuffle order lists every position once),
/// moving to the index `next_index` gives and asking `prev_index` there
/// gives the current index back, and the same the other way round.
pub proof fn lemma_queue_steps_undo<M>(q: PlaybackQueue<M>, c: usize)
    requires
        q.current_index == Some(c),
        c < q.items@.len(),
        q.loop_mode == LoopMode::Shuffle ==> is_index_permutation(q.shuffle_order@, q.items@.len()),
    ensures
        spec_step_forward(q.items@.len(), q.shuffle_order@, q.loop_mode, q.current_index) matches Some(j) ==> {
            let moved = PlaybackQueue { current_index: Some(j), ..q };
            spec_step_back(moved.items@.len(), moved.shuffle_order@, moved.loop_mode, moved.current_index) == Some(c)
        },
        spec_step_back(q.items@.len(), q.shuffle_order@, q.loop_mode, q.current_index) matches Some(j) ==> {
            let moved = PlaybackQueue { current_index: Some(j), ..q };
            spec_step_forward(moved.items@.len(), moved.shuffle_order@, moved.loop_mode, moved.current_index) == Some(c)
        },
{
    assert(q.items@.len() == q.items.len());
    lemma_step_back_undoes_step_forward(q.items@.len(), q.shuffle_order@, q.loop_mode, c);
    lemma_step_forward_undoes_step_back(q.items@.len(), q.shuffle_order@, q.loop_mode, c);
}

impl<M> PlaybackQueue<M> {
    /// How many identifiers this queue has handed out so far.
    pub open spec fn issued_ids(&self) -> nat {
        self.next_id as nat
    }

    /// Identifiers increase along the queue and were all handed out before.
    pub open spec fn ids_ordered(&self) -> bool {
        &&& forall|i: int, j: int| 0 <= i < j < self.items@.len() ==> self.items@[i].id < self.items@[j].id
        &&& forall|i: int| 0 <= i < self.items@.len() ==> self.items@[i].id < self.issued_ids()
    }

    /// An empty queue with looping off.
    pub fn new() -> (q: Self)
        ensures
            q.items@.len() == 0,
            q.current_index is None,
            q.loop_mode == LoopMode::Off,
            q.shuffle_order@.len() == 0,
            q.issued_ids() == 0,
            q.ids_ordered(),
    {
        PlaybackQueue {
            items: Vec::new(),
            current_index: None,
            loop_mode: LoopMode::Off,
            shuffle_order: Vec::new(),
            next_id: 0,
        }
    }

    /// Draw a new shuffle order: a random permutation of the queue positions.
    pub fn reshuffle(&mut self)
        ensures
            final(self).items@ == old(self).items@,
            final(self).current_index == old(self).current_index,
            final(self).loop_mode == old(self).loop_mode,
            final(self).issued_ids() == old(self).issued_ids(),
            is_index_permutation(final(self).shuffle_order@, final(self).items@.len()),
    {
        let n = self.items.len();
        let mut order: Vec<usize> = Vec::with_capacity(n);
        let mut i: usize = 0;
        while i < n
            invariant
                i <= n,
                order@ == Seq::new(i as nat, |k: int| k as usize),
            decreases n - i,
        {
            order.push(i);
            i = i + 1;
        }
        shuffle_in_place(&mut order);
        proof {
            lemma_shuffled_range_is_permutation(order@, n as nat);
        }
        self.shuffle_order = order;
    }

    /// Add paths to the end of the queue; returns the identifiers given to them.
    pub fn add(&mut self, paths: Vec<String>) -> (ids: Vec<usize>)
        requires
            old(self).issued_ids() + paths@.len() <= usize::MAX,
        ensures
            final(self).items@ == old(self).items@ + fresh_items::<M>(paths@, old(self).issued_ids() as int),
            ids@ == Seq::new(paths@.len(), |i: int| (old(self).issued_ids() + i) as usize),
            final(self).issued_ids() == old(self).issued_ids() + paths@.len(),
            final(self).current_index == old(self).current_index,
            final(self).loop_mode == old(self).loop_mode,
            old(self).loop_mode == LoopMode::Shuffle ==> is_index_permutation(
                final(self).shuffle_order@,
                final(self).items@.len(),
            ),
            old(self).loop_mode != LoopMode::Shuffle ==> final(self).shuffle_order@ == old(self).shuffle_order@,
            old(self).ids_ordered() ==> final(self).ids_ordered(),
    {
        let ghost old_items = self.items@;
        let ghost first = self.next_id as int;
        let ghost was_ordered = self.ids_ordered();
        let n = paths.len();
        let mut ids: Vec<usize> = Vec::with_capacity(n);
        for path in it: paths
            invariant
                it.seq() == paths@,
                n == paths@.len(),
                first + n <= usize::MAX,
                self.next_id == first + it.index(),
                self.items@ == old_items + fresh_items::<M>(it.seq().take(it.index() as int), first),
                ids@ == Seq::new(it.index() as nat, |i: int| (first + i) as usize),
                self.current_index == old(self).current_index,
                self.loop_mode == old(self).loop_mode,
                self.shuffle_order@ == old(self).shuffle_order@,
                was_ordered ==> self.ids_ordered(),
                old_items == old(self).items@,
                first == old(self).issued_ids(),
                was_ordered == old(self).ids_ordered(),
        {
            let id = self.next_id;
            self.next_id = self.next_id + 1;
            let ghost before = self.items@;
            self.items.push(QueueItem { id, path, metadata: None });
            ids.push(id);
            proof {
                assert(fresh_items::<M>(it.seq().take(it.index() as int + 1), first)
                    =~= fresh_items::<M>(it.seq().take(it.index() as int), first).push(
                        QueueItem { id, path, metadata: None },
                    ));
                assert(self.items@ =~= old_items + fresh_items::<M>(it.seq().take(it.index() as int + 1), first));
                if was_ordered {
                    assert forall|i: int| 0 <= i < self.items@.len() implies self.items@[i].id < self.next_id by {
                        if i < before.len() {
                            assert(self.items@[i] == before[i]);
                        }
                    }
                    assert forall|i: int, j: int| 0 <= i < j < self.items@.len() implies self.items@[i].id < self.items@[j].id by {
                        if j < before.len() {
                            assert(self.items@[i] == before[i]);
                            assert(self.items@[j] == before[j]);
                        } else {
                            assert(self.items@[i] == before[i]);
                        }
                    }
                }
            }
        }
        proof {
            assert(paths@.take(n as int) =~= paths@);
        }
        if self.loop_mode == LoopMode::Shuffle {
            self.reshuffle();
        }
        ids
    }

    /// The first position holding an item with identifier `id`, if any.
    fn position_of(&self, id: usize) -> (r: Option<usize>)
        ensures
            match r {
                Some(p) => is_first_with_id(self.items@, id, p as int),
                None => forall|i: int| 0 <= i < self.items@.len() ==> self.items@[i].id != id,
            },
    {
        let mut i: usize = 0;
        while i < self.items.len()
            invariant
                i <= self.items@.len(),
                forall|j: int| 0 <= j < i ==> self.items@[j].id != id,
            decreases self.items@.len() - i,
        {
            if self.items[i].id == id {
                return Some(i);
            }
            i = i + 1;
        }
        None
    }

    /// Remove the item with identifier `id`; returns whether one was found.
    pub fn remove(&mut self, id: usize) -> (found: bool)
        ensures
            found <==> exists|p: int| is_first_with_id(old(self).items@, id, p),
            !found ==> *final(self) == *old(self),
            forall|p: int| is_first_with_id(old(self).items@, id, p) ==> {
                &&& final(self).items@ == old(self).items@.remove(p)
                &&& final(self).current_index == spec_current_after_removal(
                    old(self).current_index,
                    p,
                    old(self).items@.len() - 1,
                )
            },
            final(self).loop_mode == old(self).loop_mode,
            final(self).issued_ids() == old(self).issued_ids(),
            found && old(self).loop_mode == LoopMode::Shuffle ==> is_index_permutation(
                final(self).shuffle_order@,
                final(self).items@.len(),
            ),
            old(self).loop_mode != LoopMode::Shuffle ==> final(self).shuffle_order@ == old(self).shuffle_order@,
            old(self).ids_ordered() ==> final(self).ids_ordered(),
    {
        match self.position_of(id) {
            None => false,
            Some(pos) => {
                let ghost old_items = self.items@;
                let ghost was_ordered = self.ids_ordered();
                self.items.remove(pos);
                if let Some(idx) = self.current_index {
                    if pos < idx {
                        self.current_index = Some(idx - 1);
                    } else if pos == idx {
                        if self.items.len() == 0 {
                            self.current_index = None;
                        } else if idx >= self.items.len() {
                            self.current_index = Some(self.items.len() - 1);
                        }
                    }
                }
                proof {
                    assert forall|p: int| is_first_with_id(old_items, id, p) implies p == pos by {
                        if p < pos {
                        } else if p > pos {
                            assert(old_items[pos as int].id == id);
                        }
                    }
                    if was_ordered {
                        assert forall|i: int, j: int| 0 <= i < j < self.items@.len()
                            implies self.items@[i].id < self.items@[j].id by {
                            if i < pos {
                                if j < pos {
                                } else {
                                    assert(self.items@[j] == old_items[j + 1]);
                                }
                            } else {
                                assert(self.items@[i] == old_items[i + 1]);
                                assert(self.items@[j] == old_items[j + 1]);
                            }
                        }
                        assert forall|i: int| 0 <= i < self.items@.len() implies self.items@[i].id < self.issued_ids() by {
                            if i >= pos {
                                assert(self.items@[i] == old_items[i + 1]);
                            }
                        }
                    }
                }
                if self.loop_mode == LoopMode::Shuffle {
                    self.reshuffle();
                }
                true
            }
        }
    }

    /// Remove every item and forget the current position and shuffle order.
    pub fn clear(&mut self)
        ensures
            final(self).items@.len() == 0,
            final(self).current_index is None,
            final(self).shuffle_order@.len() == 0,
            final(self).loop_mode == old(self).loop_mode,
            final(self).issued_ids() == old(self).issued_ids(),
            final(self).ids_ordered(),
    {
        self.items.clear();
        self.current_index = None;
        self.shuffle_order.clear();
    }

    /// The first position of `current` in the shuffle order, if any.
    fn shuffle_position(&self, current: usize) -> (r: Option<usize>)
        ensures
            match r {
                Some(p) => is_first_occurrence(self.shuffle_order@, current, p as int),
                None => !(exists|p: int| is_first_occurrence(self.shuffle_order@, current, p)),
            },
    {
        let mut i: usize = 0;
        while i < self.shuffle_order.len()
            invariant
                i <= self.shuffle_order@.len(),
                forall|j: int| 0 <= j < i ==> self.shuffle_order@[j] != current,
            decreases self.shuffle_order@.len() - i,
        {
            if self.shuffle_order[i] == current {
                return Some(i);
            }
            i = i + 1;
        }
        None
    }

    /// Index of the track to play after the current one, following the loop mode.
    pub fn next_index(&self) -> (r: Option<usize>)
        ensures
            r == spec_step_forward(self.items@.len(), self.shuffle_order@, self.loop_mode, self.current_index),
    {
        let current = match self.current_index {
            Some(c) => c,
            None => return None,
        };
        let len = self.items.len();
        if len == 0 {
            return None;
        }
        match self.loop_mode {
            LoopMode::Off => {
                if current < len - 1 {
                    Some(current + 1)
                } else {
                    None
                }
            }
            LoopMode::RepeatOne => Some(current),
            LoopMode::LoopAll => {
                proof {
                    vstd::arithmetic::div_mod::lemma_add_mod_noop_right(1, current as int, len as int);
                }
                Some((current % len + 1) % len)
            }
            LoopMode::Shuffle => {
                match self.shuffle_position(current) {
                    Some(p) => {
                        proof {
                            let q = choose|q: int| is_first_occurrence(self.shuffle_order@, current, q);
                            assert(q == p as int) by {
                                if q < p as int {
                                } else if q > p as int {
                                }
                            }
                        }
                        assert(p < self.shuffle_order.len());
                        Some(self.shuffle_order[(p + 1) % self.shuffle_order.len()])
                    }
                    None => {
                        if self.shuffle_order.len() > 0 {
                            Some(self.shuffle_order[0])
                        } else {
                            None
                        }
                    }
                }
            }
        }
    }

    /// Index of the track to play before the current one, following the loop mode.
    pub fn prev_index(&self) -> (r: Option<usize>)
        ensures
            r == spec_step_back(self.items@.len(), self.shuffle_order@, self.loop_mode, self.current_index),
    {
        let current = match self.current_index {
            Some(c) => c,
            None => return None,
        };
        let len = self.items.len();
        if len == 0 {
            return None;
        }
        match self.loop_mode {
            LoopMode::Off => {
                if current > 0 {
                    Some(current - 1)
                } else {
                    None
                }
            }
            LoopMode::RepeatOne => Some(current),
            LoopMode::LoopAll => {
                if current > 0 {
                    Some(current - 1)
                } else {
                    Some(len - 1)
                }
            }
            LoopMode::Shuffle => {
                match self.shuffle_position(current) {
                    Some(p) => {
                        proof {
                            let q = choose|q: int| is_first_occurrence(self.shuffle_order@, current, q);
                            assert(q == p as int) by {
                                if q < p as int {
                                } else if q > p as int {
                                }
                            }
                        }
                        if p > 0 {
                            Some(self.shuffle_order[p - 1])
                        } else {
                            Some(self.shuffle_order[self.shuffle_order.len() - 1])
                        }
                    }
                    None => {
                        if self.shuffle_order.len() > 0 {
                            Some(self.shuffle_order[self.shuffle_order.len() - 1])
                        } else {
                            None
                        }
                    }
                }
            }
        }
    }

    /// The current track, if the current index points into the queue.
    pub fn current(&self) -> (r: Option<&QueueItem<M>>)
        ensures
            match self.current_index {
                Some(i) => if i < self.items@.len() { r == Some(&self.items@[i as int]) } else { r is None },
                None => r is None,
            },
    {
        match self.current_index {
            Some(i) => self.get(i),
            None => None,
        }
    }

    /// The item at `index`, if there is one.
    pub fn get(&self, index: usize) -> (r: Option<&QueueItem<M>>)
        ensures
            if index < self.items@.len() { r == Some(&self.items@[index as int]) } else { r is None },
    {
        if index < self.items.len() {
            Some(&self.items[index])
        } else {
            None
        }
    }

    /// Attach metadata to the first item with identifier `id`, if there is one.
    pub fn set_metadata(&mut self, id: usize, metadata: M)
        ensures
            forall|p: int| is_first_with_id(old(self).items@, id, p) ==> final(self).items@ == old(self).items@.update(
                p,
                QueueItem { id: old(self).items@[p].id, path: old(self).items@[p].path, metadata: Some(metadata) },
            ),
            (forall|i: int| 0 <= i < old(self).items@.len() ==> old(self).items@[i].id != id) ==> final(self).items@ == old(self).items@,
            final(self).current_index == old(self).current_index,
            final(self).loop_mode == old(self).loop_mode,
            final(self).shuffle_order@ == old(self).shuffle_order@,
            final(self).issued_ids() == old(self).issued_ids(),
            old(self).ids_ordered() ==> final(self).ids_ordered(),
    {
        if let Some(pos) = self.position_of(id) {
            let ghost old_items = self.items@;
            let mut item = self.items.remove(pos);
            item.metadata = Some(metadata);
            self.items.insert(pos, item);
            proof {
                assert forall|p: int| is_first_with_id(old_items, id, p) implies p == pos by {
                    if p < pos {
                    } else if p > pos {
                        assert(old_items[pos as int].id == id);
                    }
                }
                assert(self.items@ =~= old_items.update(
                    pos as int,
                    QueueItem { id: old_items[pos as int].id, path: old_items[pos as int].path, metadata: Some(metadata) },
                ));
            }
        }
    }

    /// Record that the track at `index` was loaded with `metadata`: the first
    /// item with the identifier of the item there gets the metadata (in a
    /// queue whose identifiers increase, that item itself), and the index
    /// becomes the current track.  The index is recorded as current even when
    /// no item stands there any more.
    pub fn mark_loaded(&mut self, index: usize, metadata: M)
        ensures
            index < old(self).items@.len() ==> exists|p: int|
                {
                    &&& p <= index
                    &&& is_first_with_id(old(self).items@, old(self).items@[index as int].id, p)
                    &&& final(self).items@ == old(self).items@.update(
                        p,
                        QueueItem {
                            id: old(self).items@[p].id,
                            path: old(self).items@[p].path,
                            metadata: Some(metadata),
                        },
                    )
                },
            old(self).ids_ordered() && index < old(self).items@.len() ==> final(self).items@ == old(self).items@.update(
                index as int,
                QueueItem {
                    id: old(self).items@[index as int].id,
                    path: old(self).items@[index as int].path,
                    metadata: Some(metadata),
                },
            ),
            index >= old(self).items@.len() ==> final(self).items@ == old(self).items@,
            final(self).current_index == Some(index),
            final(self).loop_mode == old(self).loop_mode,
            final(self).shuffle_order@ == old(self).shuffle_order@,
            final(self).issued_ids() == old(self).issued_ids(),
            old(self).ids_ordered() ==> final(self).ids_ordered(),
    {
        if index < self.items.len() {
            let id = self.items[index].id;
            proof {
                lemma_first_with_id_exists(self.items@, id, index as int);
                if self.ids_ordered() {
                    assert(is_first_with_id(self.items@, id, index as int));
                }
            }
            self.set_metadata(id, metadata);
        }
        self.current_index = Some(index);
    }

    /// Switch loop mode; entering shuffle draws a fresh shuffle order.
    pub fn set_loop_mode(&mut self, mode: LoopMode)
        ensures
            final(self).loop_mode == mode,
            final(self).items@ == old(self).items@,
            final(self).current_index == old(self).current_index,
            final(self).issued_ids() == old(self).issued_ids(),
            mode == LoopMode::Shuffle ==> is_index_permutation(final(self).shuffle_order@, final(self).items@.len()),
            mode != LoopMode::Shuffle ==> final(self).shuffle_order@ == old(self).shuffle_order@,
    {
        self.loop_mode = mode;
        if mode == LoopMode::Shuffle {
            self.reshuffle();
        }
    }
}

} // verus!
