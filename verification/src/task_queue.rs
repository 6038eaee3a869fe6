//! Slot bookkeeping of the actor task queue.
//!
//! Tasks live in blocks of 64 slots. Slot `i` of a block is represented by
//! bit `63 - i` of two words: `pending` (a task that has not finished lives
//! in the slot) and `woken` (the task's waker fired since the last poll).
//! A new task takes the first free slot, scanning the blocks in order and
//! appending a block when all are full. Polling walks the woken slots from
//! the lowest index up, and afterwards drops the trailing blocks that hold
//! no task, always keeping the first block.
//!
//! The tasks themselves (futures) are polled by the caller; this module
//! decides where tasks go, which slots must be polled, and when the queue
//! is finished.

use vstd::prelude::*;
use vstd::std_specs::bits::u64_leading_zeros;

verus! {

/// Number of task slots in one block.
pub const SLOTS_PER_BLOCK: usize = 64;

/// Whether slot `slot` is set in `mask` (slot `i` is bit `63 - i`).
pub open spec fn bit_at(mask: u64, slot: u64) -> bool {
    (mask >> ((63 - slot) as u64)) & 1u64 == 1u64
}

/// The slots set in a mask.
pub open spec fn slot_set(mask: u64) -> Set<int> {
    Set::new(|s: int| 0 <= s < 64 && bit_at(mask, s as u64))
}

/// The mask word of a single slot.
pub open spec fn slot_mask(slot: int) -> u64 {
    1u64 << ((63 - slot) as u64)
}

proof fn lemma_bit_update(m: u64, s: u64, t: u64)
    by (bit_vector)
    requires
        s < 64,
        t < 64,
    ensures
        bit_at(m | (1u64 << ((63 - s) as u64)), t) == (bit_at(m, t) || s == t),
        bit_at(m ^ (1u64 << ((63 - s) as u64)), t) == (bit_at(m, t) != (s == t)),
{
}

proof fn lemma_bit_zero(t: u64)
    by (bit_vector)
    requires
        t < 64,
    ensures
        !bit_at(0u64, t),
{
}

proof fn lemma_slot_set_zero()
    ensures
        slot_set(0u64) == Set::<int>::empty(),
{
    assert forall|t: int| !#[trigger] slot_set(0u64).contains(t) by {
        if 0 <= t < 64 {
            lemma_bit_zero(t as u64);
        }
    }
    assert(slot_set(0u64) =~= Set::<int>::empty());
}

proof fn lemma_slot_set_or(m: u64, s: u64)
    requires
        s < 64,
    ensures
        slot_set(m | slot_mask(s as int)) == slot_set(m).insert(s as int),
{
    assert forall|t: int|
        #[trigger] slot_set(m | slot_mask(s as int)).contains(t) == slot_set(m).insert(
            s as int,
        ).contains(t) by {
        if 0 <= t < 64 {
            lemma_bit_update(m, s, t as u64);
        }
    }
    assert(slot_set(m | slot_mask(s as int)) =~= slot_set(m).insert(s as int));
}

proof fn lemma_slot_set_toggle(m: u64, s: u64)
    requires
        s < 64,
    ensures
        !slot_set(m).contains(s as int) ==> slot_set(m ^ slot_mask(s as int)) == slot_set(
            m,
        ).insert(s as int),
        slot_set(m).contains(s as int) ==> slot_set(m ^ slot_mask(s as int)) == slot_set(
            m,
        ).remove(s as int),
{
    assert forall|t: int|
        #[trigger] slot_set(m ^ slot_mask(s as int)).contains(t) == (slot_set(m).contains(t)
            != (t == s)) by {
        if 0 <= t < 64 {
            lemma_bit_update(m, s, t as u64);
        }
    }
    if slot_set(m).contains(s as int) {
        assert(slot_set(m ^ slot_mask(s as int)) =~= slot_set(m).remove(s as int));
    } else {
        assert(slot_set(m ^ slot_mask(s as int)) =~= slot_set(m).insert(s as int));
    }
}

proof fn lemma_leading_ones(m: u64)
    ensures
        m.leading_ones() <= 64,
        m.leading_ones() < 64 ==> !slot_set(m).contains(m.leading_ones() as int),
        forall|t: int| 0 <= t < m.leading_ones() ==> #[trigger] slot_set(m).contains(t),
{
    vstd::std_specs::bits::axiom_u64_leading_ones(m);
    let k = m.leading_ones();
    assert forall|t: int| 0 <= t < m.leading_ones() implies #[trigger] slot_set(m).contains(t) by {
        let j: u64 = (63 - t) as u64;
        assert(64 - k <= j < 64);
        assert((m >> j) & 1u64 == 1u64);
    }
}

proof fn lemma_leading_zeros(m: u64)
    ensures
        u64_leading_zeros(m) <= 64,
        u64_leading_zeros(m) == 64 <==> m == 0,
        u64_leading_zeros(m) < 64 ==> slot_set(m).contains(u64_leading_zeros(m)),
        forall|t: int| 0 <= t < u64_leading_zeros(m) ==> !#[trigger] slot_set(m).contains(t),
{
    vstd::std_specs::bits::axiom_u64_leading_zeros(m);
    let k = u64_leading_zeros(m);
    if k < 64 {
        let v: u64 = m >> ((63 - k) as u64);
        assert(v & 1u64 != 0u64);
        assert(v & 1u64 != 0u64 ==> v & 1u64 == 1u64) by (bit_vector);
    }
    assert forall|t: int| 0 <= t < u64_leading_zeros(m) implies !#[trigger] slot_set(m).contains(
        t,
    ) by {
        let j: u64 = (63 - t) as u64;
        assert(64 - k <= j < 64);
        assert((m >> j) & 1u64 == 0u64);
    }
}

/// The abstract state of one block: which slots hold a live task and which
/// of them were woken since the block was last polled.
pub struct SlotsView {
    pub occupied: Set<int>,
    pub woken: Set<int>,
}

/// A block with no task and no wake-up.
pub open spec fn empty_block() -> SlotsView {
    SlotsView { occupied: Set::empty(), woken: Set::empty() }
}

/// Slot `(b1, s1)` comes before slot `(b2, s2)` in the order in which free
/// slots are handed out.
pub open spec fn slot_before(b1: int, s1: int, b2: int, s2: int) -> bool {
    b1 < b2 || (b1 == b2 && s1 < s2)
}

/// `(b, s)` is the first free slot of the queue `v`; `b == v.len()` (with
/// `s == 0`) when every block is full and a new block is needed.
pub open spec fn is_first_free(v: Seq<SlotsView>, b: int, s: int) -> bool {
    &&& 0 <= s < 64
    &&& 0 <= b <= v.len()
    &&& (b < v.len() ==> !v[b].occupied.contains(s))
    &&& (b == v.len() ==> s == 0)
    &&& forall|b2: int, s2: int|
        0 <= b2 < v.len() && 0 <= s2 < 64 && slot_before(b2, s2, b, s) ==> #[trigger] v[b2].occupied.contains(
            s2,
        )
}

/// The queue after a task was placed in slot `(b, s)` and polled once:
/// the slot stays taken only if the task did not finish.
pub open spec fn spec_after_push(v: Seq<SlotsView>, b: int, s: int, ready: bool) -> Seq<
    SlotsView,
> {
    let grown = if b == v.len() {
        v.push(empty_block())
    } else {
        v
    };
    if ready {
        grown
    } else {
        grown.update(
            b,
            SlotsView { occupied: grown[b].occupied.insert(s), woken: grown[b].woken },
        )
    }
}

/// The queue after the task in slot `(b, s)` finished.
pub open spec fn spec_after_complete(v: Seq<SlotsView>, b: int, s: int) -> Seq<SlotsView> {
    v.update(b, SlotsView { occupied: v[b].occupied.remove(s), woken: v[b].woken })
}

/// The queue after the waker of slot `(b, s)` fired; a waker of a block
/// that no longer exists changes nothing.
pub open spec fn spec_after_wake(v: Seq<SlotsView>, b: int, s: int) -> Seq<SlotsView> {
    if 0 <= b < v.len() && 0 <= s < 64 {
        v.update(b, SlotsView { occupied: v[b].occupied, woken: v[b].woken.insert(s) })
    } else {
        v
    }
}

/// No block holds a live task.
pub open spec fn all_idle(v: Seq<SlotsView>) -> bool {
    forall|b: int| 0 <= b < v.len() ==> #[trigger] v[b].occupied == Set::<int>::empty()
}

/// `kept` is `v` without its longest run of trailing blocks that hold no
/// task, the first block always being kept.
pub open spec fn is_trimmed(v: Seq<SlotsView>, kept: Seq<SlotsView>) -> bool {
    &&& 1 <= kept.len() <= v.len()
    &&& kept == v.take(kept.len() as int)
    &&& forall|b: int| kept.len() <= b < v.len() ==> #[trigger] v[b].occupied == Set::<int>::empty()
    &&& kept.len() > 1 ==> kept[kept.len() - 1].occupied != Set::<int>::empty()
}

/// `order` lists the slots of `set` exactly once each, lowest first.
pub open spec fn lists_in_order(order: Seq<usize>, set: Set<int>) -> bool {
    &&& forall|i: int, j: int| 0 <= i < j < order.len() ==> order[i] < order[j]
    &&& forall|i: int| 0 <= i < order.len() ==> set.contains(#[trigger] order[i] as int)
    &&& forall|s: int| set.contains(s) ==> exists|i: int| 0 <= i < order.len() && #[trigger] order[i] == s
}

/// The slots among `order` whose poll found the task finished.
pub open spec fn finished_slots(order: Seq<usize>, ready: Seq<bool>) -> Set<int> {
    Set::new(|s: int| exists|i: int| 0 <= i < order.len() && ready[i] && #[trigger] order[i] == s)
}

/// The queue after a poll round of block `b`: the round polled the slots
/// of `order`, and the tasks marked in `ready` finished and left.
pub open spec fn spec_after_round(
    v: Seq<SlotsView>,
    b: int,
    order: Seq<usize>,
    ready: Seq<bool>,
) -> Seq<SlotsView> {
    v.update(
        b,
        SlotsView {
            occupied: v[b].occupied.difference(finished_slots(order, ready)),
            woken: Set::empty(),
        },
    )
}

struct BlockSlots {
    pending: u64,
    woken: u64,
}

impl BlockSlots {
    spec fn view(&self) -> SlotsView {
        SlotsView { occupied: slot_set(self.pending), woken: slot_set(self.woken) }
    }
}

/// The slot state of all blocks of a task queue.
pub struct TaskQueue {
    blocks: Vec<BlockSlots>,
}

impl View for TaskQueue {
    type V = Seq<SlotsView>;

    closed spec fn view(&self) -> Seq<SlotsView> {
        Seq::new(self.blocks@.len(), |i: int| self.blocks@[i].view())
    }
}

impl TaskQueue {
    /// The queue holds at least its first block.
    pub closed spec fn wf(&self) -> bool {
        self.blocks@.len() >= 1
    }

    /// A well-formed queue has at least one block.
    pub proof fn lemma_wf(&self)
        requires
            self.wf(),
        ensures
            self@.len() >= 1,
    {
    }

    /// A queue with one empty block.
    pub fn new() -> (q: Self)
        ensures
            q.wf(),
            q@ == seq![empty_block()],
    {
        let mut blocks = Vec::new();
        blocks.push(BlockSlots { pending: 0, woken: 0 });
        let q = TaskQueue { blocks };
        proof {
            lemma_slot_set_zero();
            assert(q@ =~= seq![empty_block()]);
        }
        q
    }

    /// Number of blocks.
    pub fn block_count(&self) -> (n: usize)
        ensures
            n == self@.len(),
    {
        self.blocks.len()
    }

    /// Where a new task goes: the first free slot, or slot 0 of a new block
    /// (block index equal to the block count) when all blocks are full.
    pub fn reserve(&self) -> (loc: (usize, usize))
        requires
            self.wf(),
        ensures
            is_first_free(self@, loc.0 as int, loc.1 as int),
    {
        let n = self.blocks.len();
        let mut b: usize = 0;
        while b < n
            invariant
                0 <= b <= n,
                n == self.blocks@.len(),
                forall|b2: int, s2: int|
                    0 <= b2 < b && 0 <= s2 < 64 ==> #[trigger] self@[b2].occupied.contains(s2),
            decreases n - b,
        {
            let pending = self.blocks[b].pending;
            let k = pending.leading_ones();
            proof {
                lemma_leading_ones(pending);
            }
            if k < 64 {
                let s = k as usize;
                assert forall|b2: int, s2: int|
                    0 <= b2 < self@.len() && 0 <= s2 < 64 && slot_before(
                        b2,
                        s2,
                        b as int,
                        s as int,
                    ) implies #[trigger] self@[b2].occupied.contains(s2) by {
                    if b2 == b {
                        assert(slot_set(pending).contains(s2));
                    }
                }
                return (b, s);
            }
            assert forall|s2: int| 0 <= s2 < 64 implies #[trigger] self@[b as int].occupied.contains(
                s2,
            ) by {
                assert(slot_set(pending).contains(s2));
            }
            b = b + 1;
        }
        (n, 0)
    }

    /// Records the first poll of a task placed in the free slot `(b, s)`
    /// (appending the block when `b` is the block count): the slot is taken
    /// when the task did not finish. Returns whether it finished.
    pub fn record_push(&mut self, b: usize, s: usize, ready: bool) -> (r: bool)
        requires
            old(self).wf(),
            s < 64,
            b <= old(self)@.len(),
            b == old(self)@.len() ==> s == 0,
            b < old(self)@.len() ==> !old(self)@[b as int].occupied.contains(s as int),
        ensures
            final(self).wf(),
            r == ready,
            final(self)@ == spec_after_push(old(self)@, b as int, s as int, ready),
    {
        if b == self.blocks.len() {
            self.blocks.push(BlockSlots { pending: 0, woken: 0 });
            proof {
                lemma_slot_set_zero();
            }
        }
        let ghost grown = self@;
        assert(grown =~= if b == old(self)@.len() {
            old(self)@.push(empty_block())
        } else {
            old(self)@
        });
        if !ready {
            let mask: u64 = 1u64 << (63 - s as u64);
            let old_pending = self.blocks[b].pending;
            let woken = self.blocks[b].woken;
            self.blocks.set(b, BlockSlots { pending: old_pending ^ mask, woken });
            proof {
                lemma_slot_set_toggle(old_pending, s as u64);
                assert(self@ =~= spec_after_push(old(self)@, b as int, s as int, ready));
            }
        }
        ready
    }

    /// Whether slot `(b, s)` holds a live task.
    pub fn is_occupied(&self, b: usize, s: usize) -> (r: bool)
        requires
            b < self@.len(),
            s < 64,
        ensures
            r == self@[b as int].occupied.contains(s as int),
    {
        let pending = self.blocks[b].pending;
        let mask: u64 = 1u64 << (63 - s as u64);
        proof {
            assert((pending & (1u64 << ((63 - s) as u64)) != 0) == bit_at(pending, s as u64))
                by (bit_vector)
                requires
                    s < 64,
            ;
        }
        pending & mask != 0
    }

    /// Records that the task in slot `(b, s)` finished.
    pub fn complete(&mut self, b: usize, s: usize)
        requires
            old(self).wf(),
            b < old(self)@.len(),
            s < 64,
            old(self)@[b as int].occupied.contains(s as int),
        ensures
            final(self).wf(),
            final(self)@ == spec_after_complete(old(self)@, b as int, s as int),
    {
        let mask: u64 = 1u64 << (63 - s as u64);
        let old_pending = self.blocks[b].pending;
        let woken = self.blocks[b].woken;
        self.blocks.set(b, BlockSlots { pending: old_pending ^ mask, woken });
        proof {
            lemma_slot_set_toggle(old_pending, s as u64);
            assert(self@ =~= spec_after_complete(old(self)@, b as int, s as int));
        }
    }

    /// Records that the waker of slot `(b, s)` fired.
    pub fn wake(&mut self, b: usize, s: usize)
        requires
            old(self).wf(),
        ensures
            final(self).wf(),
            final(self)@ == spec_after_wake(old(self)@, b as int, s as int),
    {
        if b < self.blocks.len() && s < 64 {
            let mask: u64 = 1u64 << (63 - s as u64);
            let pending = self.blocks[b].pending;
            let old_woken = self.blocks[b].woken;
            self.blocks.set(b, BlockSlots { pending, woken: old_woken | mask });
            proof {
                lemma_slot_set_or(old_woken, s as u64);
                assert(self@ =~= spec_after_wake(old(self)@, b as int, s as int));
            }
        } else {
            assert(self@ =~= old(self)@);
        }
    }

    /// Takes the slots of block `b` that were woken since its last poll,
    /// clearing them.
    pub fn take_woken(&mut self, b: usize) -> (w: WokenSlots)
        requires
            old(self).wf(),
            b < old(self)@.len(),
        ensures
            final(self).wf(),
            w@ == old(self)@[b as int].woken,
            final(self)@ == old(self)@.update(
                b as int,
                SlotsView { occupied: old(self)@[b as int].occupied, woken: Set::empty() },
            ),
    {
        let pending = self.blocks[b].pending;
        let woken = self.blocks[b].woken;
        self.blocks.set(b, BlockSlots { pending, woken: 0 });
        proof {
            lemma_slot_set_zero();
            assert(self@ =~= old(self)@.update(
                b as int,
                SlotsView { occupied: old(self)@[b as int].occupied, woken: Set::empty() },
            ));
        }
        WokenSlots { mask: woken }
    }

    /// Starts the poll round of block `b`: the slots to poll are those
    /// woken since the block's last poll that still hold a task, lowest
    /// first; the block's wake-ups are cleared.
    pub fn poll_order(&mut self, b: usize) -> (order: Vec<usize>)
        requires
            old(self).wf(),
            b < old(self)@.len(),
        ensures
            final(self).wf(),
            lists_in_order(
                order@,
                old(self)@[b as int].woken.intersect(old(self)@[b as int].occupied),
            ),
            final(self)@ == old(self)@.update(
                b as int,
                SlotsView { occupied: old(self)@[b as int].occupied, woken: Set::empty() },
            ),
    {
        let ghost woken = self@[b as int].woken;
        let ghost occupied = self@[b as int].occupied;
        let mut slots = self.take_woken(b);
        let mut order: Vec<usize> = Vec::new();
        let mut lower: usize = 0;
        loop
            invariant
                self.wf(),
                b < self@.len(),
                self@[b as int].occupied == occupied,
                lower <= 64,
                slots@.subset_of(woken),
                forall|t: int| #[trigger] slots@.contains(t) ==> lower <= t,
                forall|i: int| 0 <= i < order@.len() ==> #[trigger] order@[i] < lower,
                forall|i: int, j: int| 0 <= i < j < order@.len() ==> order@[i] < order@[j],
                forall|i: int|
                    0 <= i < order@.len() ==> woken.intersect(occupied).contains(
                        #[trigger] order@[i] as int,
                    ),
                forall|s: int|
                    woken.intersect(occupied).contains(s) && !slots@.contains(s) ==> exists|i: int|
                        0 <= i < order@.len() && #[trigger] order@[i] == s,
            ensures
                lists_in_order(order@, woken.intersect(occupied)),
            decreases 64 - lower,
        {
            let ghost before = slots@;
            let ghost order_before = order@;
            match slots.pop_first() {
                None => {
                    assert forall|t: int| woken.intersect(occupied).contains(t) implies exists|i: int|
                        0 <= i < order@.len() && #[trigger] order@[i] == t by {
                        assert(!before.contains(t));
                    }
                    break;
                },
                Some(s) => {
                    assert(before.contains(s as int));
                    assert(s < 64);
                    if self.is_occupied(b, s) {
                        order.push(s);
                        assert(order@[order@.len() - 1] == s);
                    }
                    lower = s + 1;
                    assert forall|t: int|
                        woken.intersect(occupied).contains(t) && !slots@.contains(t) implies exists|i: int|
                        0 <= i < order@.len() && #[trigger] order@[i] == t by {
                        if t != s {
                            assert(!before.contains(t));
                            let i = choose|i: int| 0 <= i < order_before.len() && order_before[i] == t;
                            assert(order@[i] == t);
                        } else {
                            assert(order@[order@.len() - 1] == t);
                        }
                    }
                    assert forall|t: int| #[trigger] slots@.contains(t) implies lower <= t by {
                        assert(before.contains(t));
                        assert(s <= t);
                    }
                },
            }
        }
        order
    }

    /// Ends the poll round of block `b`: of the slots of `order` that were
    /// polled, those whose task finished (`ready`) are freed.
    pub fn finish_slots(&mut self, b: usize, order: &Vec<usize>, ready: &Vec<bool>)
        requires
            old(self).wf(),
            b < old(self)@.len(),
            order@.len() == ready@.len(),
            forall|i: int, j: int| 0 <= i < j < order@.len() ==> order@[i] < order@[j],
            forall|i: int|
                0 <= i < order@.len() ==> old(self)@[b as int].occupied.contains(
                    #[trigger] order@[i] as int,
                ),
        ensures
            final(self).wf(),
            final(self)@ == old(self)@.update(
                b as int,
                SlotsView {
                    occupied: old(self)@[b as int].occupied.difference(
                        finished_slots(order@, ready@),
                    ),
                    woken: old(self)@[b as int].woken,
                },
            ),
    {
        let ghost v = self@;
        let ghost occupied = v[b as int].occupied;
        let ghost woken = v[b as int].woken;
        let mut i: usize = 0;
        while i < order.len()
            invariant
                self.wf(),
                0 <= i <= order@.len(),
                order@.len() == ready@.len(),
                b < v.len(),
                self@.len() == v.len(),
                forall|c: int| 0 <= c < v.len() && c != b ==> #[trigger] self@[c] == v[c],
                self@[b as int].woken == woken,
                forall|x: int, y: int| 0 <= x < y < order@.len() ==> order@[x] < order@[y],
                forall|x: int| 0 <= x < order@.len() ==> occupied.contains(#[trigger] order@[x] as int),
                forall|t: int|
                    #[trigger] self@[b as int].occupied.contains(t) <==> (occupied.contains(t) && !(
                    exists|k: int| 0 <= k < i && ready@[k] && #[trigger] order@[k] == t)),
            decreases order@.len() - i,
        {
            let s = order[i];
            if ready[i] {
                proof {
                    assert(occupied.contains(s as int));
                    if exists|k: int| 0 <= k < i && ready@[k] && #[trigger] order@[k] == s {
                        let k = choose|k: int| 0 <= k < i && ready@[k] && #[trigger] order@[k] == s;
                        assert(order@[k] < order@[i as int]);
                    }
                    assert(self@[b as int].occupied.contains(s as int));
                }
                assert(s < 64) by {
                    assert(self@[b as int].occupied.contains(s as int));
                    assert(self@[b as int].occupied.subset_of(Set::new(|t: int| 0 <= t < 64)))
                        by {
                        assert(self@[b as int] == self.blocks@[b as int].view());
                    }
                }
                let ghost before = self@;
                self.complete(b, s);
                proof {
                    assert forall|t: int|
                        #[trigger] self@[b as int].occupied.contains(t) <==> (occupied.contains(t)
                            && !(exists|k: int|
                            0 <= k < i + 1 && ready@[k] && #[trigger] order@[k] == t)) by {
                        if t == s {
                            assert(order@[i as int] == t);
                        } else {
                            if exists|k: int| 0 <= k < i + 1 && ready@[k] && #[trigger] order@[k] == t {
                                let k = choose|k: int|
                                    0 <= k < i + 1 && ready@[k] && #[trigger] order@[k] == t;
                                assert(k < i);
                            }
                        }
                    }
                }
            } else {
                proof {
                    assert forall|t: int|
                        #[trigger] self@[b as int].occupied.contains(t) <==> (occupied.contains(t)
                            && !(exists|k: int|
                            0 <= k < i + 1 && ready@[k] && #[trigger] order@[k] == t)) by {
                        if exists|k: int| 0 <= k < i + 1 && ready@[k] && #[trigger] order@[k] == t {
                            let k = choose|k: int|
                                0 <= k < i + 1 && ready@[k] && #[trigger] order@[k] == t;
                            assert(k < i);
                        }
                    }
                }
            }
            i = i + 1;
        }
        proof {
            let fin = finished_slots(order@, ready@);
            assert(self@[b as int].occupied =~= occupied.difference(fin));
            assert(self@ =~= v.update(
                b as int,
                SlotsView { occupied: occupied.difference(fin), woken },
            ));
        }
    }

    /// Ends a poll: drops the trailing blocks that hold no task (keeping the
    /// first block) and reports whether no task is left anywhere.
    pub fn finish_poll(&mut self) -> (ready: bool)
        requires
            old(self).wf(),
        ensures
            final(self).wf(),
            is_trimmed(old(self)@, final(self)@),
            ready <==> all_idle(old(self)@),
    {
        let mut keep = self.blocks.len();
        while keep > 1 && self.blocks[keep - 1].pending == 0
            invariant
                1 <= keep <= self.blocks@.len(),
                self.blocks@ == old(self).blocks@,
                forall|b: int|
                    keep <= b < self@.len() ==> #[trigger] self@[b].occupied == Set::<
                        int,
                    >::empty(),
            decreases keep,
        {
            proof {
                lemma_slot_set_zero();
            }
            keep = keep - 1;
        }
        let last = self.blocks[keep - 1].pending;
        proof {
            lemma_leading_zeros(last);
            if last != 0 {
                assert(slot_set(last).contains(u64_leading_zeros(last)));
            } else {
                lemma_slot_set_zero();
            }
        }
        let ghost before = self@;
        self.blocks.truncate(keep);
        assert(self@ =~= before.take(keep as int));
        let ready = keep == 1 && last == 0;
        proof {
            if !ready {
                assert(before[keep - 1].occupied.contains(u64_leading_zeros(last)));
            }
        }
        ready
    }
}

/// The woken slots of one block, handed out from the lowest index up.
pub struct WokenSlots {
    mask: u64,
}

impl View for WokenSlots {
    type V = Set<int>;

    closed spec fn view(&self) -> Set<int> {
        slot_set(self.mask)
    }
}

impl WokenSlots {
    /// Takes the lowest woken slot, or `None` when none is left.
    pub fn pop_first(&mut self) -> (r: Option<usize>)
        ensures
            match r {
                None => old(self)@ == Set::<int>::empty() && final(self)@ == old(self)@,
                Some(s) => {
                    &&& old(self)@.contains(s as int)
                    &&& forall|t: int| #[trigger] old(self)@.contains(t) ==> s <= t
                    &&& final(self)@ == old(self)@.remove(s as int)
                },
            },
    {
        let mask = self.mask;
        let k = mask.leading_zeros();
        proof {
            lemma_leading_zeros(mask);
        }
        if k >= 64 {
            proof {
                lemma_slot_set_zero();
            }
            return None;
        }
        let s = k as usize;
        let bit: u64 = 1u64 << (63 - s as u64);
        self.mask = mask ^ bit;
        proof {
            lemma_slot_set_toggle(mask, s as u64);
            assert forall|t: int| #[trigger] slot_set(mask).contains(t) implies s <= t by {
                if t < s {
                    assert(!slot_set(mask).contains(t));
                }
            }
        }
        Some(s)
    }
}

/// A task that is recorded as pending and then completes leaves the queue
/// as if it had finished on its first poll.
pub proof fn lemma_push_then_complete(v: Seq<SlotsView>, b: int, s: int)
    requires
        0 <= b <= v.len(),
        b < v.len() ==> !v[b].occupied.contains(s),
    ensures
        spec_after_complete(spec_after_push(v, b, s, false), b, s) == spec_after_push(
            v,
            b,
            s,
            true,
        ),
{
    let grown = if b == v.len() {
        v.push(empty_block())
    } else {
        v
    };
    assert(grown[b].occupied.insert(s).remove(s) =~= grown[b].occupied);
    assert(spec_after_complete(spec_after_push(v, b, s, false), b, s) =~= grown);
}

/// Trimming never drops a live task: every block that holds one is kept
/// unchanged, and the queue is finished exactly when it is trimmed to its
/// first block and that block is empty.
pub proof fn lemma_trim_keeps_live_tasks(v: Seq<SlotsView>, kept: Seq<SlotsView>)
    requires
        is_trimmed(v, kept),
    ensures
        forall|b: int|
            0 <= b < v.len() && v[b].occupied != Set::<int>::empty() ==> b < kept.len()
                && #[trigger] kept[b] == v[b],
        all_idle(v) <==> (kept.len() == 1 && kept[0].occupied == Set::<int>::empty()),
{
    if kept.len() == 1 && kept[0].occupied == Set::<int>::empty() {
        assert forall|b: int| 0 <= b < v.len() implies #[trigger] v[b].occupied == Set::<
            int,
        >::empty() by {
            if b == 0 {
                assert(kept[0] == v[0]);
            }
        }
    }
    if all_idle(v) {
        if kept.len() > 1 {
            assert(kept[kept.len() - 1] == v[kept.len() - 1]);
        }
        assert(kept[0] == v[0]);
    }
}

/// The slot handed out for a new task is the only first-free slot: no
/// other location satisfies the placement rule.
pub proof fn lemma_first_free_unique(v: Seq<SlotsView>, b1: int, s1: int, b2: int, s2: int)
    requires
        is_first_free(v, b1, s1),
        is_first_free(v, b2, s2),
    ensures
        b1 == b2 && s1 == s2,
{
    if slot_before(b1, s1, b2, s2) {
        if b1 < v.len() {
            assert(v[b1].occupied.contains(s1));
        }
    } else if slot_before(b2, s2, b1, s1) {
        if b2 < v.len() {
            assert(v[b2].occupied.contains(s2));
        }
    }
}

/// A poll round of block `b` (`poll_order`, a poll of each listed slot,
/// then `finish_slots`) polls every woken slot that holds a task exactly
/// once, lowest first, and no other slot; a slot is freed exactly when its
/// task was polled and finished; the block's wake-ups are consumed and the
/// other blocks are untouched.
pub proof fn lemma_poll_round(v: Seq<SlotsView>, b: int, order: Seq<usize>, ready: Seq<bool>)
    requires
        0 <= b < v.len(),
        ready.len() == order.len(),
        lists_in_order(order, v[b].woken.intersect(v[b].occupied)),
    ensures
        ({
            let mid = v.update(b, SlotsView { occupied: v[b].occupied, woken: Set::empty() });
            let after = mid.update(
                b,
                SlotsView {
                    occupied: mid[b].occupied.difference(finished_slots(order, ready)),
                    woken: mid[b].woken,
                },
            );
            &&& after == spec_after_round(v, b, order, ready)
            &&& after.len() == v.len()
            &&& forall|c: int| 0 <= c < v.len() && c != b ==> #[trigger] after[c] == v[c]
            &&& after[b].woken == Set::<int>::empty()
            &&& forall|t: int| #[trigger]
                after[b].occupied.contains(t) <==> (v[b].occupied.contains(t) && !(exists|i: int|
                    0 <= i < order.len() && ready[i] && #[trigger] order[i] == t))
        }),
        forall|i: int, j: int| 0 <= i < j < order.len() ==> order[i] != order[j],
        forall|s: int|
            v[b].woken.contains(s) && v[b].occupied.contains(s) <==> exists|i: int|
                0 <= i < order.len() && #[trigger] order[i] == s,
        forall|i: int|
            0 <= i < order.len() ==> v[b].woken.contains(#[trigger] order[i] as int)
                && v[b].occupied.contains(order[i] as int),
{
    let mid = v.update(b, SlotsView { occupied: v[b].occupied, woken: Set::empty() });
    let after = mid.update(
        b,
        SlotsView {
            occupied: mid[b].occupied.difference(finished_slots(order, ready)),
            woken: mid[b].woken,
        },
    );
    assert(after =~= spec_after_round(v, b, order, ready));
    assert forall|s: int|
        v[b].woken.contains(s) && v[b].occupied.contains(s) <==> exists|i: int|
            0 <= i < order.len() && #[trigger] order[i] == s by {
        if exists|i: int| 0 <= i < order.len() && #[trigger] order[i] == s {
            let i = choose|i: int| 0 <= i < order.len() && #[trigger] order[i] == s;
            assert(v[b].woken.intersect(v[b].occupied).contains(order[i] as int));
        }
        if v[b].woken.contains(s) && v[b].occupied.contains(s) {
            assert(v[b].woken.intersect(v[b].occupied).contains(s));
        }
    }
    assert forall|i: int|
        0 <= i < order.len() implies v[b].woken.contains(#[trigger] order[i] as int)
            && v[b].occupied.contains(order[i] as int) by {
        assert(v[b].woken.intersect(v[b].occupied).contains(order[i] as int));
    }
}

} // verus!
