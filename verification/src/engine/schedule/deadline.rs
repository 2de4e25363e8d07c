//! Earliest-deadline-first scheduling on a binary min-heap.

use crate::engine::schedule::Scheduler;
use crate::engine::task::SharedTask;
use crate::engine::worker::WorkerInfo;
use std::collections::VecDeque;
use std::sync::mpsc;
use vstd::multiset::Multiset;
use vstd::prelude::*;

verus! {

/// Values that are ordered by urgency.
pub trait Prioritized {
    /// The place of a value in the order. A smaller rank is more urgent.
    spec fn rank(&self) -> int;

    /// Whether `self` is strictly more urgent than `other`.
    fn precedes(&self, other: &Self) -> (before: bool)
        ensures
            before == (self.rank() < other.rank()),
    ;
}

impl Prioritized for i32 {
    open spec fn rank(&self) -> int {
        *self as int
    }

    fn precedes(&self, other: &Self) -> (before: bool) {
        *self < *other
    }
}

impl Prioritized for u64 {
    open spec fn rank(&self) -> int {
        *self as int
    }

    fn precedes(&self, other: &Self) -> (before: bool) {
        *self < *other
    }
}

/// The slot above slot `i` in the tree that a heap lays out in a sequence.
spec fn parent_of(i: int) -> int {
    (i - 1) / 2
}

/// Slot `i` holds nothing more urgent than the slot above it.
spec fn ordered_at<T: Prioritized>(s: Seq<T>, i: int) -> bool {
    s[parent_of(i)].rank() <= s[i].rank()
}

/// The heap property: no slot is more urgent than the slot above it.
spec fn is_heap<T: Prioritized>(s: Seq<T>) -> bool {
    forall|i: int| 0 < i < s.len() ==> #[trigger] ordered_at(s, i)
}

/// `least` is as urgent as anything in `among`.
pub open spec fn is_most_urgent<T: Prioritized>(least: T, among: Multiset<T>) -> bool {
    forall|other: T| among.contains(other) ==> least.rank() <= #[trigger] other.rank()
}

/// Slot `i` is no more urgent than the slot two levels up.
spec fn ordered_over<T: Prioritized>(s: Seq<T>, i: int) -> bool {
    s[parent_of(parent_of(i))].rank() <= s[i].rank()
}

/// A heap but for the link between slot `at` and the slot above it: the
/// state of a sequence while a new value climbs.
spec fn heap_but_above<T: Prioritized>(s: Seq<T>, at: int) -> bool {
    &&& forall|i: int| 0 < i < s.len() && i != at ==> #[trigger] ordered_at(s, i)
    &&& forall|i: int|
        0 < i < s.len() && parent_of(i) == at && at > 0 ==> #[trigger] ordered_over(s, i)
}

/// A heap but for the links between slot `at` and the slots below it: the
/// state of a sequence while a value sinks.
spec fn heap_but_below<T: Prioritized>(s: Seq<T>, at: int) -> bool {
    &&& forall|i: int| 0 < i < s.len() && parent_of(i) != at ==> #[trigger] ordered_at(s, i)
    &&& forall|i: int|
        0 < i < s.len() && parent_of(i) == at && at > 0 ==> #[trigger] ordered_over(s, i)
}

/// The slot below slot `at` that the value of `at` sinks into, if it sinks:
/// the more urgent of the two slots below it, and the first of them if they
/// are equally urgent or the second does not exist.
spec fn lower<T: Prioritized>(s: Seq<T>, at: int) -> int {
    if 2 * at + 2 < s.len() && s[2 * at + 2].rank() < s[2 * at + 1].rank() {
        2 * at + 2
    } else {
        2 * at + 1
    }
}

/// The sequence after the value of slot `at` has sunk as far as it goes:
/// while the more urgent of the slots below it is more urgent than it, the
/// two are exchanged.
spec fn sunk<T: Prioritized>(s: Seq<T>, at: int) -> Seq<T>
    decreases s.len() - at,
{
    if at < 0 || 2 * at + 1 >= s.len() {
        s
    } else if s[lower(s, at)].rank() < s[at].rank() {
        sunk(crate::utils::std_specs::swapped(s, at, lower(s, at)), lower(s, at))
    } else {
        s
    }
}

/// The sequence after the value of slot `at` has climbed as far as it goes:
/// while it is more urgent than the slot above it, the two are exchanged.
spec fn climbed<T: Prioritized>(s: Seq<T>, at: int) -> Seq<T>
    decreases at,
{
    if at <= 0 || at >= s.len() {
        s
    } else if s[at].rank() < s[parent_of(at)].rank() {
        climbed(crate::utils::std_specs::swapped(s, at, parent_of(at)), parent_of(at))
    } else {
        s
    }
}

/// The slots of a heap after `value` has been added to the slots `s`: the
/// value is put behind the last slot and climbs.
pub closed spec fn with_added<T: Prioritized>(s: Seq<T>, value: T) -> Seq<T> {
    climbed(s.push(value), s.len() as int)
}

/// What is left of `s` when its first slot has been taken out: the last slot
/// takes the place of the first, and its value sinks.
pub closed spec fn without_first<T: Prioritized>(s: Seq<T>) -> Seq<T> {
    sunk(crate::utils::std_specs::swapped(s, 0, s.len() - 1).remove(s.len() - 1), 0)
}

/// The first `n` values that come out of `s` when the first slot is taken
/// out again and again, in the order in which they come out.
spec fn drained<T: Prioritized>(s: Seq<T>, n: nat) -> Seq<T>
    decreases n,
{
    if n == 0 || s.len() == 0 {
        Seq::empty()
    } else {
        seq![s[0]] + drained(without_first(s), (n - 1) as nat)
    }
}

/// No value of `line` is more urgent than a value before it.
pub open spec fn in_order<T: Prioritized>(line: Seq<T>) -> bool {
    forall|i: int, j: int|
        #![trigger line[i], line[j]]
        0 <= i < j < line.len() ==> line[i].rank() <= line[j].rank()
}

/// In a heap nothing sinks from the first slot.
proof fn lemma_heap_does_not_sink<T: Prioritized>(s: Seq<T>)
    requires
        is_heap(s),
    ensures
        sunk(s, 0) == s,
{
    if 1 < s.len() {
        assert(ordered_at(s, 1));
        if 2 < s.len() {
            assert(ordered_at(s, 2));
        }
    }
}

/// Exchanging two slots keeps what a sequence holds.
proof fn lemma_swap_keeps_contents<T>(s: Seq<T>, i: int, j: int)
    requires
        0 <= i < s.len(),
        0 <= j < s.len(),
    ensures
        crate::utils::std_specs::swapped(s, i, j).to_multiset() == s.to_multiset(),
{
    broadcast use vstd::multiset::group_multiset_axioms;

    let half = s.update(i, s[j]);
    vstd::seq_lib::to_multiset_update(s, i, s[j]);
    vstd::seq_lib::to_multiset_update(half, j, s[i]);
    vstd::seq_lib::to_multiset_contains(s, s[i]);
    vstd::seq_lib::to_multiset_contains(s, s[j]);
    assert(s.contains(s[i]));
    assert(s.contains(s[j]));
    assert(half[j] == s[j]);
    assert(crate::utils::std_specs::swapped(s, i, j).to_multiset() =~= s.to_multiset());
}

/// In a heap the first slot is as urgent as any other.
proof fn lemma_root_is_least<T: Prioritized>(s: Seq<T>, i: int)
    requires
        is_heap(s),
        0 <= i < s.len(),
    ensures
        s[0].rank() <= s[i].rank(),
    decreases i,
{
    if i > 0 {
        assert(ordered_at(s, i));
        lemma_root_is_least(s, parent_of(i));
    }
}

/// In a heap the first slot is as urgent as anything the heap holds.
proof fn lemma_root_is_most_urgent<T: Prioritized>(s: Seq<T>)
    requires
        is_heap(s),
        s.len() > 0,
    ensures
        is_most_urgent(s[0], s.to_multiset()),
{
    broadcast use vstd::seq_lib::to_multiset_contains;

    assert forall|other: T| s.to_multiset().contains(other) implies s[0].rank()
        <= #[trigger] other.rank() by {
        assert(s.contains(other));
        let i = choose|i: int| 0 <= i < s.len() && s[i] == other;
        lemma_root_is_least(s, i);
    }
}

/// Sinking the value of the one slot that breaks the heap property below
/// itself gives a heap that holds the same values.
proof fn lemma_sunk_is_heap<T: Prioritized>(s: Seq<T>, at: int)
    requires
        0 <= at,
        heap_but_below(s, at),
    ensures
        is_heap(sunk(s, at)),
        sunk(s, at).len() == s.len(),
        sunk(s, at).to_multiset() == s.to_multiset(),
    decreases s.len() - at,
{
    if 2 * at + 1 >= s.len() {
        assert forall|i: int| 0 < i < s.len() implies #[trigger] ordered_at(s, i) by {
            if parent_of(i) == at {
                assert(i == 2 * at + 1 || i == 2 * at + 2);
            }
        }
    } else if s[lower(s, at)].rank() < s[at].rank() {
        lemma_sink(s, at, lower(s, at));
        lemma_swap_keeps_contents(s, at, lower(s, at));
        lemma_sunk_is_heap(crate::utils::std_specs::swapped(s, at, lower(s, at)), lower(s, at));
    } else {
        lemma_sink_done(s, at);
    }
}

/// Taking the first slot out of a heap leaves a heap that holds the other
/// values.
proof fn lemma_without_first<T: Prioritized>(s: Seq<T>)
    requires
        is_heap(s),
        s.len() > 0,
    ensures
        is_heap(without_first(s)),
        without_first(s).len() == s.len() - 1,
        without_first(s).to_multiset() == s.to_multiset().remove(s[0]),
{
    let last = s.len() - 1;
    let moved = crate::utils::std_specs::swapped(s, 0, last);
    lemma_swap_keeps_contents(s, 0, last);
    vstd::seq_lib::to_multiset_remove(moved, last);
    lemma_sink_start(s);
    lemma_sunk_is_heap(moved.remove(last), 0);
}

/// What comes out of a heap is all that it holds, the most urgent first.
proof fn lemma_drained<T: Prioritized>(s: Seq<T>)
    requires
        is_heap(s),
    ensures
        drained(s, s.len()).len() == s.len(),
        drained(s, s.len()).to_multiset() == s.to_multiset(),
        in_order(drained(s, s.len())),
    decreases s.len(),
{
    let line = drained(s, s.len());
    if s.len() > 0 {
        let rest = drained(without_first(s), (s.len() - 1) as nat);
        lemma_without_first(s);
        lemma_drained(without_first(s));
        assert(line =~= rest.insert(0, s[0]));
        vstd::seq_lib::to_multiset_insert(rest, 0, s[0]);
        vstd::seq_lib::to_multiset_contains(s, s[0]);
        assert(s.contains(s[0]));
        assert(line.to_multiset() =~= s.to_multiset()) by {
            broadcast use vstd::multiset::group_multiset_axioms;

        }
        assert forall|i: int, j: int| 0 <= i < j < line.len() implies line[i].rank()
            <= line[j].rank() by {
            if i == 0 {
                vstd::seq_lib::to_multiset_contains(rest, rest[j - 1]);
                assert(rest.contains(rest[j - 1]));
                assert(s.to_multiset().contains(line[j])) by {
                    broadcast use vstd::multiset::group_multiset_axioms;

                }
                vstd::seq_lib::to_multiset_contains(s, line[j]);
                let k = choose|k: int| 0 <= k < s.len() && s[k] == line[j];
                lemma_root_is_least(s, k);
            } else {
                assert(rest[i - 1].rank() <= rest[j - 1].rank());
            }
        }
    } else {
        assert(line =~= s);
    }
}

/// A binary min-heap: `delete` hands out the most urgent value it holds.
pub struct Heap<T: Prioritized>(Vec<T>);

impl<T> Heap<T> where T: Prioritized {
    /// The values in the order in which the heap stores them.
    pub closed spec fn slots(&self) -> Seq<T> {
        self.0@
    }

    /// The values of the heap in the order in which `delete` hands them
    /// out, as long as nothing is inserted in between.
    pub closed spec fn line(&self) -> Seq<T> {
        if is_heap(self.0@) {
            drained(self.0@, self.0@.len())
        } else {
            Seq::empty()
        }
    }

    /// What the heap holds, each value as often as it was inserted and not
    /// yet deleted.
    pub closed spec fn view(&self) -> Multiset<T> {
        self.line().to_multiset()
    }

    /// What the heap holds is what its line holds.
    pub proof fn lemma_view_is_line(&self)
        ensures
            self@ == self.line().to_multiset(),
    {
    }

    /// The line of a heap is in the order of urgency.
    pub proof fn lemma_line_in_order(&self)
        ensures
            in_order(self.line()),
    {
        if is_heap(self.0@) {
            lemma_drained(self.0@);
        }
    }

    /// The stored order is a heap, at all times.
    #[verifier::type_invariant]
    spec fn well_formed(&self) -> bool {
        is_heap(self.0@)
    }

    /// An empty heap.
    pub fn new() -> (heap: Self)
        ensures
            heap.slots() == Seq::<T>::empty(),
            heap.line() == Seq::<T>::empty(),
            heap@ == Multiset::<T>::empty(),
    {
        let heap = Heap(Vec::new());
        proof {
            lemma_drained(heap.0@);
            assert(heap.line() =~= Seq::<T>::empty());
            vstd::seq_lib::to_multiset_len(heap.line());
            vstd::multiset::lemma_multiset_empty_len(heap.line().to_multiset());
        }
        heap
    }

    /// Adds `task`. The new value starts in the last slot and climbs while
    /// it is more urgent than the slot above it.
    pub fn insert(&mut self, task: T)
        ensures
            final(self).slots() == with_added(old(self).slots(), task),
            final(self)@ == old(self)@.insert(task),
    {
        proof {
            use_type_invariant(&*self);
        }
        let mut values: Vec<T> = Vec::new();
        std::mem::swap(&mut values, &mut self.0);
        let ghost start = values@;
        values.push(task);
        proof {
            lemma_drained(start);
            vstd::seq_lib::to_multiset_build(start, task);
            assert forall|i: int| 0 < i < values@.len() && i != values@.len() - 1 implies #[trigger] ordered_at(
                values@,
                i,
            ) by {
                assert(ordered_at(start, i));
            }
        }
        let mut idx: usize = values.len() - 1;
        while idx > 0 && values[idx].precedes(&values[(idx - 1) / 2])
            invariant
                0 <= idx < values@.len(),
                idx == 0 ==> is_heap(values@),
                idx > 0 ==> heap_but_above(values@, idx as int),
                climbed(values@, idx as int) == with_added(start, task),
                values@.to_multiset() == start.to_multiset().insert(task),
            decreases idx,
        {
            let parent: usize = (idx - 1) / 2;
            let ghost before = values@;
            values.swap(idx, parent);
            proof {
                lemma_swap_keeps_contents(before, idx as int, parent as int);
                lemma_climb(before, idx as int);
            }
            idx = parent;
        }
        proof {
            if idx > 0 {
                assert(ordered_at(values@, idx as int));
            }
            lemma_drained(values@);
        }
        self.0 = values;
    }

    /// Removes and returns the first value of the line, which is as urgent
    /// as any value in the heap, or `None` if the heap is empty. Which of
    /// several equally urgent values is the first follows from how the heap
    /// stores them.
    pub fn delete(&mut self) -> (least: Option<T>)
        ensures
            least == (if old(self).line().len() > 0 {
                Some(old(self).line()[0])
            } else {
                None
            }),
            old(self).line().len() > 0 ==> final(self).line() == old(self).line().skip(1),
            old(self).line().len() == 0 ==> final(self).line() == old(self).line(),
            old(self).line().len() > 0 ==> final(self).slots() == without_first(old(self).slots()),
            old(self).line().len() == 0 ==> final(self).slots() == old(self).slots(),
            match least {
                Some(value) => {
                    &&& old(self)@.contains(value)
                    &&& is_most_urgent(value, old(self)@)
                    &&& final(self)@ == old(self)@.remove(value)
                },
                None => old(self)@.len() == 0 && final(self)@ == old(self)@,
            },
    {
        proof {
            use_type_invariant(&*self);
        }
        let len: usize = self.0.len();
        proof {
            lemma_drained(self.0@);
            vstd::seq_lib::to_multiset_len(self.line());
        }
        if len == 0 {
            return None;
        }
        let mut values: Vec<T> = Vec::new();
        std::mem::swap(&mut values, &mut self.0);
        let ghost before = values@;
        proof {
            lemma_root_is_most_urgent(before);
            lemma_swap_keeps_contents(before, 0, len - 1);
            vstd::seq_lib::to_multiset_contains(before, before[0]);
            assert(before.contains(before[0]));
        }
        values.swap(0, len - 1);
        let ghost middle = values@;
        let ret = values.pop();
        proof {
            assert(values@ =~= middle.remove(len - 1));
            vstd::seq_lib::to_multiset_remove(middle, len - 1);
            lemma_sink_start(before);
        }
        Self::normalize(&mut values);
        proof {
            lemma_drained(values@);
            assert(values@ == without_first(before));
            lemma_without_first(before);
            let rest = drained(values@, values@.len());
            assert(drained(before, before.len()) == seq![before[0]] + rest);
            assert((seq![before[0]] + rest).skip(1) =~= rest);
        }
        self.0 = values;
        ret
    }

    /// Restores the heap property of a sequence that breaks it at the first
    /// slot only.
    fn normalize(values: &mut Vec<T>)
        requires
            heap_but_below(old(values)@, 0),
        ensures
            is_heap(final(values)@),
            final(values)@ == sunk(old(values)@, 0),
            is_heap(old(values)@) ==> final(values)@ == old(values)@,
            final(values)@.to_multiset() == old(values)@.to_multiset(),
    {
        while (values.len() > 1 && values[1].precedes(&values[0])) || (values.len() > 2
            && values[2].precedes(&values[0]))
            invariant
                heap_but_below(values@, 0),
                sunk(values@, 0) == sunk(old(values)@, 0),
                values@.to_multiset() == old(values)@.to_multiset(),
            ensures
                is_heap(values@),
                values@ == sunk(old(values)@, 0),
                values@.to_multiset() == old(values)@.to_multiset(),
            decreases (if is_heap(values@) { 0int } else { 1int }),
        {
            proof {
                if is_heap(values@) {
                    assert(ordered_at(values@, 1));
                    if values@.len() > 2 {
                        assert(ordered_at(values@, 2));
                    }
                }
            }
            Self::inner_normalize(values);
            proof {
                lemma_heap_does_not_sink(values@);
            }
        }
        proof {
            assert forall|i: int| 0 < i < values@.len() implies #[trigger] ordered_at(values@, i) by {
                if parent_of(i) == 0 {
                    assert(i == 1 || i == 2);
                }
            }
            lemma_heap_does_not_sink(values@);
            if is_heap(old(values)@) {
                lemma_heap_does_not_sink(old(values)@);
            }
        }
    }

    /// One pass from the first slot downwards: the value there sinks, each
    /// time below the more urgent of the two slots under it, until neither
    /// is more urgent than it.
    fn inner_normalize(values: &mut Vec<T>)
        requires
            heap_but_below(old(values)@, 0),
        ensures
            is_heap(final(values)@),
            final(values)@ == sunk(old(values)@, 0),
            final(values)@.to_multiset() == old(values)@.to_multiset(),
    {
        let len: usize = values.len();
        let mut idx: usize = 0;
        while len >= 2 && idx <= (len - 2) / 2
            invariant
                len == values@.len(),
                0 <= idx,
                idx < len || len == 0,
                heap_but_below(values@, idx as int),
                sunk(values@, idx as int) == sunk(old(values)@, 0),
                values@.to_multiset() == old(values)@.to_multiset(),
            ensures
                is_heap(values@),
                values@ == sunk(old(values)@, 0),
                values@.to_multiset() == old(values)@.to_multiset(),
            decreases len - idx,
        {
            let left: usize = 2 * idx + 1;
            let mut child: usize = left;
            if left + 1 < len && values[left + 1].precedes(&values[left]) {
                child = left + 1;
            }
            if !values[child].precedes(&values[idx]) {
                proof {
                    lemma_sink_done(values@, idx as int);
                }
                break ;
            }
            let ghost before = values@;
            values.swap(idx, child);
            proof {
                lemma_swap_keeps_contents(before, idx as int, child as int);
                lemma_sink(before, idx as int, child as int);
            }
            idx = child;
        }
    }
}

/// One step of climbing: exchanging slot `at` with the slot above it, when
/// it is the more urgent of the two, leaves a heap but for the link above
/// that slot.
proof fn lemma_climb<T: Prioritized>(s: Seq<T>, at: int)
    requires
        0 < at < s.len(),
        heap_but_above(s, at),
        s[at].rank() < s[parent_of(at)].rank(),
    ensures
        parent_of(at) == 0 ==> is_heap(crate::utils::std_specs::swapped(s, at, parent_of(at))),
        parent_of(at) > 0 ==> heap_but_above(crate::utils::std_specs::swapped(s, at, parent_of(at)), parent_of(at)),
{
    let p = parent_of(at);
    let t = crate::utils::std_specs::swapped(s, at, p);
    assert forall|i: int| 0 < i < t.len() && i != p implies #[trigger] ordered_at(t, i) by {
        if i == at {
        } else if parent_of(i) == at {
            assert(ordered_over(s, i));
        } else if parent_of(i) == p {
            assert(ordered_at(s, i));
        } else {
            assert(ordered_at(s, i));
        }
    }
    assert forall|i: int| 0 < i < t.len() && parent_of(i) == p && p > 0 implies #[trigger] ordered_over(
        t,
        i,
    ) by {
        assert(ordered_at(s, p));
        if i == at {
        } else {
            assert(ordered_at(s, i));
        }
    }
}

/// After the last slot has taken the place of the first, the rest is a heap
/// but for the links below the first slot.
proof fn lemma_sink_start<T: Prioritized>(s: Seq<T>)
    requires
        is_heap(s),
        s.len() > 0,
    ensures
        heap_but_below(crate::utils::std_specs::swapped(s, 0, s.len() - 1).remove(s.len() - 1), 0),
{
    let t = crate::utils::std_specs::swapped(s, 0, s.len() - 1).remove(s.len() - 1);
    assert forall|i: int| 0 < i < t.len() && parent_of(i) != 0 implies #[trigger] ordered_at(t, i) by {
        assert(ordered_at(s, i));
    }
}

/// A slot with nothing more urgent below it closes the gap: the sequence is
/// a heap.
proof fn lemma_sink_done<T: Prioritized>(s: Seq<T>, at: int)
    requires
        0 <= at < s.len(),
        heap_but_below(s, at),
        2 * at + 1 < s.len(),
        s[at].rank() <= s[2 * at + 1].rank(),
        2 * at + 2 < s.len() ==> s[at].rank() <= s[2 * at + 2].rank(),
    ensures
        is_heap(s),
{
    assert forall|i: int| 0 < i < s.len() implies #[trigger] ordered_at(s, i) by {
        if parent_of(i) == at {
            assert(i == 2 * at + 1 || i == 2 * at + 2);
        }
    }
}

/// One step of sinking: exchanging slot `at` with the more urgent of the
/// slots below it leaves a heap but for the links below that slot.
proof fn lemma_sink<T: Prioritized>(s: Seq<T>, at: int, child: int)
    requires
        0 <= at < s.len(),
        heap_but_below(s, at),
        child < s.len(),
        child == 2 * at + 1 || child == 2 * at + 2,
        s[child].rank() < s[at].rank(),
        2 * at + 1 < s.len() ==> s[child].rank() <= s[2 * at + 1].rank(),
        2 * at + 2 < s.len() ==> s[child].rank() <= s[2 * at + 2].rank(),
    ensures
        heap_but_below(crate::utils::std_specs::swapped(s, at, child), child),
{
    let t = crate::utils::std_specs::swapped(s, at, child);
    assert forall|i: int| 0 < i < t.len() && parent_of(i) != child implies #[trigger] ordered_at(
        t,
        i,
    ) by {
        if i == at {
            assert(ordered_over(s, child));
        } else if parent_of(i) == at {
            assert(i == 2 * at + 1 || i == 2 * at + 2);
        } else {
            assert(ordered_at(s, i));
        }
    }
    assert forall|i: int| 0 < i < t.len() && parent_of(i) == child && child > 0 implies #[trigger] ordered_over(
        t,
        i,
    ) by {
        assert(ordered_at(s, i));
    }
}

/// Two values taken one after the other, with nothing added in between,
/// come out in the order of their urgency.
pub proof fn lemma_taken_in_order<T: Prioritized>(among: Multiset<T>, first: T, second: T)
    requires
        is_most_urgent(first, among),
        among.remove(first).contains(second),
    ensures
        first.rank() <= second.rank(),
{
    broadcast use vstd::multiset::group_multiset_axioms;

    assert(among.contains(second));
}

/// For tasks, the order of urgency is the order of deadlines: of two tasks
/// taken one after the other from an earliest-deadline-first scheduler, with
/// nothing admitted in between, the second has no earlier deadline than the
/// first.
pub proof fn lemma_deadlines_do_not_decrease(
    admitted: Multiset<SharedTask>,
    first: SharedTask,
    second: SharedTask,
)
    requires
        is_most_urgent(first, admitted),
        admitted.remove(first).contains(second),
    ensures
        first.deadline() is None || second.deadline() is Some,
        first.deadline() is Some ==> first.deadline().unwrap() <= second.deadline().unwrap(),
{
    lemma_taken_in_order(admitted, first, second);
}

/// Hands out the admitted task with the earliest deadline first.
pub struct DeadLineScheduler {
    receiver: mpsc::Receiver<WorkerInfo>,
    pending_workers: VecDeque<WorkerInfo>,
    heap: Heap<SharedTask>,
}

impl DeadLineScheduler {
    /// The admitted tasks in the order in which the heap stores them.
    pub closed spec fn slots(&self) -> Seq<SharedTask> {
        self.heap.slots()
    }

    /// A scheduler with no task admitted and no worker idle, that hears of
    /// workers on `receiver`.
    pub fn new(receiver: mpsc::Receiver<WorkerInfo>) -> (scheduler: Self)
        ensures
            scheduler.slots() == Seq::<SharedTask>::empty(),
            scheduler.line() == Seq::<SharedTask>::empty(),
            scheduler.idle() == Seq::<WorkerInfo>::empty(),
            scheduler.worker_channel() == receiver,
    {
        Self { receiver, pending_workers: VecDeque::new(), heap: Heap::new() }
    }

    /// The line of an earliest-deadline-first scheduler is in the order of
    /// deadlines: no task in it has an earlier deadline than a task before
    /// it, and tasks without a deadline come first. What `take`,
    /// `pair_workers` and `notify` hand out is the first of the line, so
    /// tasks go out in the order of their deadlines as long as nothing is
    /// admitted in between.
    pub proof fn lemma_line_follows_deadlines(&self, i: int, j: int)
        requires
            0 <= i < j < self.line().len(),
        ensures
            in_order(self.line()),
            self.line()[i].deadline() is None || self.line()[j].deadline() is Some,
            self.line()[i].deadline() is Some ==> self.line()[i].deadline().unwrap()
                <= self.line()[j].deadline().unwrap(),
    {
        self.heap.lemma_line_in_order();
        assert(self.line()[i].rank() <= self.line()[j].rank());
    }
}

impl Scheduler for DeadLineScheduler {
    closed spec fn line(&self) -> Seq<SharedTask> {
        self.heap.line()
    }

    closed spec fn idle(&self) -> Seq<WorkerInfo> {
        self.pending_workers@
    }

    closed spec fn worker_channel(&self) -> mpsc::Receiver<WorkerInfo> {
        self.receiver
    }

    /// Admits `task` at the place that its deadline gives it.
    fn register(&mut self, task: SharedTask)
        ensures
            final(self).slots() == with_added(old(self).slots(), task),
    {
        proof {
            self.heap.lemma_view_is_line();
        }
        self.heap.insert(task);
        proof {
            self.heap.lemma_view_is_line();
        }
    }

    /// Hands out the first task of the line, which is as urgent as any
    /// admitted task.
    fn take(&mut self) -> (next: Option<SharedTask>)
        ensures
            next matches Some(task) ==> is_most_urgent(task, old(self).line().to_multiset()),
            old(self).line().len() > 0 ==> final(self).slots() == without_first(old(self).slots()),
            old(self).line().len() == 0 ==> final(self).slots() == old(self).slots(),
    {
        proof {
            self.heap.lemma_view_is_line();
        }
        let next = self.heap.delete();
        proof {
            self.heap.lemma_view_is_line();
        }
        next
    }

    fn get_pending_workers(&mut self) -> (queue: &mut VecDeque<WorkerInfo>)
        ensures
            final(self).slots() == old(self).slots(),
    {
        &mut self.pending_workers
    }

    fn get_worker_receiver(&mut self) -> (receiver: &mut mpsc::Receiver<WorkerInfo>)
        ensures
            final(self).slots() == old(self).slots(),
    {
        &mut self.receiver
    }
}

} // verus!
