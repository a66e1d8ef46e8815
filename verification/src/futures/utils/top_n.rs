//! A bounded history: the newest entries of everything that was put in.
//!
//! `TopN` keeps its entries in ascending order of `(timestamp, item)`, never
//! holds the same entry twice and never holds more than its capacity. An
//! entry that arrives when the history is full goes in first, and the
//! smallest entry then leaves; an arrival older than everything in a full
//! history therefore leaves again at once and the history stays as it was.

use vstd::prelude::*;
use vstd::std_specs::cmp::PartialEqSpecImpl;
use crate::futures::utils::ranking::{never_before_itself, tied, Rank, Ranked};

verus! {

/// A record and the time, in nanoseconds since the epoch, at which it was
/// submitted. Entries are ordered by time first and by the record second.
#[derive(Debug, Clone)]
pub struct TopNEntry<T> {
    pub timestamp: u64,
    pub item: T,
}

impl<T: Ranked> Ranked for TopNEntry<T> {
    open spec fn before(self, other: Self) -> bool {
        self.timestamp < other.timestamp || (self.timestamp == other.timestamp
            && self.item.before(other.item))
    }

    proof fn before_is_asymmetric(a: Self, b: Self) {
        if a.timestamp == b.timestamp {
            T::before_is_asymmetric(a.item, b.item);
        }
    }

    proof fn before_is_transitive(a: Self, b: Self, c: Self) {
        if a.timestamp == b.timestamp && b.timestamp == c.timestamp {
            T::before_is_transitive(a.item, b.item, c.item);
        }
    }

    proof fn tie_keeps_before(a: Self, b: Self, c: Self) {
        if b.timestamp == c.timestamp {
            T::tie_keeps_before(a.item, b.item, c.item);
        }
    }

    proof fn before_keeps_tie(a: Self, b: Self, c: Self) {
        if a.timestamp == b.timestamp {
            T::before_keeps_tie(a.item, b.item, c.item);
        }
    }

    fn rank(&self, other: &Self) -> (r: Rank) {
        if self.timestamp < other.timestamp {
            Rank::Before
        } else if self.timestamp > other.timestamp {
            Rank::After
        } else {
            self.item.rank(&other.item)
        }
    }

    fn duplicate(&self) -> (r: Self) {
        TopNEntry { timestamp: self.timestamp, item: self.item.duplicate() }
    }
}

/// Entries are equal where neither precedes the other.
impl<T: Ranked> PartialEq for TopNEntry<T> {
    fn eq(&self, other: &Self) -> (r: bool) {
        match self.rank(other) {
            Rank::Same => true,
            _ => false,
        }
    }
}

impl<T: Ranked> PartialEqSpecImpl for TopNEntry<T> {
    open spec fn obeys_eq_spec() -> bool {
        true
    }

    open spec fn eq_spec(&self, other: &Self) -> bool {
        tied(*self, *other)
    }
}

impl<T: Ranked> Eq for TopNEntry<T> {

}

/// Every element precedes all that follow it.
pub open spec fn ascending<T: Ranked>(s: Seq<T>) -> bool {
    forall|i: int, j: int| 0 <= i < j < s.len() ==> #[trigger] s[i].before(s[j])
}

/// `s` has an element tied with `e`.
pub open spec fn holds<T: Ranked>(s: Seq<T>, e: T) -> bool {
    exists|i: int| 0 <= i < s.len() && tied(#[trigger] s[i], e)
}

/// The place of `e` in `s`: one past the last element that precedes it.
pub open spec fn slot<T: Ranked>(s: Seq<T>, e: T) -> int
    decreases s.len(),
{
    if s.len() == 0 {
        0
    } else if s.last().before(e) {
        s.len() as int
    } else {
        slot(s.drop_last(), e)
    }
}

/// The last `n` elements of `s`, or all of `s` if it has no more than `n`.
pub open spec fn newest<T>(s: Seq<T>, n: nat) -> Seq<T> {
    if s.len() > n {
        s.subrange(s.len() - n, s.len() as int)
    } else {
        s
    }
}

/// What a history of the given capacity holds after `e` was put into `s`.
pub open spec fn with_entry<T: Ranked>(s: Seq<T>, e: T, capacity: nat) -> Seq<T> {
    if holds(s, e) {
        s
    } else {
        newest(s.insert(slot(s, e), e), capacity)
    }
}

/// What an empty history of the given capacity holds after every element of
/// `items` was put into it, first to last.
pub open spec fn after_all<T: Ranked>(items: Seq<T>, capacity: nat) -> Seq<T>
    decreases items.len(),
{
    if items.len() == 0 {
        Seq::empty()
    } else {
        with_entry(after_all(items.drop_last(), capacity), items.last(), capacity)
    }
}

/// The elements of `s` stamped at or after `timestamp`.
pub open spec fn since<T>(s: Seq<TopNEntry<T>>, timestamp: u64) -> Seq<TopNEntry<T>> {
    s.filter(|e: TopNEntry<T>| e.timestamp >= timestamp)
}

/// The elements of `s` stamped at or before `timestamp`.
pub open spec fn until<T>(s: Seq<TopNEntry<T>>, timestamp: u64) -> Seq<TopNEntry<T>> {
    s.filter(|e: TopNEntry<T>| e.timestamp <= timestamp)
}

/// In an ascending sequence everything before the slot of `e` precedes `e`,
/// and the slot is within the sequence's bounds.
pub proof fn slot_splits<T: Ranked>(s: Seq<T>, e: T)
    requires
        ascending(s),
    ensures
        0 <= slot(s, e) <= s.len(),
        forall|k: int| 0 <= k < slot(s, e) ==> #[trigger] s[k].before(e),
        forall|k: int| slot(s, e) <= k < s.len() ==> !#[trigger] s[k].before(e),
    decreases s.len(),
{
    if s.len() > 0 {
        if s.last().before(e) {
            assert forall|k: int| 0 <= k < s.len() implies #[trigger] s[k].before(e) by {
                if k < s.len() - 1 {
                    assert(s[k].before(s[s.len() - 1]));
                    T::before_is_transitive(s[k], s.last(), e);
                }
            }
        } else {
            let t = s.drop_last();
            assert forall|i: int, j: int| 0 <= i < j < t.len() implies #[trigger] t[i].before(
                t[j],
            ) by {
                assert(s[i].before(s[j]));
            }
            slot_splits(t, e);
            assert forall|k: int| 0 <= k < slot(s, e) implies #[trigger] s[k].before(e) by {
                assert(t[k].before(e));
            }
            assert forall|k: int| slot(s, e) <= k < s.len() implies !#[trigger] s[k].before(
                e,
            ) by {
                if k < t.len() {
                    assert(!t[k].before(e));
                }
            }
        }
    }
}

/// Putting an entry into a well-ordered history within its capacity leaves
/// it well ordered and within its capacity. A history that holds the entry
/// stays as it is; otherwise the entry goes to its slot, and the first
/// entry of the result leaves if the history was full.
pub proof fn with_entry_keeps_order<T: Ranked>(s: Seq<T>, e: T, capacity: nat)
    requires
        ascending(s),
        s.len() <= capacity,
    ensures
        ascending(with_entry(s, e, capacity)),
        with_entry(s, e, capacity).len() <= capacity,
        holds(s, e) ==> with_entry(s, e, capacity) == s,
        !holds(s, e) && s.len() < capacity ==> with_entry(s, e, capacity) == s.insert(
            slot(s, e),
            e,
        ),
        !holds(s, e) && s.len() == capacity ==> with_entry(s, e, capacity) == s.insert(
            slot(s, e),
            e,
        ).drop_first(),
        ascending(s.insert(slot(s, e), e)) || holds(s, e),
{
    if !holds(s, e) {
        slot_splits(s, e);
        let p = slot(s, e);
        let grown = s.insert(p, e);
        assert forall|k: int| p <= k < s.len() implies e.before(#[trigger] s[k]) by {
            assert(!s[k].before(e));
            assert(!tied(s[k], e));
        }
        assert forall|i: int, j: int| 0 <= i < j < grown.len() implies #[trigger] grown[i].before(
            grown[j],
        ) by {
            if j == p {
                assert(s[i].before(e));
            } else if i == p {
                assert(e.before(s[j - 1]));
            } else {
                let a = if i < p { i } else { i - 1 };
                let b = if j < p { j } else { j - 1 };
                assert(s[a].before(s[b]));
            }
        }
        if s.len() == capacity {
            let rest = grown.drop_first();
            assert(newest(grown, capacity) =~= rest);
            assert forall|i: int, j: int| 0 <= i < j < rest.len() implies #[trigger] rest[i].before(
                rest[j],
            ) by {
                assert(grown[i + 1].before(grown[j + 1]));
            }
        }
    }
}

/// Whatever sequence of entries is put into an empty history of capacity
/// `capacity`, the history ends up in ascending order without ties, holds at
/// most `capacity` entries, each of them one that was put in, and every entry
/// that was put in is either still held or precedes all that is held while
/// the history is full: what is kept is the `capacity` largest.
pub proof fn keeps_the_largest<T: Ranked>(items: Seq<T>, capacity: nat)
    ensures
        after_all(items, capacity).len() <= capacity,
        ascending(after_all(items, capacity)),
        forall|j: int|
            0 <= j < after_all(items, capacity).len() ==> items.contains(
                #[trigger] after_all(items, capacity)[j],
            ),
        forall|i: int|
            0 <= i < items.len() ==> holds(after_all(items, capacity), #[trigger] items[i]) || (
            after_all(items, capacity).len() == capacity && forall|j: int|
                0 <= j < after_all(items, capacity).len() ==> items[i].before(
                    #[trigger] after_all(items, capacity)[j],
                )),
    decreases items.len(),
{
    if items.len() > 0 {
        let earlier = items.drop_last();
        let e = items.last();
        let s = after_all(earlier, capacity);
        let r = after_all(items, capacity);
        keeps_the_largest(earlier, capacity);
        with_entry_keeps_order(s, e, capacity);
        slot_splits(s, e);
        let p = slot(s, e);
        let grown = s.insert(p, e);
        assert forall|j: int| 0 <= j < r.len() implies items.contains(#[trigger] r[j]) by {
            let x = r[j];
            if x == e {
                assert(items[items.len() - 1] == x);
            } else {
                assert(s.contains(x)) by {
                    if holds(s, e) {
                        assert(s[j] == x);
                    } else if s.len() < capacity {
                        let a = if j < p { j } else { j - 1 };
                        assert(s[a] == x);
                    } else {
                        let a = if j + 1 < p { j + 1 } else { j };
                        assert(grown[j + 1] == x);
                        assert(s[a] == x);
                    }
                }
                let a = choose|a: int| 0 <= a < s.len() && s[a] == x;
                assert(earlier.contains(s[a]));
                let b = choose|b: int| 0 <= b < earlier.len() && earlier[b] == x;
                assert(items[b] == x);
            }
        }
        assert forall|i: int| 0 <= i < items.len() implies holds(r, #[trigger] items[i]) || (
        r.len() == capacity && forall|j: int|
            0 <= j < r.len() ==> items[i].before(#[trigger] r[j])) by {
            let x = items[i];
            if holds(s, e) {
                if i == items.len() - 1 {
                } else {
                    assert(earlier[i] == x);
                }
            } else {
                never_before_itself(e);
                assert(tied(grown[p], e));
                if s.len() < capacity {
                    if i == items.len() - 1 {
                        assert(tied(r[p], x));
                    } else {
                        assert(earlier[i] == x);
                        assert(holds(s, x));
                        let a = choose|a: int| 0 <= a < s.len() && tied(#[trigger] s[a], x);
                        let b = if a < p { a } else { a + 1 };
                        assert(tied(r[b], x));
                    }
                } else {
                    // the history was full: the smallest of `grown` has left
                    assert(r =~= grown.drop_first());
                    let gone = grown[0];
                    assert forall|j: int| 0 <= j < r.len() implies gone.before(#[trigger] r[j]) by {
                        assert(grown[0].before(grown[j + 1]));
                    }
                    if i == items.len() - 1 {
                        if p > 0 {
                            assert(tied(r[p - 1], x));
                        } else {
                            assert(gone == x);
                        }
                    } else {
                        assert(earlier[i] == x);
                        if holds(s, x) {
                            let a = choose|a: int| 0 <= a < s.len() && tied(#[trigger] s[a], x);
                            let b = if a < p { a } else { a + 1 };
                            assert(grown[b] == s[a]);
                            if b > 0 {
                                assert(tied(r[b - 1], x));
                            } else {
                                assert forall|j: int| 0 <= j < r.len() implies x.before(
                                    #[trigger] r[j],
                                ) by {
                                    T::tie_keeps_before(x, gone, r[j]);
                                }
                            }
                        } else {
                            assert forall|j: int| 0 <= j < r.len() implies x.before(
                                #[trigger] r[j],
                            ) by {
                                if j + 1 == p {
                                    if p > 0 {
                                        assert(x.before(s[0]));
                                        assert(s[0].before(e));
                                        T::before_is_transitive(x, s[0], e);
                                    }
                                } else {
                                    let a = if j + 1 < p { j + 1 } else { j };
                                    assert(r[j] == s[a]);
                                    assert(x.before(s[a]));
                                }
                            }
                        }
                    }
                }
            }
        }
    }
}

/// Putting the same entry in twice is the same as putting it in once.
pub proof fn insert_is_idempotent<T: Ranked>(s: Seq<T>, e: T, capacity: nat)
    requires
        ascending(s),
        s.len() <= capacity,
    ensures
        with_entry(with_entry(s, e, capacity), e, capacity) == with_entry(s, e, capacity),
{
    if !holds(s, e) {
        with_entry_keeps_order(s, e, capacity);
        slot_splits(s, e);
        let p = slot(s, e);
        let grown = s.insert(p, e);
        let r = with_entry(s, e, capacity);
        never_before_itself(e);
        assert(tied(grown[p], e));
        if s.len() < capacity {
            assert(tied(r[p], e));
        } else if p > 0 {
            assert(r =~= grown.drop_first());
            assert(tied(r[p - 1], e));
        } else {
            assert(r =~= s);
        }
    }
}

/// A snapshot gives the history back: what `get_all` returns of a history,
/// handed to `new` with the history's capacity, or any capacity that the
/// entries fit, makes a history with the same entries in the same order.
pub proof fn snapshot_restores<T: Ranked>(s: Seq<T>, capacity: nat)
    requires
        ascending(s),
        s.len() <= capacity,
    ensures
        after_all(s, capacity) == s,
    decreases s.len(),
{
    if s.len() > 0 {
        let t = s.drop_last();
        let e = s.last();
        assert forall|i: int, j: int| 0 <= i < j < t.len() implies #[trigger] t[i].before(
            t[j],
        ) by {
            assert(s[i].before(s[j]));
        }
        snapshot_restores(t, capacity);
        assert forall|k: int| 0 <= k < t.len() implies !tied(#[trigger] t[k], e) by {
            assert(s[k].before(s[s.len() - 1]));
        }
        if t.len() > 0 {
            assert(t.last().before(e)) by {
                assert(s[t.len() - 1].before(s[s.len() - 1]));
            }
        }
        assert(slot(t, e) == t.len());
        assert(t.insert(t.len() as int, e) =~= s);
    } else {
        assert(s =~= Seq::<T>::empty());
    }
}

/// What is picked out of an ascending sequence is ascending, and each
/// element picked is one of the sequence.
pub proof fn picked_stay_ascending<T: Ranked>(s: Seq<T>, keep: spec_fn(T) -> bool)
    requires
        ascending(s),
    ensures
        ascending(s.filter(keep)),
        forall|j: int| 0 <= j < s.filter(keep).len() ==> s.contains(#[trigger] s.filter(keep)[j]),
    decreases s.len(),
{
    reveal(Seq::filter);
    if s.len() > 0 {
        let init = s.drop_last();
        let last = s.last();
        assert forall|i: int, j: int| 0 <= i < j < init.len() implies #[trigger] init[i].before(
            init[j],
        ) by {
            assert(s[i].before(s[j]));
        }
        picked_stay_ascending(init, keep);
        let f = init.filter(keep);
        let now = s.filter(keep);
        assert forall|j: int| 0 <= j < now.len() implies s.contains(#[trigger] now[j]) by {
            if j < f.len() {
                assert(init.contains(f[j]));
                let k = choose|k: int| 0 <= k < init.len() && init[k] == f[j];
                assert(s[k] == now[j]);
            } else {
                assert(s[s.len() - 1] == now[j]);
            }
        }
        assert forall|i: int, j: int| 0 <= i < j < now.len() implies #[trigger] now[i].before(
            now[j],
        ) by {
            if j < f.len() {
                assert(f[i].before(f[j]));
            } else {
                assert(init.contains(f[i]));
                let k = choose|k: int| 0 <= k < init.len() && init[k] == f[i];
                assert(s[k].before(s[s.len() - 1]));
            }
        }
    }
}

/// What a query by time returns of a history is in ascending order.
pub proof fn queries_are_ascending<T: Ranked>(s: Seq<TopNEntry<T>>, timestamp: u64)
    requires
        ascending(s),
    ensures
        ascending(since(s, timestamp)),
        ascending(until(s, timestamp)),
{
    picked_stay_ascending(s, |e: TopNEntry<T>| e.timestamp >= timestamp);
    picked_stay_ascending(s, |e: TopNEntry<T>| e.timestamp <= timestamp);
}

/// Copies of the entries stamped at or after `timestamp`, in their order.
pub fn entries_since<T: Ranked>(entries: &Vec<TopNEntry<T>>, timestamp: u64) -> (r: Vec<
    TopNEntry<T>,
>)
    ensures
        r@ == since(entries@, timestamp),
{
    let mut out: Vec<TopNEntry<T>> = Vec::new();
    let mut i: usize = 0;
    let ghost keep = |e: TopNEntry<T>| e.timestamp >= timestamp;
    assert(entries@.subrange(0, 0) =~= Seq::empty());
    while i < entries.len()
        invariant
            i <= entries.len(),
            keep == (|e: TopNEntry<T>| e.timestamp >= timestamp),
            out@ == entries@.subrange(0, i as int).filter(keep),
        decreases entries.len() - i,
    {
        proof {
            assert(entries@.subrange(0, i + 1).drop_last() =~= entries@.subrange(0, i as int));
            reveal(Seq::filter);
        }
        if entries[i].timestamp >= timestamp {
            out.push(entries[i].duplicate());
        }
        i = i + 1;
    }
    assert(entries@.subrange(0, i as int) =~= entries@);
    out
}

/// Copies of the entries stamped at or before `timestamp`, in their order.
pub fn entries_until<T: Ranked>(entries: &Vec<TopNEntry<T>>, timestamp: u64) -> (r: Vec<
    TopNEntry<T>,
>)
    ensures
        r@ == until(entries@, timestamp),
{
    let mut out: Vec<TopNEntry<T>> = Vec::new();
    let mut i: usize = 0;
    let ghost keep = |e: TopNEntry<T>| e.timestamp <= timestamp;
    assert(entries@.subrange(0, 0) =~= Seq::empty());
    while i < entries.len()
        invariant
            i <= entries.len(),
            keep == (|e: TopNEntry<T>| e.timestamp <= timestamp),
            out@ == entries@.subrange(0, i as int).filter(keep),
        decreases entries.len() - i,
    {
        proof {
            assert(entries@.subrange(0, i + 1).drop_last() =~= entries@.subrange(0, i as int));
            reveal(Seq::filter);
        }
        if entries[i].timestamp <= timestamp {
            out.push(entries[i].duplicate());
        }
        i = i + 1;
    }
    assert(entries@.subrange(0, i as int) =~= entries@);
    out
}

/// A capacity-bounded history of timestamped records.
#[derive(Debug)]
pub struct TopN<T: Ranked> {
    set: Vec<TopNEntry<T>>,
    capacity: usize,
}

impl<T: Ranked> View for TopN<T> {
    type V = Seq<TopNEntry<T>>;

    /// The entries, oldest first.
    closed spec fn view(&self) -> Seq<TopNEntry<T>> {
        self.set@
    }
}

/// Two sequences of the same length whose elements are tied pair by pair.
pub open spec fn same_entries<T: Ranked>(a: Seq<T>, b: Seq<T>) -> bool {
    &&& a.len() == b.len()
    &&& forall|i: int| 0 <= i < a.len() ==> tied(#[trigger] a[i], b[i])
}

/// Histories are equal where they have the same capacity and the same
/// entries.
impl<T: Ranked> PartialEq for TopN<T> {
    fn eq(&self, other: &Self) -> (r: bool) {
        if self.capacity != other.capacity || self.set.len() != other.set.len() {
            return false;
        }
        let mut i: usize = 0;
        while i < self.set.len()
            invariant
                i <= self.set.len(),
                self.set.len() == other.set.len(),
                forall|k: int| 0 <= k < i ==> tied(#[trigger] self.set@[k], other.set@[k]),
            decreases self.set.len() - i,
        {
            match self.set[i].rank(&other.set[i]) {
                Rank::Same => {},
                _ => {
                    assert(!tied(self.set@[i as int], other.set@[i as int]));
                    return false;
                },
            }
            i = i + 1;
        }
        true
    }
}

impl<T: Ranked> PartialEqSpecImpl for TopN<T> {
    open spec fn obeys_eq_spec() -> bool {
        true
    }

    open spec fn eq_spec(&self, other: &Self) -> bool {
        self.cap() == other.cap() && same_entries(self@, other@)
    }
}

impl<T: Ranked> Eq for TopN<T> {

}

impl<T: Ranked> Clone for TopN<T> {
    fn clone(&self) -> (r: Self)
        ensures
            r@ == self@,
            r.cap() == self.cap(),
    {
        TopN { set: self.get_all(), capacity: self.capacity }
    }
}

impl<T: Ranked> TopN<T> {
    /// The most entries the history keeps.
    pub closed spec fn cap(&self) -> nat {
        self.capacity as nat
    }

    /// The entries are in ascending order, which also means that none occurs
    /// twice, and there are no more of them than the capacity. This holds of
    /// every history at all times.
    #[verifier::type_invariant]
    pub open spec fn wf(&self) -> bool {
        &&& ascending(self@)
        &&& self@.len() <= self.cap()
    }

    /// An empty history, or the history that holds what is left after every
    /// entry of `set` was put into an empty one.
    pub fn new(capacity: usize, set: Option<Vec<TopNEntry<T>>>) -> (r: Self)
        ensures
            r.wf(),
            r.cap() == capacity,
            r@ == match set {
                Some(entries) => after_all(entries@, capacity as nat),
                None => Seq::empty(),
            },
    {
        let mut r = TopN { set: Vec::new(), capacity };
        match set {
            None => {},
            Some(entries) => {
                let mut i: usize = 0;
                assert(entries@.subrange(0, 0) =~= Seq::empty());
                while i < entries.len()
                    invariant
                        i <= entries.len(),
                        r.wf(),
                        r.cap() == capacity,
                        r@ == after_all(entries@.subrange(0, i as int), capacity as nat),
                    decreases entries.len() - i,
                {
                    assert(entries@.subrange(0, i + 1).drop_last() =~= entries@.subrange(
                        0,
                        i as int,
                    ));
                    r.insert(entries[i].duplicate());
                    i = i + 1;
                }
                assert(entries@.subrange(0, i as int) =~= entries@);
            },
        }
        r
    }

    /// Puts an entry in. Nothing changes if the history holds it already;
    /// otherwise it takes its place in the order, and the smallest entry
    /// leaves if the history then holds more than its capacity.
    pub fn insert(&mut self, item: TopNEntry<T>)
        ensures
            final(self).wf(),
            final(self).cap() == old(self).cap(),
            final(self)@ == with_entry(old(self)@, item, old(self).cap()),
    {
        proof {
            use_type_invariant(&*self);
        }
        let ghost s = self.set@;
        let mut i: usize = self.set.len();
        let mut found = false;
        assert(s.subrange(0, i as int) =~= s);
        while i > 0 && !found
            invariant
                i <= s.len(),
                self.set@ == s,
                self.capacity == old(self).capacity,
                s.len() <= self.capacity,
                ascending(s),
                forall|k: int| i <= k < s.len() ==> item.before(#[trigger] s[k]),
                slot(s, item) == slot(s.subrange(0, i as int), item),
                found ==> i > 0 && s[i - 1].before(item),
            decreases i + (if found { 0int } else { 1int }),
        {
            match self.set[i - 1].rank(&item) {
                Rank::Before => {
                    found = true;
                },
                Rank::Same => {
                    assert(tied(s[i - 1], item));
                    assert(holds(s, item));
                    return ;
                },
                Rank::After => {
                    assert(s.subrange(0, i as int).drop_last() =~= s.subrange(0, i - 1));
                    i = i - 1;
                },
            }
        }
        proof {
            slot_splits(s, item);
            assert(slot(s, item) == i);
            assert forall|k: int| 0 <= k < s.len() implies !tied(#[trigger] s[k], item) by {
                if k < i {
                    assert(s[k].before(item));
                }
            }
            with_entry_keeps_order(s, item, self.capacity as nat);
        }
        // the entries leave the history while they are out of order
        let capacity = self.capacity;
        let mut taken = TopN { set: Vec::new(), capacity };
        std::mem::swap(self, &mut taken);
        let mut set = taken.set;
        set.insert(i, item);
        if set.len() > capacity {
            set.remove(0);
            assert(set@ =~= s.insert(i as int, item).drop_first());
        }
        *self = TopN { set, capacity };
    }

    pub fn is_empty(&self) -> (r: bool)
        ensures
            r == (self@.len() == 0),
    {
        self.set.is_empty()
    }

    pub fn get_capacity(&self) -> (r: usize)
        ensures
            r == self.cap(),
    {
        self.capacity
    }

    /// The entries stamped at or after `timestamp`, oldest first.
    pub fn get_gte_timestamp(&self, timestamp: u64) -> (r: Vec<TopNEntry<T>>)
        ensures
            r@ == since(self@, timestamp),
            self.wf(),
    {
        proof {
            use_type_invariant(self);
        }
        entries_since(&self.set, timestamp)
    }

    /// The entries stamped at or before `timestamp`, oldest first.
    pub fn get_lte_timestamp(&self, timestamp: u64) -> (r: Vec<TopNEntry<T>>)
        ensures
            r@ == until(self@, timestamp),
            self.wf(),
    {
        proof {
            use_type_invariant(self);
        }
        entries_until(&self.set, timestamp)
    }

    /// All entries, oldest first.
    pub fn get_all(&self) -> (r: Vec<TopNEntry<T>>)
        ensures
            r@ == self@,
            self.wf(),
    {
        proof {
            use_type_invariant(self);
        }
        let mut out: Vec<TopNEntry<T>> = Vec::new();
        let mut i: usize = 0;
        while i < self.set.len()
            invariant
                i <= self.set.len(),
                out@ == self.set@.subrange(0, i as int),
            decreases self.set.len() - i,
        {
            out.push(self.set[i].duplicate());
            assert(out@ =~= self.set@.subrange(0, i + 1));
            i = i + 1;
        }
        assert(self.set@.subrange(0, i as int) =~= self.set@);
        out
    }

    pub fn clear(&mut self)
        ensures
            final(self)@ == Seq::<TopNEntry<T>>::empty(),
            final(self).cap() == old(self).cap(),
            final(self).wf(),
    {
        *self = TopN { set: Vec::new(), capacity: self.capacity };
    }
}

} // verus!
