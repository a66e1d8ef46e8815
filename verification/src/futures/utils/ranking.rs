//! Orderings that the bounded history sorts by.
//!
//! A history keeps its entries in ascending order and treats two entries that
//! neither precede nor follow each other as the same entry. `Ranked` is what a
//! type has to offer for that: a strict order in which ties are transitive,
//! a way to compute it, and a way to copy a value.

use vstd::prelude::*;

verus! {

/// How one value stands to another.
#[derive(Clone, Copy, Debug, PartialEq, Eq, Structural)]
pub enum Rank {
    Before,
    Same,
    After,
}

pub trait Ranked: Sized {
    /// `self` comes strictly before `other`.
    spec fn before(self, other: Self) -> bool;

    proof fn before_is_asymmetric(a: Self, b: Self)
        requires
            a.before(b),
        ensures
            !b.before(a),
    ;

    proof fn before_is_transitive(a: Self, b: Self, c: Self)
        requires
            a.before(b),
            b.before(c),
        ensures
            a.before(c),
    ;

    /// A value tied with one that precedes `c` precedes `c` too.
    proof fn tie_keeps_before(a: Self, b: Self, c: Self)
        requires
            !a.before(b),
            !b.before(a),
            b.before(c),
        ensures
            a.before(c),
    ;

    /// A value that precedes one tied with `c` precedes `c` too.
    proof fn before_keeps_tie(a: Self, b: Self, c: Self)
        requires
            a.before(b),
            !b.before(c),
            !c.before(b),
        ensures
            a.before(c),
    ;

    fn rank(&self, other: &Self) -> (r: Rank)
        ensures
            (r is Before) == self.before(*other),
            (r is After) == other.before(*self),
    ;

    fn duplicate(&self) -> (r: Self)
        ensures
            r == *self,
    ;
}

/// Numbers are ranked by size.
impl Ranked for u32 {
    open spec fn before(self, other: Self) -> bool {
        self < other
    }

    proof fn before_is_asymmetric(a: Self, b: Self) {
    }

    proof fn before_is_transitive(a: Self, b: Self, c: Self) {
    }

    proof fn tie_keeps_before(a: Self, b: Self, c: Self) {
    }

    proof fn before_keeps_tie(a: Self, b: Self, c: Self) {
    }

    fn rank(&self, other: &Self) -> (r: Rank) {
        if *self < *other {
            Rank::Before
        } else if *self > *other {
            Rank::After
        } else {
            Rank::Same
        }
    }

    fn duplicate(&self) -> (r: Self) {
        *self
    }
}

/// Numbers are ranked by size.
impl Ranked for u64 {
    open spec fn before(self, other: Self) -> bool {
        self < other
    }

    proof fn before_is_asymmetric(a: Self, b: Self) {
    }

    proof fn before_is_transitive(a: Self, b: Self, c: Self) {
    }

    proof fn tie_keeps_before(a: Self, b: Self, c: Self) {
    }

    proof fn before_keeps_tie(a: Self, b: Self, c: Self) {
    }

    fn rank(&self, other: &Self) -> (r: Rank) {
        if *self < *other {
            Rank::Before
        } else if *self > *other {
            Rank::After
        } else {
            Rank::Same
        }
    }

    fn duplicate(&self) -> (r: Self) {
        *self
    }
}

/// Neither value precedes the other: to a history they are one entry.
pub open spec fn tied<T: Ranked>(a: T, b: T) -> bool {
    !a.before(b) && !b.before(a)
}

/// No value precedes itself.
pub proof fn never_before_itself<T: Ranked>(a: T)
    ensures
        !a.before(a),
        tied(a, a),
{
    if a.before(a) {
        T::before_is_asymmetric(a, a);
    }
}

/// The order of two texts: character by character, by code point, a proper
/// prefix before the longer text.
pub open spec fn text_before(a: Seq<char>, b: Seq<char>) -> bool
    decreases a.len(),
{
    if b.len() == 0 {
        false
    } else if a.len() == 0 {
        true
    } else if a[0] != b[0] {
        (a[0] as int) < (b[0] as int)
    } else {
        text_before(a.drop_first(), b.drop_first())
    }
}

pub proof fn text_before_is_asymmetric(a: Seq<char>, b: Seq<char>)
    requires
        text_before(a, b),
    ensures
        !text_before(b, a),
        a != b,
    decreases a.len(),
{
    if a.len() > 0 && b.len() > 0 && a[0] == b[0] {
        text_before_is_asymmetric(a.drop_first(), b.drop_first());
        if a == b {
            assert(a.drop_first() == b.drop_first());
        }
    }
}

pub proof fn text_before_is_transitive(a: Seq<char>, b: Seq<char>, c: Seq<char>)
    requires
        text_before(a, b),
        text_before(b, c),
    ensures
        text_before(a, c),
    decreases a.len(),
{
    if a.len() > 0 && a[0] == b[0] && b[0] == c[0] {
        text_before_is_transitive(a.drop_first(), b.drop_first(), c.drop_first());
    }
}

/// Of two different texts one comes before the other.
pub proof fn text_before_is_total(a: Seq<char>, b: Seq<char>)
    requires
        !text_before(a, b),
        !text_before(b, a),
    ensures
        a == b,
    decreases a.len(),
{
    if a.len() > 0 && b.len() > 0 {
        text_before_is_total(a.drop_first(), b.drop_first());
        assert(a =~= seq![a[0]] + a.drop_first());
        assert(b =~= seq![b[0]] + b.drop_first());
    } else {
        assert(a =~= b);
    }
}

} // verus!
