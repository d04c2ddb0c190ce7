//! Semi-open intervals `[start, end)` over any ordered, copyable coordinate,
//! with a small set algebra (intersection, span union, one-piece difference)
//! and the lexicographic order on `(start, end)`.
//!
//! What the functions return is stated for every coordinate type whose
//! comparisons follow their specification; the algebraic laws are proved for
//! every coordinate type whose order is total.

use std::cmp::Ordering;
use std::ops::{BitAnd, BitOr, Sub};
use vstd::prelude::*;
use vstd::std_specs::cmp::{PartialEqSpec, PartialOrdSpec, PartialOrdSpecImpl};
use vstd::std_specs::ops::{BitAndSpecImpl, BitOrSpecImpl, SubSpecImpl};

verus! {

/// A semi-open interval `[start, end)`.
///
/// Every segment made by [`Segment::new`] has `start <= end` where the two
/// bounds can be compared; see [`Segment::wf`].
#[derive(Debug, Clone, Copy, PartialEq, Eq, Ord, Hash)]
pub struct Segment<T> {
    pub start: T,
    pub end: T,
}

/// `a < b`.
pub open spec fn below<T: PartialOrd>(a: T, b: T) -> bool {
    a.partial_cmp_spec(&b) == Some(Ordering::Less)
}

/// `a <= b`.
pub open spec fn at_most<T: PartialOrd>(a: T, b: T) -> bool {
    a.partial_cmp_spec(&b) matches Some(Ordering::Less | Ordering::Equal)
}

/// `a > b`.
pub open spec fn above<T: PartialOrd>(a: T, b: T) -> bool {
    a.partial_cmp_spec(&b) == Some(Ordering::Greater)
}

/// `a >= b`.
pub open spec fn at_least<T: PartialOrd>(a: T, b: T) -> bool {
    a.partial_cmp_spec(&b) matches Some(Ordering::Greater | Ordering::Equal)
}

/// The smaller of two coordinates; the second where they cannot be compared.
pub open spec fn lower<T: PartialOrd>(a: T, b: T) -> T {
    if at_most(a, b) {
        a
    } else {
        b
    }
}

/// The larger of two coordinates; the second where they cannot be compared.
pub open spec fn upper<T: PartialOrd>(a: T, b: T) -> T {
    if at_least(a, b) {
        a
    } else {
        b
    }
}

/// The comparisons of `T` follow their specification, any two values can be
/// compared, two values are equal or compare equal exactly when they are the
/// same value, and the order is antisymmetric and transitive.
pub open spec fn is_total_order<T: PartialOrd>() -> bool {
    &&& T::obeys_partial_cmp_spec()
    &&& T::obeys_eq_spec()
    &&& forall|x: T, y: T| #[trigger] x.eq_spec(&y) <==> x == y
    &&& forall|x: T, y: T| (#[trigger] x.partial_cmp_spec(&y)).is_some()
    &&& forall|x: T, y: T| #[trigger] x.partial_cmp_spec(&y) == Some(Ordering::Equal) <==> x == y
    &&& forall|x: T, y: T| #[trigger]
        x.partial_cmp_spec(&y) == Some(Ordering::Less) <==> y.partial_cmp_spec(&x) == Some(
            Ordering::Greater,
        )
    &&& forall|x: T, y: T, z: T|
        at_most(x, y) && at_most(y, z) ==> at_most(x, z)
}

impl<T: PartialOrd> Segment<T> {
    /// How `self` stands to `other` in the lexicographic order on
    /// `(start, end)`.
    pub open spec fn compared_to(self, other: Segment<T>) -> Option<Ordering> {
        match self.start.partial_cmp_spec(&other.start) {
            Some(Ordering::Equal) => self.end.partial_cmp_spec(&other.end),
            decided => decided,
        }
    }
}

impl<T: PartialOrd + Copy> Segment<T> {
    /// The bounds are in order.
    pub open spec fn wf(self) -> bool {
        at_most(self.start, self.end)
    }

    /// The segment between two coordinates: they are swapped where the first
    /// is the larger.
    pub open spec fn spanning(a: T, b: T) -> Segment<T> {
        if above(a, b) {
            Segment { start: b, end: a }
        } else {
            Segment { start: a, end: b }
        }
    }

    /// The empty segment that sits at `at`.
    pub open spec fn empty_at(at: T) -> Segment<T> {
        Segment { start: at, end: at }
    }

    /// `value` lies in `[start, end)`.
    pub open spec fn has_point(self, value: T) -> bool {
        at_most(self.start, value) && below(value, self.end)
    }

    /// `other` lies within the bounds of `self`.
    pub open spec fn covers(self, other: Segment<T>) -> bool {
        at_most(self.start, other.start) && at_most(other.end, self.end)
    }

    /// The overlap of two segments; where they do not overlap, the empty
    /// segment at the larger of the two starts.
    pub open spec fn overlap(self, rhs: Segment<T>) -> Segment<T> {
        let start = upper(self.start, rhs.start);
        let end = lower(self.end, rhs.end);
        if at_least(start, end) {
            Segment::empty_at(start)
        } else {
            Segment::spanning(start, end)
        }
    }

    /// The smallest segment that covers both operands, gap included.
    pub open spec fn span(self, rhs: Segment<T>) -> Segment<T> {
        Segment::spanning(lower(self.start, rhs.start), upper(self.end, rhs.end))
    }

    /// What is left of `self` once `rhs` is taken away, as one segment: all
    /// of `self` where the two do not overlap; nothing, as the empty segment
    /// at `self.start`, where `rhs` covers `self`; the part before `rhs`
    /// where `rhs` starts inside `self`; the part after `rhs` where `rhs`
    /// starts before `self` and ends inside it; and the empty segment at
    /// `self.start` in what remains.
    pub open spec fn remainder(self, rhs: Segment<T>) -> Segment<T> {
        if at_most(self.end, rhs.start) || at_most(rhs.end, self.start) {
            self
        } else if at_most(rhs.start, self.start) && at_most(self.end, rhs.end) {
            Segment::empty_at(self.start)
        } else if below(self.start, rhs.start) && below(rhs.start, self.end) {
            Segment::spanning(self.start, rhs.start)
        } else if below(rhs.start, self.start) && below(self.start, rhs.end) && below(
            rhs.end,
            self.end,
        ) {
            Segment::spanning(rhs.end, self.end)
        } else {
            Segment::empty_at(self.start)
        }
    }

    /// Makes the segment between `a` and `b`, whichever is the larger.
    pub fn new(a: T, b: T) -> (s: Segment<T>)
        ensures
            T::obeys_partial_cmp_spec() ==> s == Segment::spanning(a, b),
    {
        if a > b {
            Segment { start: b, end: a }
        } else {
            Segment { start: a, end: b }
        }
    }

    /// The inclusive lower bound.
    pub fn start(&self) -> (v: T)
        ensures
            v == self.start,
    {
        self.start
    }

    /// The exclusive upper bound.
    pub fn end(&self) -> (v: T)
        ensures
            v == self.end,
    {
        self.end
    }

    /// Whether `value` lies in the segment; the upper bound itself does not.
    pub fn contains(&self, value: T) -> (r: bool)
        ensures
            T::obeys_partial_cmp_spec() ==> r == self.has_point(value),
    {
        self.start <= value && value < self.end
    }

    /// Whether `other` lies within the bounds of `self`.
    pub fn contains_segment(&self, other: &Segment<T>) -> (r: bool)
        ensures
            T::obeys_partial_cmp_spec() ==> r == self.covers(*other),
    {
        self.start <= other.start && other.end <= self.end
    }

    /// Whether the two bounds are equal, so that the segment holds no point.
    pub fn is_empty(&self) -> (r: bool)
        ensures
            T::obeys_eq_spec() ==> r == self.start.eq_spec(&self.end),
    {
        self.start == self.end
    }

    /// The overlap of `self` and `rhs`.
    pub fn intersection(self, rhs: Segment<T>) -> (s: Segment<T>)
        ensures
            T::obeys_partial_cmp_spec() ==> s == self.overlap(rhs),
    {
        let start = if self.start >= rhs.start {
            self.start
        } else {
            rhs.start
        };
        let end = if self.end <= rhs.end {
            self.end
        } else {
            rhs.end
        };
        if start >= end {
            Segment { start, end: start }
        } else {
            Segment::new(start, end)
        }
    }

    /// The span of `self` and `rhs`.
    pub fn union(self, rhs: Segment<T>) -> (s: Segment<T>)
        ensures
            T::obeys_partial_cmp_spec() ==> s == self.span(rhs),
    {
        let start = if self.start <= rhs.start {
            self.start
        } else {
            rhs.start
        };
        let end = if self.end >= rhs.end {
            self.end
        } else {
            rhs.end
        };
        Segment::new(start, end)
    }

    /// `self` without `rhs`, as one segment.
    pub fn difference(self, rhs: Segment<T>) -> (s: Segment<T>)
        ensures
            T::obeys_partial_cmp_spec() ==> s == self.remainder(rhs),
    {
        if self.end <= rhs.start || rhs.end <= self.start {
            return self;
        }
        if rhs.start <= self.start && self.end <= rhs.end {
            return Segment { start: self.start, end: self.start };
        }
        if self.start < rhs.start && rhs.start < self.end {
            return Segment::new(self.start, rhs.start);
        }
        if rhs.start < self.start && self.start < rhs.end && rhs.end < self.end {
            return Segment::new(rhs.end, self.end);
        }
        Segment { start: self.start, end: self.start }
    }
}

impl<T: PartialOrd + Copy> BitAnd for Segment<T> {
    type Output = Segment<T>;

    fn bitand(self, rhs: Segment<T>) -> (s: Segment<T>) {
        self.intersection(rhs)
    }
}

impl<T: PartialOrd + Copy> BitAndSpecImpl for Segment<T> {
    open spec fn obeys_bitand_spec() -> bool {
        T::obeys_partial_cmp_spec()
    }

    open spec fn bitand_req(self, rhs: Segment<T>) -> bool {
        true
    }

    open spec fn bitand_spec(self, rhs: Segment<T>) -> Segment<T> {
        self.overlap(rhs)
    }
}

impl<T: PartialOrd + Copy> BitOr for Segment<T> {
    type Output = Segment<T>;

    fn bitor(self, rhs: Segment<T>) -> (s: Segment<T>) {
        self.union(rhs)
    }
}

impl<T: PartialOrd + Copy> BitOrSpecImpl for Segment<T> {
    open spec fn obeys_bitor_spec() -> bool {
        T::obeys_partial_cmp_spec()
    }

    open spec fn bitor_req(self, rhs: Segment<T>) -> bool {
        true
    }

    open spec fn bitor_spec(self, rhs: Segment<T>) -> Segment<T> {
        self.span(rhs)
    }
}

impl<T: PartialOrd + Copy> Sub for Segment<T> {
    type Output = Segment<T>;

    fn sub(self, rhs: Segment<T>) -> (s: Segment<T>) {
        self.difference(rhs)
    }
}

impl<T: PartialOrd + Copy> SubSpecImpl for Segment<T> {
    open spec fn obeys_sub_spec() -> bool {
        T::obeys_partial_cmp_spec()
    }

    open spec fn sub_req(self, rhs: Segment<T>) -> bool {
        true
    }

    open spec fn sub_spec(self, rhs: Segment<T>) -> Segment<T> {
        self.remainder(rhs)
    }
}

impl<T: PartialOrd> PartialOrd for Segment<T> {
    fn partial_cmp(&self, other: &Segment<T>) -> (r: Option<Ordering>) {
        match self.start.partial_cmp(&other.start) {
            Some(Ordering::Equal) => self.end.partial_cmp(&other.end),
            decided => decided,
        }
    }
}

impl<T: PartialOrd> PartialOrdSpecImpl for Segment<T> {
    open spec fn obeys_partial_cmp_spec() -> bool {
        T::obeys_partial_cmp_spec()
    }

    open spec fn partial_cmp_spec(&self, other: &Segment<T>) -> Option<Ordering> {
        self.compared_to(*other)
    }
}

/// The 64-bit integers are totally ordered.
pub proof fn integers_are_totally_ordered()
    ensures
        is_total_order::<i64>(),
{
}

/// The two bounds may be given in either order: the segment is the same, and
/// its bounds are in order.
pub proof fn new_ignores_argument_order<T: PartialOrd + Copy>(a: T, b: T)
    requires
        is_total_order::<T>(),
    ensures
        Segment::spanning(a, b) == Segment::spanning(b, a),
        Segment::spanning(a, b).wf(),
        Segment::spanning(a, b).start == lower(a, b),
        Segment::spanning(a, b).end == upper(a, b),
{
    let forth = a.partial_cmp_spec(&b);
    let back = b.partial_cmp_spec(&a);
    assert(forth.is_some() && back.is_some());
    assert(forth == Some(Ordering::Less) <==> back == Some(Ordering::Greater));
    if !above(a, b) && !above(b, a) {
        assert(forth == Some(Ordering::Equal));
    }
}

/// `is_empty` tells whether the two bounds are the same value. A segment
/// whose bounds differ holds its own start, so it is not empty; one whose
/// bounds are the same holds no point at all.
pub proof fn emptiness_is_equal_bounds<T: PartialOrd + Copy>(s: Segment<T>)
    requires
        is_total_order::<T>(),
        s.wf(),
    ensures
        s.start.eq_spec(&s.end) <==> s.start == s.end,
        s.start != s.end ==> s.has_point(s.start),
        s.start == s.end ==> forall|v: T| !s.has_point(v),
{
    if s.start == s.end {
        assert forall|v: T| !s.has_point(v) by {
            if s.has_point(v) {
                assert(at_most(s.start, v));
                assert(below(v, s.start));
            }
        }
    }
}

/// Every segment covers itself, the empty ones too.
pub proof fn covers_is_reflexive<T: PartialOrd + Copy>(s: Segment<T>)
    requires
        is_total_order::<T>(),
    ensures
        s.covers(s),
{
}

/// The overlap of two segments does not depend on which is named first.
pub proof fn overlap_is_commutative<T: PartialOrd + Copy>(s1: Segment<T>, s2: Segment<T>)
    requires
        is_total_order::<T>(),
    ensures
        s1.overlap(s2) == s2.overlap(s1),
        s1.overlap(s2).wf(),
{
}

/// The span of two segments does not depend on which is named first, and it
/// covers both of two segments whose bounds are in order.
pub proof fn span_is_commutative_and_covers_both<T: PartialOrd + Copy>(
    s1: Segment<T>,
    s2: Segment<T>,
)
    requires
        is_total_order::<T>(),
    ensures
        s1.span(s2) == s2.span(s1),
        s1.wf() && s2.wf() ==> s1.span(s2).covers(s1) && s1.span(s2).covers(s2),
        s1.span(s2).wf(),
{
}

/// What is left after taking `rhs` away lies within `self`, with its bounds
/// in order.
pub proof fn remainder_stays_within<T: PartialOrd + Copy>(s: Segment<T>, rhs: Segment<T>)
    requires
        is_total_order::<T>(),
        s.wf(),
    ensures
        s.covers(s.remainder(rhs)),
        s.remainder(rhs).wf(),
{
}

/// Two segments compare equal exactly when both bounds are the same, and of
/// two different segments one comes before the other.
pub proof fn order_is_total_on_bounds<T: PartialOrd + Copy>(s1: Segment<T>, s2: Segment<T>)
    requires
        is_total_order::<T>(),
    ensures
        s1.compared_to(s2) == Some(Ordering::Equal) <==> s1 == s2,
        s1.compared_to(s2).is_some(),
        s1.compared_to(s2) == Some(Ordering::Less) <==> s2.compared_to(s1) == Some(
            Ordering::Greater,
        ),
{
}

} // verus!
