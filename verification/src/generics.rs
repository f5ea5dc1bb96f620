//! Code that is written once for many types.

use vstd::prelude::*;
use vstd::std_specs::cmp::{PartialOrdIs, PartialOrdSpec};

verus! {

/// Whether comparing two values of `T` gives what the order of `T` says.
pub open spec fn compares_by_its_order<T: PartialOrd>() -> bool {
    T::obeys_partial_cmp_spec()
}

/// The largest of the first `n` items of `list`, found by going through
/// them from the front and keeping an item only if it is greater than the
/// one kept so far.
pub open spec fn largest_among<T: PartialOrd>(list: Seq<T>, n: int) -> T
    decreases n,
{
    if n <= 0 {
        list[0]
    } else {
        let best = largest_among(list, n - 1);
        if list[n - 1].is_gt(&best) {
            list[n - 1]
        } else {
            best
        }
    }
}

/// The largest item of `list`: of equal items, the first.
pub fn largest<T: PartialOrd + Copy>(list: &[T]) -> (best: T)
    requires
        list@.len() > 0,
        compares_by_its_order::<T>(),
    ensures
        best == largest_among(list@, list@.len() as int),
{
    let mut best = list[0];
    let mut i: usize = 0;
    while i < list.len()
        invariant
            i <= list.len(),
            list@.len() > 0,
            compares_by_its_order::<T>(),
            best == largest_among(list@, i as int),
        decreases list.len() - i,
    {
        let item = list[i];
        if item > best {
            best = item;
        }
        i = i + 1;
    }
    best
}

/// Among integers the largest item is one of the items, and none is
/// greater.
pub proof fn lemma_largest_is_maximum(list: Seq<i32>, n: int)
    requires
        0 < n <= list.len(),
    ensures
        exists|i: int| 0 <= i < n && list[i] == largest_among(list, n),
        forall|i: int| 0 <= i < n ==> list[i] <= largest_among(list, n),
    decreases n,
{
    if n == 1 {
        assert(largest_among(list, 0) == list[0]);
        assert(list[0] == largest_among(list, 1));
    } else {
        lemma_largest_is_maximum(list, n - 1);
        let before = largest_among(list, n - 1);
        let i = choose|i: int| 0 <= i < n - 1 && list[i] == before;
        if list[n - 1] > before {
            assert(list[n - 1] == largest_among(list, n));
        } else {
            assert(list[i] == largest_among(list, n));
        }
    }
}

/// A point in the plane, with coordinates of any one type.
#[derive(Debug)]
pub struct Point<T> {
    pub x: T,
    pub y: T,
}

impl<T> Point<T> {
    /// The first coordinate.
    pub fn x(&self) -> (x: &T)
        ensures
            *x == self.x,
    {
        &self.x
    }
}

/// Two values of one type.
pub struct Pair<T> {
    pub x: T,
    pub y: T,
}

impl<T> Pair<T> {
    /// The pair of `x` and `y`.
    pub fn new(x: T, y: T) -> (pair: Self)
        ensures
            pair.x == x,
            pair.y == y,
    {
        Self { x, y }
    }
}

impl<T: PartialOrd> Pair<T> {
    /// Whether the first member is the largest: it is, unless the second is
    /// greater.
    pub fn largest_is_x(&self) -> (first: bool)
        requires
            compares_by_its_order::<T>(),
        ensures
            first == self.x.is_ge(&self.y),
    {
        self.x >= self.y
    }
}

} // verus!
