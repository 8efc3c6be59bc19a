//! The largest element of a non-empty slice, by value, by copy and by reference.

use vstd::prelude::*;

verus! {

/// `m` is an element of `s` and no element of `s` exceeds it.
pub open spec fn is_largest(s: Seq<u32>, m: u32) -> bool {
    &&& s.contains(m)
    &&& forall|i: int| 0 <= i < s.len() ==> s[i] <= m
}

/// The index of the first largest element of `list`.
fn largest_index(list: &[u32]) -> (r: usize)
    requires
        list@.len() > 0,
    ensures
        r < list@.len(),
        is_largest(list@, list@[r as int]),
{
    let mut best: usize = 0;
    let mut i: usize = 1;
    while i < list.len()
        invariant
            0 < i <= list@.len(),
            best < i,
            forall|j: int| 0 <= j < i ==> list@[j] <= list@[best as int],
        decreases list@.len() - i,
    {
        if list[i] > list[best] {
            best = i;
        }
        i = i + 1;
    }
    best
}

/// The largest element of a non-empty slice.
pub fn largest(list: &[u32]) -> (r: u32)
    requires
        list@.len() > 0,
    ensures
        is_largest(list@, r),
{
    let mut largest = list[0];
    let ghost mut at: int = 0;
    let mut i: usize = 1;
    while i < list.len()
        invariant
            0 < i <= list@.len(),
            0 <= at < i,
            list@[at] == largest,
            forall|j: int| 0 <= j < i ==> list@[j] <= largest,
        decreases list@.len() - i,
    {
        let item = list[i];
        if item > largest {
            largest = item;
            proof {
                at = i as int;
            }
        }
        i = i + 1;
    }
    proof {
        assert(list@[at] == largest);
    }
    largest
}

/// The largest element of a non-empty slice, cloned out of it.
pub fn largest_clone(list: &[u32]) -> (r: u32)
    requires
        list@.len() > 0,
    ensures
        is_largest(list@, r),
{
    let k = largest_index(list);
    list[k].clone()
}

/// A reference to the first largest element of a non-empty slice.
pub fn largest_reference(list: &[u32]) -> (r: &u32)
    requires
        list@.len() > 0,
    ensures
        is_largest(list@, *r),
{
    let k = largest_index(list);
    &list[k]
}

} // verus!
