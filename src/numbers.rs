//! Sums, maps and filters over slices of `i32`.

use vstd::prelude::*;

verus! {

/// The sum of the elements of `s`.
pub open spec fn seq_sum(s: Seq<i32>) -> int
    decreases s.len(),
{
    if s.len() == 0 {
        0
    } else {
        seq_sum(s.drop_last()) + s.last()
    }
}

/// Adding the elements of `s` from the front, no partial sum leaves `i32`.
pub open spec fn sums_fit(s: Seq<i32>) -> bool {
    forall|k: int| 0 <= k <= s.len() ==> i32::MIN <= #[trigger] seq_sum(s.take(k)) <= i32::MAX
}

/// The sum of a slice, or `None` when adding its elements from the front
/// leaves `i32` at some step.
pub fn sum_of(v: &[i32]) -> (r: Option<i32>)
    ensures
        r is Some <==> sums_fit(v@),
        r matches Some(t) ==> t == seq_sum(v@),
{
    let mut acc: i32 = 0;
    let mut i: usize = 0;
    proof {
        assert(v@.take(0) == Seq::<i32>::empty());
    }
    while i < v.len()
        invariant
            i <= v@.len(),
            acc == seq_sum(v@.take(i as int)),
            forall|k: int| 0 <= k <= i ==> i32::MIN <= #[trigger] seq_sum(v@.take(k)) <= i32::MAX,
        decreases v@.len() - i,
    {
        proof {
            assert(v@.take(i as int + 1).drop_last() == v@.take(i as int));
            assert(seq_sum(v@.take(i as int + 1)) == acc + v@[i as int]);
        }
        match acc.checked_add(v[i]) {
            Some(t) => {
                acc = t;
            },
            None => {
                return None;
            },
        }
        i = i + 1;
    }
    proof {
        assert(v@.take(v@.len() as int) == v@);
    }
    Some(acc)
}

/// `x` plus four, doubled.
pub open spec fn add_four_double(x: i32) -> int {
    (x + 4) * 2
}

/// Every element of `s`, plus four and doubled, fits in `i32`.
pub open spec fn all_add_four_double_fit(s: Seq<i32>) -> bool {
    forall|i: int| 0 <= i < s.len() ==> i32::MIN <= #[trigger] add_four_double(s[i]) <= i32::MAX
}

/// Adds four to each element and doubles it, or `None` when a result does
/// not fit in `i32`.
pub fn map_add_four_double(v: &[i32]) -> (r: Option<Vec<i32>>)
    ensures
        r is Some <==> all_add_four_double_fit(v@),
        r matches Some(w) ==> {
            &&& w@.len() == v@.len()
            &&& forall|i: int| 0 <= i < v@.len() ==> w@[i] == add_four_double(v@[i])
        },
{
    let mut r: Vec<i32> = Vec::new();
    let mut i: usize = 0;
    while i < v.len()
        invariant
            i <= v@.len(),
            r@.len() == i,
            forall|j: int| 0 <= j < i ==> i32::MIN <= #[trigger] add_four_double(v@[j]) <= i32::MAX,
            forall|j: int| 0 <= j < i ==> r@[j] == add_four_double(v@[j]),
        decreases v@.len() - i,
    {
        let x = v[i];
        let y = match x.checked_add(4) {
            Some(p) => p.checked_mul(2),
            None => None,
        };
        match y {
            Some(y) => {
                r.push(y);
            },
            None => {
                proof {
                    let k = i as int;
                    assert(!(i32::MIN <= add_four_double(v@[k]) <= i32::MAX));
                }
                return None;
            },
        }
        i = i + 1;
    }
    Some(r)
}

/// The even elements of `s`, in order.
pub open spec fn evens(s: Seq<i32>) -> Seq<i32> {
    s.filter(|x: i32| x % 2 == 0)
}

/// Keeps the even elements, in order.
pub fn keep_even(v: &[i32]) -> (r: Vec<i32>)
    ensures
        r@ == evens(v@),
{
    let mut r: Vec<i32> = Vec::new();
    let mut i: usize = 0;
    while i < v.len()
        invariant
            i <= v@.len(),
            r@ == evens(v@.take(i as int)),
        decreases v@.len() - i,
    {
        proof {
            assert(v@.take(i as int + 1) == v@.take(i as int).push(v@[i as int]));
            v@.take(i as int).lemma_filter_push(v@[i as int], |x: i32| x % 2 == 0);
        }
        if v[i] % 2 == 0 {
            r.push(v[i]);
        }
        i = i + 1;
    }
    proof {
        assert(v@.take(v@.len() as int) == v@);
    }
    r
}

} // verus!
