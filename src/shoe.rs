//! Shoes, a counter that hands them out one at a time, and a size filter.

use vstd::prelude::*;

verus! {

/// A shoe: its size and its style.
#[derive(Debug)]
pub struct Shoe {
    size: u32,
    style: String,
}

impl Clone for Shoe {
    fn clone(&self) -> (r: Shoe)
        ensures
            r == *self,
    {
        Shoe { size: self.size, style: self.style.clone() }
    }
}

impl PartialEq for Shoe {
    fn eq(&self, o: &Shoe) -> (r: bool) {
        self.size == o.size && self.style == o.style
    }
}

impl vstd::std_specs::cmp::PartialEqSpecImpl for Shoe {
    open spec fn obeys_eq_spec() -> bool {
        true
    }

    open spec fn eq_spec(&self, o: &Shoe) -> bool {
        self.spec_size() == o.spec_size() && self.spec_style() == o.spec_style()
    }
}

impl Shoe {
    /// The shoe's size.
    pub closed spec fn spec_size(self) -> u32 {
        self.size
    }

    /// The shoe's style.
    pub closed spec fn spec_style(self) -> Seq<char> {
        self.style@
    }

    /// A shoe of the given size and style.
    pub fn new(size: u32, style: String) -> (r: Shoe)
        ensures
            r.spec_size() == size,
            r.spec_style() == style@,
    {
        Shoe { size, style }
    }

    /// The shoe's size.
    pub fn size(&self) -> (r: u32)
        ensures
            r == self.spec_size(),
    {
        self.size
    }
}

/// The shoes of `shoes` whose size is `size`, in their order.
pub open spec fn in_size(shoes: Seq<Shoe>, size: u32) -> Seq<Shoe> {
    shoes.filter(|s: Shoe| s.spec_size() == size)
}

/// Keeps the shoes of size `size`, in the order they came.
pub fn shoes_in_my_size(shoes: Vec<Shoe>, size: u32) -> (r: Vec<Shoe>)
    ensures
        r@ == in_size(shoes@, size),
{
    let mut r: Vec<Shoe> = Vec::new();
    let n = shoes.len();
    let mut i: usize = 0;
    while i < n
        invariant
            n == shoes@.len(),
            i <= n,
            r@ == in_size(shoes@.take(i as int), size),
        decreases n - i,
    {
        proof {
            assert(shoes@.take(i as int + 1) == shoes@.take(i as int).push(shoes@[i as int]));
            shoes@.take(i as int).lemma_filter_push(
                shoes@[i as int],
                |s: Shoe| s.spec_size() == size,
            );
        }
        if shoes[i].size == size {
            r.push(shoes[i].clone());
        }
        i = i + 1;
    }
    proof {
        assert(shoes@.take(n as int) == shoes@);
    }
    r
}

/// Hands out shoes from the back of a pile and keeps a record of each one
/// handed out.
pub struct ShoeCounter {
    shoes: Vec<Shoe>,
    counted_shoes: Vec<Shoe>,
    shoe_num: u32,
}

impl ShoeCounter {
    /// The shoes still to be handed out; the last comes out first.
    pub closed spec fn remaining(self) -> Seq<Shoe> {
        self.shoes@
    }

    /// The shoes handed out so far, in the order they came out.
    pub closed spec fn counted(self) -> Seq<Shoe> {
        self.counted_shoes@
    }

    /// The count of handed-out shoes matches the record, and every shoe of the
    /// pile can still be counted without overflow.
    #[verifier::type_invariant]
    spec fn wf(self) -> bool {
        &&& self.shoe_num as int == self.counted_shoes@.len()
        &&& self.shoes@.len() + self.counted_shoes@.len() <= u32::MAX
    }

    /// A counter over the pile `shoes`, with nothing counted yet.
    pub fn new(shoes: Vec<Shoe>) -> (r: ShoeCounter)
        requires
            shoes@.len() <= u32::MAX,
        ensures
            r.remaining() == shoes@,
            r.counted() == Seq::<Shoe>::empty(),
    {
        ShoeCounter { shoes, counted_shoes: Vec::new(), shoe_num: 0 }
    }

    /// The shoes handed out so far.
    pub fn get_counted(&self) -> (r: &Vec<Shoe>)
        ensures
            r@ == self.counted(),
    {
        &self.counted_shoes
    }

    /// Takes the last shoe of the pile, records it, and returns it; `None`
    /// once the pile is empty.
    pub fn next(&mut self) -> (r: Option<Shoe>)
        ensures
            old(self).remaining().len() == 0 ==> {
                &&& r is None
                &&& final(self).remaining() == old(self).remaining()
                &&& final(self).counted() == old(self).counted()
            },
            old(self).remaining().len() > 0 ==> {
                &&& r == Some(old(self).remaining().last())
                &&& final(self).remaining() == old(self).remaining().drop_last()
                &&& final(self).counted() == old(self).counted().push(
                    old(self).remaining().last(),
                )
            },
    {
        let mut taken = ShoeCounter { shoes: Vec::new(), counted_shoes: Vec::new(), shoe_num: 0 };
        std::mem::swap(self, &mut taken);
        proof {
            use_type_invariant(&taken);
        }
        let ShoeCounter { mut shoes, mut counted_shoes, mut shoe_num } = taken;
        let r = match shoes.pop() {
            Some(c) => {
                shoe_num = shoe_num + 1;
                counted_shoes.push(c.clone());
                Some(c)
            },
            None => None,
        };
        *self = ShoeCounter { shoes, counted_shoes, shoe_num };
        r
    }
}

} // verus!
