//! A container with one sequence field, and an operation layered on its
//! accessor.
use vstd::prelude::*;

use crate::field::{access, access_mut, Field, SameMut, Sibling};
use crate::select::{
    evens_of, is_even, lemma_refill_keeps_odd, lemma_refill_len, refill, Evens,
};
use crate::AsRef;

verus! {

/// A container holding a sequence of integers.
pub struct Bag {
    pub items: Vec<i32>,
}

/// The field `items` of a `Bag`.
pub struct Items;

impl Field for Items {
    type Container = Bag;
    type Value = Vec<i32>;

    open spec fn get(c: Bag) -> Vec<i32> {
        c.items
    }

    open spec fn put(c: Bag, v: Vec<i32>) -> Bag {
        Bag { items: v }
    }

    fn get_ref(c: &Bag) -> (r: &Vec<i32>) {
        &c.items
    }

    fn get_mut(c: &mut Bag) -> (r: &mut Vec<i32>) {
        &mut c.items
    }

    proof fn lemma_put_get(c: Bag, v: Vec<i32>) {
    }

    proof fn lemma_get_put(c: Bag) {
    }

    proof fn lemma_put_put(c: Bag, v: Vec<i32>, w: Vec<i32>) {
    }
}

impl Bag {
    /// The items, borrowed in the mode of `this`.
    pub fn items<A: Sibling<Vec<i32>, Target = Bag>>(this: A) -> (r: SameMut<A, Vec<i32>>)
        ensures
            r.current() == this.current().items,
    {
        access::<Items, A>(this)
    }

    /// The even items, each borrowed in the mode of `this`, in order.
    pub fn evens<A>(this: A) -> (r: Vec<<SameMut<A, Vec<i32>> as Evens>::Item>) where
        A: Sibling<Vec<i32>, Target = Bag>,
        SameMut<A, Vec<i32>>: Evens,
    ensures
            r@.len() == evens_of(this.current().items@).len(),
            forall|k: int|
                0 <= k < r@.len() ==> r@[k].current() == evens_of(this.current().items@)[k],
    {
        Self::items(this).evens()
    }

    /// The items, borrowed exclusively: whatever is finally written through
    /// the result becomes the bag's items.
    pub fn items_mut(this: &mut Bag) -> (r: &mut Vec<i32>)
        ensures
            *r == old(this).items,
            final(this).items == *final(r),
            *final(this) == Items::put(*old(this), *final(r)),
    {
        access_mut::<Items>(this)
    }

    /// The even items, each borrowed exclusively, in order: the values finally
    /// written through them take their places, and every odd item is kept.
    pub fn evens_mut(this: &mut Bag) -> (r: Vec<&mut i32>)
        ensures
            r@.len() == evens_of(old(this).items@).len(),
            forall|k: int|
                0 <= k < r@.len() ==> *r@[k] == evens_of(old(this).items@)[k],
            final(this).items@ == refill(
                old(this).items@,
                Seq::new(r@.len(), |k: int| *final(r@[k])),
            ),
            final(this).items@.len() == old(this).items@.len(),
            forall|i: int|
                0 <= i < old(this).items@.len() && !is_even(old(this).items@[i])
                    ==> #[trigger] final(this).items@[i] == old(this).items@[i],
    {
        let ghost before = this.items@;
        let r = Self::items_mut(this).evens();
        proof {
            let written = Seq::new(r@.len(), |k: int| *final(r@[k]));
            lemma_refill_len(before, written);
            assert forall|i: int| 0 <= i < before.len() && !is_even(before[i]) implies #[trigger] refill(
                before,
                written,
            )[i] == before[i] by {
                lemma_refill_keeps_odd(before, written, i);
            }
        }
        r
    }
}

} // verus!
