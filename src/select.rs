//! Picking the even elements out of a sequence field, in the caller's mode.
use vstd::prelude::*;

use crate::field::{SameMut, Sibling};
use crate::{AsRef, Mutability};

verus! {

/// Whether `x` is divisible by two.
pub open spec fn is_even(x: i32) -> bool {
    x % 2 == 0
}

/// The even elements of `s`, in order.
pub open spec fn evens_of(s: Seq<i32>) -> Seq<i32> {
    s.filter(|x: i32| is_even(x))
}

/// The even elements of a non-empty sequence are its first element, if that
/// one is even, followed by the even elements of the rest.
pub proof fn lemma_evens_of_first(s: Seq<i32>)
    requires
        s.len() > 0,
    ensures
        evens_of(s) == (if is_even(s[0]) {
            seq![s[0]] + evens_of(s.drop_first())
        } else {
            evens_of(s.drop_first())
        }),
{
    let head = seq![s[0]];
    let pred = |x: i32| is_even(x);
    assert(s =~= head + s.drop_first());
    Seq::filter_distributes_over_add(head, s.drop_first(), pred);
    reveal(Seq::filter);
    assert(head.drop_last() =~= Seq::<i32>::empty());
    assert(head.drop_last().filter(pred) =~= Seq::<i32>::empty());
    if is_even(s[0]) {
        assert(head.filter(pred) =~= head);
    } else {
        assert(head.filter(pred) =~= Seq::<i32>::empty());
    }
}

/// `s` with its even elements replaced, in order, by those of `vals`.
pub open spec fn refill(s: Seq<i32>, vals: Seq<i32>) -> Seq<i32>
    decreases s.len(),
{
    if s.len() == 0 {
        seq![]
    } else if is_even(s[0]) {
        seq![vals[0]] + refill(s.drop_first(), vals.drop_first())
    } else {
        seq![s[0]] + refill(s.drop_first(), vals)
    }
}

/// Refilling keeps the length of the sequence when there is one value for
/// each even element.
pub proof fn lemma_refill_len(s: Seq<i32>, vals: Seq<i32>)
    requires
        vals.len() == evens_of(s).len(),
    ensures
        refill(s, vals).len() == s.len(),
    decreases s.len(),
{
    if s.len() > 0 {
        lemma_evens_of_first(s);
        if is_even(s[0]) {
            lemma_refill_len(s.drop_first(), vals.drop_first());
        } else {
            lemma_refill_len(s.drop_first(), vals);
        }
    }
}

/// Refilling never touches an odd element.
pub proof fn lemma_refill_keeps_odd(s: Seq<i32>, vals: Seq<i32>, i: int)
    requires
        vals.len() == evens_of(s).len(),
        0 <= i < s.len(),
        !is_even(s[i]),
    ensures
        refill(s, vals)[i] == s[i],
    decreases s.len(),
{
    if i > 0 {
        lemma_evens_of_first(s);
        let rest = if is_even(s[0]) {
            vals.drop_first()
        } else {
            vals
        };
        lemma_refill_keeps_odd(s.drop_first(), rest, i - 1);
        lemma_refill_len(s.drop_first(), rest);
    }
}

/// Refilling a sequence with its own even elements gives it back: when
/// nothing is written through the selected elements, nothing changes.
pub proof fn lemma_refill_unchanged(s: Seq<i32>)
    ensures
        refill(s, evens_of(s)) == s,
    decreases s.len(),
{
    if s.len() > 0 {
        lemma_evens_of_first(s);
        lemma_refill_unchanged(s.drop_first());
        if is_even(s[0]) {
            assert((seq![s[0]] + evens_of(s.drop_first())).drop_first() =~= evens_of(
                s.drop_first(),
            ));
        }
        assert(s =~= seq![s[0]] + s.drop_first());
    }
}

/// Shared borrows of the even elements of `s`, in order.
pub fn evens_in<'a>(s: &'a [i32]) -> (r: Vec<&'a i32>)
    ensures
        r@.len() == evens_of(s@).len(),
        forall|k: int| 0 <= k < r@.len() ==> *r@[k] == evens_of(s@)[k],
    decreases s@.len(),
{
    if s.len() == 0 {
        proof {
            reveal(Seq::filter);
        }
        return Vec::new();
    }
    proof {
        lemma_evens_of_first(s@);
    }
    let (head, tail) = s.split_at(1);
    assert(tail@ == s@.drop_first());
    let mut rest = evens_in(tail);
    let h = &head[0];
    if *h % 2 == 0 {
        rest.insert(0, h);
    }
    rest
}

/// Exclusive borrows of the even elements of `s`, in order: what is written
/// through them lands in those elements, and every odd element is kept.
pub fn evens_in_mut<'a>(s: &'a mut [i32]) -> (r: Vec<&'a mut i32>)
    ensures
        r@.len() == evens_of(old(s)@).len(),
        forall|k: int| 0 <= k < r@.len() ==> *r@[k] == evens_of(old(s)@)[k],
        final(s)@ == refill(old(s)@, Seq::new(r@.len(), |k: int| *final(r@[k]))),
    decreases old(s)@.len(),
{
    if s.len() == 0 {
        proof {
            reveal(Seq::filter);
        }
        return Vec::new();
    }
    let ghost whole = s@;
    proof {
        lemma_evens_of_first(whole);
    }
    let (head, tail) = s.split_at_mut(1);
    assert(tail@ == whole.drop_first());
    let mut rest = evens_in_mut(tail);
    let ghost rest_refs = rest@;
    let h = head.first_mut().unwrap();
    if *h % 2 == 0 {
        rest.insert(0, h);
        let ghost written = Seq::new(rest@.len(), |k: int| *final(rest@[k]));
        assert(written.drop_first() =~= Seq::new(
            rest_refs.len(),
            |k: int| *final(rest_refs[k]),
        ));
    } else {
        assert(has_resolved(h));
    }
    rest
}

/// A borrow of a vector of integers that hands out borrows of its even
/// elements in its own mode.
pub trait Evens: AsRef<Target = Vec<i32>> {
    /// A borrow of one element, in the same mode as `Self`.
    type Item: AsRef<Target = i32, Mut = Self::Mut>;

    /// The even elements, in order.
    fn evens(self) -> (r: Vec<Self::Item>)
        ensures
            r@.len() == evens_of(self.current()@).len(),
            forall|k: int| 0 <= k < r@.len() ==> r@[k].current() == evens_of(self.current()@)[k],
    ;
}

impl<'a> Evens for &'a Vec<i32> {
    type Item = &'a i32;

    fn evens(self) -> (r: Vec<&'a i32>) {
        evens_in(self.as_slice())
    }
}

impl<'a> Evens for &'a mut Vec<i32> {
    type Item = &'a mut i32;

    fn evens(self) -> (r: Vec<&'a mut i32>)
        ensures
            final(self)@ == refill(old(self)@, Seq::new(r@.len(), |k: int| *final(r@[k]))),
    {
        evens_in_mut(self.as_mut_slice())
    }
}

/// Selecting the even elements of a field reached through the accessor hands
/// out each element in the mode of the caller's reference to the container.
pub proof fn lemma_evens_mode_fidelity<A: Sibling<Vec<i32>>>()
    where
        SameMut<A, Vec<i32>>: Evens,
    ensures
        <<SameMut<A, Vec<i32>> as Evens>::Item as AsRef>::Mut::mode()
            == <A as AsRef>::Mut::mode(),
{
}

} // verus!
