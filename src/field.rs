//! Field accessors that hand back a reference in the caller's own mode.
use vstd::prelude::*;

use crate::{AsRef, Mutability};

verus! {

/// One named field of a container, declared once.
///
/// `get` reads the field and `put` replaces it, keeping the rest of the
/// container. The two borrowing functions are the only code an implementor
/// writes per field; the mode-generic accessor `access` is built on them.
pub trait Field {
    /// The type that holds the field.
    type Container;
    /// The field's declared type.
    type Value;

    /// The field's value in `c`.
    spec fn get(c: Self::Container) -> Self::Value;

    /// `c` with the field set to `v` and everything else kept.
    spec fn put(c: Self::Container, v: Self::Value) -> Self::Container;

    /// Borrows the field out of a shared borrow of the container.
    fn get_ref(c: &Self::Container) -> (r: &Self::Value)
        ensures
            *r == Self::get(*c),
    ;

    /// Borrows the field out of an exclusive borrow of the container: whatever
    /// is written through the result lands in the field and nowhere else.
    fn get_mut(c: &mut Self::Container) -> (r: &mut Self::Value)
        ensures
            *r == Self::get(*old(c)),
            *final(c) == Self::put(*old(c), *final(r)),
    ;

    /// Reading a field after setting it gives the value set.
    proof fn lemma_put_get(c: Self::Container, v: Self::Value)
        ensures
            Self::get(Self::put(c, v)) == v,
    ;

    /// Setting a field to the value it holds changes nothing.
    proof fn lemma_get_put(c: Self::Container)
        ensures
            Self::put(c, Self::get(c)) == c,
    ;

    /// Of two writes to the field only the last one counts.
    proof fn lemma_put_put(c: Self::Container, v: Self::Value, w: Self::Value)
        ensures
            Self::put(Self::put(c, v), w) == Self::put(c, w),
    ;
}

/// A caller's reference, and the reference of the same mode to a value of
/// type `B` that lives inside what it refers to.
pub trait Sibling<B>: AsRef {
    /// The reference to `B` in the caller's mode.
    type Out: AsRef<Target = B, Mut = Self::Mut>;

    /// Borrows the field `L` in the caller's mode.
    fn project<L: Field<Container = Self::Target, Value = B>>(self) -> (r: Self::Out)
        ensures
            r.current() == L::get(self.current()),
    ;
}

/// The reference type to a `B` in the same mode as the reference type `A`.
pub type SameMut<A, B> = <A as Sibling<B>>::Out;

impl<'a, T, B: 'a> Sibling<B> for &'a T {
    type Out = &'a B;

    fn project<L: Field<Container = T, Value = B>>(self) -> (r: &'a B) {
        L::get_ref(self)
    }
}

impl<'a, T, B: 'a> Sibling<B> for &'a mut T {
    type Out = &'a mut B;

    fn project<L: Field<Container = T, Value = B>>(self) -> (r: &'a mut B)
        ensures
            *final(self) == L::put(*old(self), *final(r)),
    {
        access_mut::<L>(self)
    }
}

/// The accessor of field `L`: takes a reference to the container of either
/// mode and returns a reference to the field in that same mode.
pub fn access<L: Field, A: Sibling<L::Value, Target = L::Container>>(this: A) -> (r: SameMut<
    A,
    L::Value,
>)
    ensures
        r.current() == L::get(this.current()),
{
    this.project::<L>()
}

/// The accessor of field `L` for a caller holding an exclusive borrow: the
/// result starts out as the field's value, and whatever is finally written
/// through it becomes the field, with the rest of the container kept.
pub fn access_mut<L: Field>(c: &mut L::Container) -> (r: &mut L::Value)
    ensures
        *r == L::get(*old(c)),
        *final(c) == L::put(*old(c), *final(r)),
{
    L::get_mut(c)
}

/// A write through the exclusive accessor sets the field to exactly the value
/// written, and changes nothing else: writing the old value back afterwards
/// gives the container that was there before.
pub proof fn lemma_exclusive_write<L: Field>(c: L::Container, v: L::Value)
    ensures
        L::get(L::put(c, v)) == v,
        L::put(L::put(c, v), L::get(c)) == c,
{
    L::lemma_put_get(c, v);
    L::lemma_put_put(c, v, L::get(c));
    L::lemma_get_put(c);
}

/// The mode of what the accessor returns is the mode of the caller's reference.
pub proof fn lemma_mode_fidelity<B, A: Sibling<B>>()
    ensures
        <<A as Sibling<B>>::Out as AsRef>::Mut::mode() == <A as AsRef>::Mut::mode(),
{
}

} // verus!
