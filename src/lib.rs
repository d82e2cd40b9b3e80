//! One accessor definition for two kinds of callers.
//!
//! A caller that holds a shared reference to a container receives a shared
//! reference to the field; a caller that holds an exclusive reference receives
//! an exclusive one. The reference kind a caller holds fixes, at build time,
//! the kind it gets back: it is never widened and never narrowed.
use vstd::prelude::*;

pub mod bag;
pub mod field;
pub mod select;

verus! {

/// The two ways a region of memory can be borrowed.
#[derive(PartialEq, Eq, Structural, Clone, Copy, Debug)]
pub enum AliasingMode {
    /// Any number of shared borrows, none of which may write.
    ReadOnly,
    /// One borrow, which may write.
    Exclusive,
}

/// A type-level selector for an aliasing mode.
pub trait Mutability {
    /// The mode this selector stands for.
    spec fn mode() -> AliasingMode;
}

/// Selector of the read-only mode: its references are `&T`.
pub struct Ref;

/// Selector of the exclusive mode: its references are `&mut T`.
pub struct Mut;

impl Mutability for Ref {
    open spec fn mode() -> AliasingMode {
        AliasingMode::ReadOnly
    }
}

impl Mutability for Mut {
    open spec fn mode() -> AliasingMode {
        AliasingMode::Exclusive
    }
}

/// The two selectors never stand for the same mode.
pub proof fn lemma_modes_distinct()
    ensures
        <Ref as Mutability>::mode() != <Mut as Mutability>::mode(),
{
}

/// A reference of either kind, together with the mode it was borrowed in.
pub trait AsRef: Sized {
    /// The selector of the mode this reference belongs to.
    type Mut: Mutability;
    /// The type referred to.
    type Target;

    /// The value referred to, at the time the reference is handed over.
    spec fn current(&self) -> Self::Target;
}

impl<'a, T> AsRef for &'a T {
    type Mut = Ref;
    type Target = T;

    open spec fn current(&self) -> T {
        **self
    }
}

impl<'a, T> AsRef for &'a mut T {
    type Mut = Mut;
    type Target = T;

    open spec fn current(&self) -> T {
        **self
    }
}

/// The aliasing mode of a reference type.
pub open spec fn mode_of<A: AsRef>() -> AliasingMode {
    <A::Mut as Mutability>::mode()
}

/// A shared reference is read-only and an exclusive one is exclusive.
pub proof fn lemma_projection<'a, T>()
    ensures
        mode_of::<&'a T>() == AliasingMode::ReadOnly,
        mode_of::<&'a mut T>() == AliasingMode::Exclusive,
{
}

} // verus!
