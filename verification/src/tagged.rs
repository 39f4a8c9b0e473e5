//! Values tagged with an ordered pair of chain roles.
//!
//! A chain role is a compile-time marker type identifying which of the two
//! participating chains a value is scoped to. A value tagged `<X, Y>` and a
//! structurally identical value tagged `<Y, X>` are distinct types, so a
//! function asking for one rejects the other at compile time; the markers
//! carry no runtime representation.

use vstd::prelude::*;
use core::marker::PhantomData;

verus! {

/// A payload scoped to the ordered pair of chain roles `(TagA, TagB)`.
///
/// `TagA` is the chain whose perspective the payload belongs to; `TagB` is
/// the counterparty. The pair is part of the type, so values with swapped or
/// different roles cannot be substituted for one another.
pub struct DualTagged<TagA, TagB, T> {
    /// The underlying payload, as handed to [`DualTagged::new`].
    pub value: T,
    /// The zero-sized role pair; present only to make the roles part of the type.
    pub roles: PhantomData<(TagA, TagB)>,
}

impl<TagA, TagB, T> DualTagged<TagA, TagB, T> {
    /// Wrap `value` with the roles `(TagA, TagB)` chosen by the caller.
    ///
    /// This is the sole boundary where an untagged value becomes tagged, and
    /// the roles are not validated against anything at runtime: callers use
    /// it only where the scope of the value is known for certain (a port
    /// identifier configured for one named chain, a channel identifier just
    /// reported for one named side). Everywhere else a tagged value is
    /// derived from an already-tagged one, e.g. by [`DualTagged::cloned`].
    pub fn new(value: T) -> (r: Self)
        ensures
            r.value == value,
    {
        DualTagged { value, roles: PhantomData }
    }

    /// Unwrap the payload, discarding the role tags.
    pub fn into_value(self) -> (r: T)
        ensures
            r == self.value,
    {
        self.value
    }
}

impl<TagA, TagB, T: Clone> DualTagged<TagA, TagB, T> {
    /// An owned copy of this tagged value, with identical roles.
    ///
    /// The payload is duplicated by `T::clone`, so the copy's payload relates
    /// to the original's exactly as that `clone` promises; for a payload
    /// whose `clone` returns an equal value, the copy's payload equals the
    /// original's.
    pub fn cloned(&self) -> (r: DualTagged<TagA, TagB, T>)
        ensures
            cloned::<T>(self.value, r.value),
    {
        DualTagged::new(self.value.clone())
    }
}

/// Law: [`DualTagged::cloned`] keeps the roles and the payload.
///
/// The roles are kept by the signature itself: the copy has the same type
/// `DualTagged<TagA, TagB, T>` as the original, so the role pair is
/// unchanged. This lemma states the payload half: whenever the payload's own
/// `clone` yields a value equal to its input — as it does for every payload
/// this crate tags — the copy's payload equals the original's.
pub proof fn lemma_cloned_keeps_roles_and_payload<TagA, TagB, T: Clone>(
    v: DualTagged<TagA, TagB, T>,
    c: DualTagged<TagA, TagB, T>,
)
    requires
        call_ensures(DualTagged::<TagA, TagB, T>::cloned, (&v,), c),
        forall|x: &T, y: T| call_ensures(T::clone, (x,), y) ==> y == *x,
    ensures
        c.value == v.value,
{
}

} // verus!
