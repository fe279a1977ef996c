//! The external-stabilization bridge.
//!
//! [`PrePinned`] marks a container whose elements already carry an
//! address-stability guarantee established independently of this crate.
//! Because that external guarantee is the proof obligation, the bridge grants
//! the full stabilized capability set for every role the container has plain
//! capabilities for, composing the two stabilization notions transparently.

use crate::role::Role;
use crate::Items;
use crate::ItemsMut;
use crate::ItemsPinned;
use crate::ItemsPinnedMut;
use crate::PinIter;
use vstd::prelude::*;

verus! {

/// A container whose elements are already address-stable by an external,
/// pre-existing guarantee. Holds exactly the container, nothing more.
pub struct PrePinned<C> {
    pub(crate) collection: C,
}

impl<C> PrePinned<C> {
    /// The bridge value holding `collection`; the mathematical model of
    /// construction.
    pub closed spec fn spec_new(collection: C) -> PrePinned<C> {
        PrePinned { collection }
    }

    /// The container inside the bridge.
    pub closed spec fn inner(self) -> C {
        self.collection
    }

    /// Attested construction: the caller asserts that every element of
    /// `collection` already satisfies the address-stability guarantee by
    /// means outside this crate.
    pub fn new_unchecked(collection: C) -> (p: PrePinned<C>)
        ensures
            p == PrePinned::spec_new(collection),
    {
        PrePinned { collection }
    }

    /// Unwraps the bridge, returning the container. The external guarantee is
    /// the caller's to keep or release; this crate never held it.
    pub fn into_inner_unchecked(pre_pinned: PrePinned<C>) -> (c: C)
        ensures
            c == pre_pinned.inner(),
    {
        pre_pinned.collection
    }
}

impl<R: Role, C: Items<R>> Items<R> for PrePinned<C> {
    type Item = C::Item;

    open spec fn role_view(&self) -> Seq<C::Item> {
        self.inner().role_view()
    }

    fn items<'a>(&'a self) -> (r: Vec<&'a C::Item>) {
        self.collection.items()
    }
}

impl<R: Role, C: Items<R>> ItemsPinned<R> for PrePinned<C> {
    fn items_pinned<'a>(&'a self) -> (it: PinIter<'a, C::Item>) {
        PinIter::new_unchecked(self.collection.items())
    }
}

impl<R: Role, C: ItemsMut<R>> ItemsMut<R> for PrePinned<C> {
    fn item_mut<'a>(&'a mut self, i: usize) -> (r: &'a mut C::Item) {
        self.collection.item_mut(i)
    }
}

impl<R: Role, C: ItemsMut<R>> ItemsPinnedMut<R> for PrePinned<C> {
    fn item_pinned_mut<'a>(&'a mut self, i: usize) -> (r: &'a mut C::Item) {
        self.collection.item_mut(i)
    }
}

/// Role non-interference at the bridge: each role's view depends on the inner
/// container alone, so the bridge couples no two roles beyond the container's
/// own natural coupling — whatever leaves the container's view for one role
/// untouched leaves that role's view through the bridge untouched too.
pub proof fn lemma_role_non_interference<R1: Role, R2: Role, C: Items<R1> + Items<R2>>(
    p: PrePinned<C>,
)
    ensures
        <PrePinned<C> as Items<R1>>::role_view(&p) == <C as Items<R1>>::role_view(&p.inner()),
        <PrePinned<C> as Items<R2>>::role_view(&p) == <C as Items<R2>>::role_view(&p.inner()),
{
}

} // verus!
