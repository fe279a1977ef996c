//! A stabilization discipline for elements stored inside ordinary containers.
//!
//! The wrapper type [`ItemsPin`] attaches an address-stability guarantee to a
//! container value: as long as the wrapper exists, no element reachable
//! through it is relocated, while the container itself stays free to be
//! copied or moved structurally. The guarantee matters for element types with
//! address-sensitive internal state; for every other element type relocation
//! is harmless and the *checked* construction and unwrapping paths (bounded by
//! [`Movable`]) are always sound.
//!
//! Verification cannot observe machine addresses, so this crate verifies the
//! value-level content of the discipline: every operation's contract pins
//! down exactly which elements survive it, unchanged and in their original
//! order, and ownership ensures each discarded element is destroyed exactly
//! once. The wrapper's existence stands for the guarantee itself, and the
//! *attested* construction paths record that the caller, not this crate,
//! supplies the evidence for it.

use vstd::prelude::*;

mod fixed;
mod growable;
mod handle;
mod prepinned;
pub mod role;

pub use fixed::Block;
pub use growable::bounded_push;
pub use growable::lemma_append_preserves_survivors;
pub use handle::lemma_stabilized_iteration_order;
pub use handle::PinIter;
pub use handle::PinRef;
pub use prepinned::lemma_role_non_interference;
pub use prepinned::PrePinned;

use core::marker::PhantomData;
use role::Role;

verus! {

/// Marker for element types with no address-sensitive internal state.
///
/// Such elements may relocate freely, so a stability guarantee over them is
/// never load-bearing: the checked construction and unwrapping paths of
/// [`ItemsPin`] are restricted to them.
pub trait Movable {}

impl Movable for bool {}

impl Movable for char {}

impl Movable for u8 {}

impl Movable for u16 {}

impl Movable for u32 {}

impl Movable for u64 {}

impl Movable for u128 {}

impl Movable for usize {}

impl Movable for i8 {}

impl Movable for i16 {}

impl Movable for i32 {}

impl Movable for i64 {}

impl Movable for i128 {}

impl Movable for isize {}

impl Movable for String {}

impl Movable for () {}

impl<T: ?Sized> Movable for &T {}

impl<T: ?Sized> Movable for &mut T {}

impl<T: Movable> Movable for Box<T> {}

impl<T: Movable> Movable for Option<T> {}

impl<T: Movable> Movable for Vec<T> {}

/// Plain iteration capability over role `R`: the container can hand out every
/// live element of that role exactly once, as references, in its stable
/// container order, without mutating itself. Iteration is total: an empty
/// container yields an empty sequence, never an error.
pub trait Items<R: Role> {
    type Item;

    /// The sequence of elements role `R` exposes, in container order: the
    /// mathematical content every capability of this hierarchy is measured
    /// against.
    spec fn role_view(&self) -> Seq<Self::Item>;

    /// Produces the elements as a sequence of references: every element of
    /// the role's view exactly once, in its order.
    fn items<'a>(&'a self) -> (r: Vec<&'a Self::Item>)
        ensures
            r@.len() == self.role_view().len(),
            forall|i: int| 0 <= i < r@.len() ==> *(#[trigger] r@[i]) == self.role_view()[i],
    ;
}

/// Mutable iteration capability over role `R`: exclusive access to each
/// element in turn, by its position in the container order. Requires plain
/// [`Items`]: every mutable view of the elements is also a valid immutable
/// one. Mutation happens only through the handed-out reference.
pub trait ItemsMut<R: Role>: Items<R> {
    /// Exclusive access to the element at position `i` of the role's view;
    /// every other element keeps its position and value.
    fn item_mut<'a>(&'a mut self, i: usize) -> (r: &'a mut Self::Item)
        requires
            i < old(self).role_view().len(),
        ensures
            *r == old(self).role_view()[i as int],
            final(self).role_view() == old(self).role_view().update(i as int, *final(r)),
    ;
}

/// Stabilized iteration capability over role `R`: like [`Items`], but every
/// yielded reference carries the address-stability guarantee for its
/// referent. Depends on plain [`Items`].
pub trait ItemsPinned<R: Role>: Items<R> {
    /// Produces the elements as stabilized handles: the same elements, count
    /// and order as the role's view.
    fn items_pinned<'a>(&'a self) -> (it: PinIter<'a, Self::Item>)
        ensures
            it.remaining().len() == self.role_view().len(),
            forall|i: int| 0 <= i < it.remaining().len() ==> *(#[trigger] it.remaining()[i])
                == self.role_view()[i],
    ;
}

/// Stabilized mutable iteration capability over role `R`: the intersection of
/// [`ItemsPinned`] and [`ItemsMut`] — exclusive access that keeps the
/// address-stability guarantee intact.
pub trait ItemsPinnedMut<R: Role>: ItemsPinned<R> + ItemsMut<R> {
    /// Exclusive access to the element at position `i` of the role's view,
    /// under the stability guarantee this capability witnesses.
    fn item_pinned_mut<'a>(&'a mut self, i: usize) -> (r: &'a mut Self::Item)
        requires
            i < old(self).role_view().len(),
        ensures
            *r == old(self).role_view()[i as int],
            final(self).role_view() == old(self).role_view().update(i as int, *final(r)),
    ;
}

/// A stabilizing wrapper for a collection type `C` whose elements of role `R`
/// stay at their addresses for as long as the wrapper exists.
///
/// `ItemsPin<R, C>` holds exactly one collection value and adds no runtime
/// state: it is a thin owning struct over `C`, and construction and
/// unwrapping move the collection without touching its elements.
pub struct ItemsPin<R: Role, C> {
    _role: PhantomData<R>,
    pub(crate) collection: C,
}

impl<R: Role, C> ItemsPin<R, C> {
    /// The wrapper value holding `collection`; the mathematical model of
    /// construction.
    pub closed spec fn spec_new(collection: C) -> ItemsPin<R, C> {
        ItemsPin { _role: PhantomData, collection }
    }

    /// The collection inside the wrapper.
    pub closed spec fn inner(self) -> C {
        self.collection
    }

    pub(crate) fn wrap(collection: C) -> (p: ItemsPin<R, C>)
        ensures
            p == Self::spec_new(collection),
    {
        ItemsPin { _role: PhantomData, collection }
    }
}

impl<R: Role, C: Items<R>> ItemsPin<R, C> where C::Item: Movable {
    /// Checked construction: elements without address-sensitive state may be
    /// stabilized unconditionally, because relocating them is harmless.
    /// Always succeeds; the collection is taken over unchanged.
    pub fn new(collection: C) -> (p: ItemsPin<R, C>)
        ensures
            p == Self::spec_new(collection),
    {
        ItemsPin::wrap(collection)
    }

    /// Checked unwrap: returns the underlying collection unchanged, ending
    /// the wrapper's guarantee. Sound for the same reason as [`Self::new`]:
    /// elements without address-sensitive state never depended on it.
    pub fn into_inner(items_pin: ItemsPin<R, C>) -> (c: C)
        ensures
            c == items_pin.inner(),
    {
        items_pin.collection
    }

    /// Mutating pass-through: arbitrary write access to the collection, which
    /// could relocate elements, so it is offered only where the element type
    /// has no address-sensitive state.
    pub fn get_mut(&mut self) -> (r: &mut C)
        ensures
            *r == old(self).inner(),
            *final(self) == Self::spec_new(*final(r)),
    {
        &mut self.collection
    }
}

impl<R: Role, C: Items<R>> ItemsPin<R, C> {
    /// Attested construction: stabilizes a collection whose elements may have
    /// address-sensitive state. The caller independently guarantees that no
    /// element reachable through the wrapper will be relocated while the
    /// wrapper exists; this crate performs no check for it.
    pub fn new_unchecked(collection: C) -> (p: ItemsPin<R, C>)
        ensures
            p == Self::spec_new(collection),
    {
        ItemsPin::wrap(collection)
    }

    /// Attested unwrap: returns the underlying collection unchanged. The
    /// caller attests that discarding the guarantee is safe here, e.g.
    /// because no outstanding stabilized handle escaped.
    pub fn into_inner_unchecked(items_pin: ItemsPin<R, C>) -> (c: C)
        ensures
            c == items_pin.inner(),
    {
        items_pin.collection
    }

    /// Read-only pass-through: ordinary read access to the collection, always
    /// allowed — reading relocates nothing.
    pub fn get_ref(&self) -> (r: &C)
        ensures
            *r == self.inner(),
    {
        &self.collection
    }
}

impl<R: Role, C: Items<R>> Items<R> for ItemsPin<R, C> {
    type Item = C::Item;

    open spec fn role_view(&self) -> Seq<C::Item> {
        self.inner().role_view()
    }

    fn items<'a>(&'a self) -> (r: Vec<&'a C::Item>) {
        self.collection.items()
    }
}

/// The wrapper derives stabilized iteration from the collection's plain
/// iteration through the adapter: the wrapper's own existence is the
/// attestation the adapter asks for.
impl<R: Role, C: Items<R>> ItemsPinned<R> for ItemsPin<R, C> {
    fn items_pinned<'a>(&'a self) -> (it: PinIter<'a, C::Item>) {
        PinIter::new_unchecked(self.collection.items())
    }
}

impl<R: Role, C: ItemsMut<R>> ItemsMut<R> for ItemsPin<R, C> {
    fn item_mut<'a>(&'a mut self, i: usize) -> (r: &'a mut C::Item) {
        self.collection.item_mut(i)
    }
}

/// As with stabilized iteration, the wrapper's existence attests that the
/// exclusive access it hands out is address-stable.
impl<R: Role, C: ItemsMut<R>> ItemsPinnedMut<R> for ItemsPin<R, C> {
    fn item_pinned_mut<'a>(&'a mut self, i: usize) -> (r: &'a mut C::Item) {
        self.collection.item_mut(i)
    }
}

impl<R: Role, C: Items<R>> Items<R> for &C {
    type Item = C::Item;

    open spec fn role_view(&self) -> Seq<C::Item> {
        (**self).role_view()
    }

    fn items<'a>(&'a self) -> (r: Vec<&'a C::Item>) {
        <C as Items<R>>::items(*self)
    }
}

/// Wrapping a collection and unwrapping it again returns the collection
/// unchanged, whichever construction path built the wrapper — the checked
/// one, the attested one, or either over a borrowed collection.
pub proof fn lemma_pin_round_trip<R: Role, C>(collection: C)
    ensures
        ItemsPin::<R, C>::spec_new(collection).inner() == collection,
{
}

/// The wrapper is view-transparent for its role: stabilizing a collection
/// changes no element and no order of the role's view, and unwrapping gives
/// them back untouched.
pub proof fn lemma_pin_view_transparent<R: Role, C: Items<R>>(p: ItemsPin<R, C>)
    ensures
        p.role_view() == p.inner().role_view(),
{
}

} // verus!
