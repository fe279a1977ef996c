//! The fixed-length contiguous bridge.
//!
//! [`Block`] is a block of contiguous storage whose length never grows: the
//! model of a permanent exclusive view over slice-like storage. Once such a
//! block is stabilized behind [`ItemsPin`], the only mutations left are the
//! narrowing ones: destroying the elements outside a range while the
//! survivors keep their values and their relative order, or destroying every
//! element at once. Ownership makes each discarded element's destruction
//! happen exactly once.

use crate::role;
use crate::Items;
use crate::ItemsMut;
use crate::ItemsPin;
use core::ops::Range;
use vstd::prelude::*;

verus! {

/// Contiguous fixed-length storage: the elements of one allocation, which no
/// operation of this crate ever relocates or appends to.
pub struct Block<T> {
    pub(crate) elems: Vec<T>,
}

impl<T> View for Block<T> {
    type V = Seq<T>;

    closed spec fn view(&self) -> Seq<T> {
        self.elems@
    }
}

impl<T> Block<T> {
    /// Takes ownership of `elems` as a block of fixed-length storage.
    pub fn new(elems: Vec<T>) -> (b: Block<T>)
        ensures
            b@ == elems@,
    {
        Block { elems }
    }

    /// The number of elements in the block.
    pub fn len(&self) -> (n: usize)
        ensures
            n == self@.len(),
    {
        self.elems.len()
    }

    /// Read access to every element, in storage order.
    pub fn as_slice(&self) -> (s: &[T])
        ensures
            s@ == self@,
    {
        self.elems.as_slice()
    }
}

impl<T> Items<role::Items> for Block<T> {
    type Item = T;

    open spec fn role_view(&self) -> Seq<T> {
        self.view()
    }

    fn items<'a>(&'a self) -> (r: Vec<&'a T>) {
        let mut r: Vec<&'a T> = Vec::new();
        let mut i: usize = 0;
        while i < self.elems.len()
            invariant
                i <= self.elems@.len(),
                r@.len() == i as int,
                forall|j: int| 0 <= j < i ==> *(#[trigger] r@[j]) == self.elems@[j],
            decreases self.elems@.len() - i,
        {
            r.push(&self.elems[i]);
            i = i + 1;
        }
        r
    }
}

impl<T> ItemsMut<role::Items> for Block<T> {
    fn item_mut<'a>(&'a mut self, i: usize) -> (r: &'a mut T) {
        &mut self.elems[i]
    }
}

impl<T> ItemsPin<role::Items, Block<T>> {
    /// Stabilize: reinterprets a permanent exclusive view of fixed-length
    /// storage as its stabilized counterpart. Representation-preserving: the
    /// elements are not touched.
    pub fn pin(block: Block<T>) -> (p: ItemsPin<role::Items, Block<T>>)
        ensures
            p == Self::spec_new(block),
    {
        ItemsPin::wrap(block)
    }

    /// Truncate-to-range: destroys every element outside `range` — the prefix
    /// before `range.start` and the suffix from `range.end` on, each exactly
    /// once — and returns the narrowed stabilized view over exactly the
    /// elements inside `range`, unmodified and in their original order.
    ///
    /// A range with `range.start > range.end` or `range.end` past the storage
    /// length violates the precondition; no clamping is performed.
    pub fn truncate(self, range: Range<usize>) -> (r: ItemsPin<role::Items, Block<T>>)
        requires
            range.start <= range.end,
            range.end <= self.inner()@.len(),
        ensures
            r.inner()@ == self.inner()@.subrange(range.start as int, range.end as int),
    {
        let mut elems = self.collection.elems;
        elems.truncate(range.end);
        let kept = elems.split_off(range.start);
        ItemsPin::wrap(Block { elems: kept })
    }

    /// Destroys every element reachable through this view, each exactly once,
    /// without touching the backing storage's own allocation discipline.
    pub fn drop_in_place(self) {
    }
}

} // verus!
