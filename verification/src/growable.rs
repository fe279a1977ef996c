//! The growable contiguous bridge.
//!
//! Stabilizing a growable vector freezes its allocation: afterwards the only
//! mutations offered are the ones that provably leave every surviving element
//! in place — appending into spare capacity, destroying the last element,
//! and truncating. Each contract below pins down exactly which elements
//! survive, unchanged and in their original order.

use crate::fixed::Block;
use crate::role;
use crate::Items;
use crate::ItemsMut;
use crate::ItemsPin;
use vstd::prelude::*;

verus! {

impl<T> Items<role::Items> for Vec<T> {
    type Item = T;

    open spec fn role_view(&self) -> Seq<T> {
        self@
    }

    fn items<'a>(&'a self) -> (r: Vec<&'a T>) {
        let mut r: Vec<&'a T> = Vec::new();
        let mut i: usize = 0;
        while i < self.len()
            invariant
                i <= self@.len(),
                r@.len() == i as int,
                forall|j: int| 0 <= j < i ==> *(#[trigger] r@[j]) == self@[j],
            decreases self@.len() - i,
        {
            r.push(&self[i]);
            i = i + 1;
        }
        r
    }
}

impl<T> ItemsMut<role::Items> for Vec<T> {
    fn item_mut<'a>(&'a mut self, i: usize) -> (r: &'a mut T) {
        &mut self[i]
    }
}

/// Relies on `Vec::capacity`: the number of elements the vector can hold
/// without reallocating, which is never below its current length. The exact
/// figure is the allocator's and may differ from what was requested, so
/// nothing more is assumed of it.
#[verifier::external_body]
fn vec_capacity<T>(v: &Vec<T>) -> (c: usize)
    ensures
        c >= v@.len(),
{
    v.capacity()
}

/// Bounded append: appends `value` if and only if `vec` is shorter than
/// `capacity`. On success the length grows by exactly one and every element
/// already present keeps its index and value; on failure the vector is
/// untouched and the rejected value comes back to the caller intact.
pub fn bounded_push<T>(vec: &mut Vec<T>, capacity: usize, value: T) -> (r: Result<(), T>)
    ensures
        old(vec)@.len() < capacity ==> r == Ok::<(), T>(()) && final(vec)@ == old(vec)@.push(
            value,
        ),
        old(vec)@.len() >= capacity ==> r == Err::<(), T>(value) && *final(vec) == *old(vec),
{
    if vec.len() < capacity {
        vec.push(value);
        Ok(())
    } else {
        Err(value)
    }
}

impl<T> ItemsPin<role::Items, Vec<T>> {
    /// Stabilize: wraps an existing growable vector, taking ownership. Always
    /// succeeds — no element of `vec` carries the guarantee yet, so no
    /// element-type restriction applies here; the restriction falls on the
    /// mutations that follow.
    pub fn pin(vec: Vec<T>) -> (p: ItemsPin<role::Items, Vec<T>>)
        ensures
            p == Self::spec_new(vec),
    {
        ItemsPin::wrap(vec)
    }

    /// Bounded append against the vector's real spare capacity, so that a
    /// successful append never relocates an element. The allocator fixed that
    /// capacity when the vector was built, so which calls succeed is decided
    /// outside this crate; whichever way it decides, the effect on the
    /// elements is exactly that of [`bounded_push`].
    pub fn push_pinned(&mut self, value: T) -> (r: Result<(), T>)
        ensures
            match r {
                Ok(()) => final(self).inner()@ == old(self).inner()@.push(value),
                Err(v) => v == value && *final(self) == *old(self),
            },
    {
        let capacity: usize = vec_capacity(&self.collection);
        bounded_push(&mut self.collection, capacity, value)
    }

    /// Pop-if-nonempty: destroys the last element, exactly once, if there is
    /// one. Returns whether an element was removed, which is the case if and
    /// only if the vector was non-empty; every other element keeps its index
    /// and value, and an empty vector is left untouched.
    pub fn pop_pinned(&mut self) -> (r: bool)
        ensures
            r == (old(self).inner()@.len() > 0),
            r ==> final(self).inner()@ == old(self).inner()@.drop_last(),
            !r ==> *final(self) == *old(self),
    {
        if self.collection.is_empty() {
            false
        } else {
            let new_len: usize = self.collection.len() - 1;
            self.collection.truncate(new_len);
            true
        }
    }

    /// Truncate-to-length: destroys every element at index `len` or beyond,
    /// each exactly once. A `len` at or above the current length is a no-op;
    /// the surviving elements keep their indices and values.
    pub fn truncate_pinned(&mut self, len: usize)
        ensures
            len <= old(self).inner()@.len() ==> final(self).inner()@ == old(self).inner()@.subrange(
                0,
                len as int,
            ),
            len > old(self).inner()@.len() ==> final(self).inner()@ == old(self).inner()@,
    {
        self.collection.truncate(len)
    }

    /// A read-only view over the current contents, in storage order.
    pub fn as_slice(&self) -> (s: &[T])
        ensures
            s@ == self.inner()@,
    {
        self.collection.as_slice()
    }

    /// A mutable view over the current contents, in storage order: element
    /// values may be rewritten in place through it, which relocates nothing.
    pub fn as_mut_slice(&mut self) -> (s: &mut [T])
        ensures
            s@ == old(self).inner()@,
            final(self).inner()@ == final(s)@,
    {
        self.collection.as_mut_slice()
    }

    /// Leak into a permanent view: relinquishes the growable storage,
    /// producing a permanent stabilized view over exactly the current
    /// contents. No growable-storage operation is possible afterwards.
    pub fn leak(self) -> (b: ItemsPin<role::Items, Block<T>>)
        ensures
            b.inner()@ == self.inner()@,
    {
        ItemsPin::wrap(Block::new(self.collection))
    }
}

/// Append monotonicity, the survivors' half: appending one element leaves
/// every element at an index below the old length exactly where it was, and
/// places the new element at the old length.
pub proof fn lemma_append_preserves_survivors<T>(s: Seq<T>, value: T)
    ensures
        s.push(value).len() == s.len() + 1,
        s.push(value).subrange(0, s.len() as int) == s,
        s.push(value)[s.len() as int] == value,
{
    assert(s.push(value).subrange(0, s.len() as int) =~= s);
}

} // verus!
