//! Stabilized handles and the stabilized-iterator adapter.
//!
//! A [`PinRef`] is a reference wrapped with the claim that its referent keeps
//! its address for as long as the handle is held. A [`PinIter`] turns a whole
//! sequence of plain references into stabilized handles at once: the
//! attestation is made when the adapter is built, not re-checked per item,
//! and the adapter yields each handle in exactly the source's order.

use crate::Movable;
use vstd::prelude::*;

verus! {

/// A reference carrying the address-stability guarantee for its referent.
pub struct PinRef<'a, T> {
    target: &'a T,
}

impl<'a, T> PinRef<'a, T> {
    /// The reference this handle stabilizes.
    pub closed spec fn spec_target(self) -> &'a T {
        self.target
    }

    /// The value of the stabilized referent.
    pub open spec fn value(self) -> T {
        *self.spec_target()
    }

    /// Checked construction: a referent without address-sensitive state may
    /// always be treated as stabilized, because relocating it is harmless.
    pub fn new(target: &'a T) -> (h: PinRef<'a, T>) where T: Movable
        ensures
            h.spec_target() == target,
    {
        PinRef { target }
    }

    /// Attested construction: the caller guarantees that the referent stays
    /// at its address for as long as this handle is held.
    pub fn new_unchecked(target: &'a T) -> (h: PinRef<'a, T>)
        ensures
            h.spec_target() == target,
    {
        PinRef { target }
    }

    /// Read access to the stabilized referent.
    pub fn get_ref(&self) -> (r: &'a T)
        ensures
            r == self.spec_target(),
    {
        self.target
    }
}

/// The stabilized-iterator adapter: holds one source sequence of
/// reference-like handles and re-emits each of them, in source order, as a
/// stabilized [`PinRef`], without re-checking the guarantee per item.
pub struct PinIter<'a, T> {
    handles: Vec<&'a T>,
    pos: usize,
}

impl<'a, T> PinIter<'a, T> {
    /// The full source sequence of handles the adapter was built over.
    pub closed spec fn source(self) -> Seq<&'a T> {
        self.handles@
    }

    /// How many handles have already been yielded.
    pub closed spec fn position(self) -> int {
        self.pos as int
    }

    /// Structural validity: the adapter never stands past the end of its
    /// source. Every adapter value this crate hands out satisfies it.
    #[verifier::type_invariant]
    pub closed spec fn wf(self) -> bool {
        self.pos <= self.handles@.len()
    }

    /// The handles not yet yielded, in the order they will come out.
    pub open spec fn remaining(self) -> Seq<&'a T> {
        self.source().skip(self.position())
    }

    /// The adapter state produced by wrapping `handles`; the mathematical
    /// model of construction.
    pub closed spec fn spec_new(handles: Vec<&'a T>) -> PinIter<'a, T> {
        PinIter { handles, pos: 0 }
    }

    /// Checked construction: referents without address-sensitive state may
    /// always be handled as stabilized.
    pub fn new(handles: Vec<&'a T>) -> (it: PinIter<'a, T>) where T: Movable
        ensures
            it == PinIter::spec_new(handles),
            it.remaining() == handles@,
    {
        let it = PinIter { handles, pos: 0 };
        proof {
            assert(it.remaining() =~= it.handles@);
        }
        it
    }

    /// Attested construction: the caller guarantees that every referent in
    /// `handles` stays at its address for as long as the handle yielded for
    /// it is held.
    pub fn new_unchecked(handles: Vec<&'a T>) -> (it: PinIter<'a, T>)
        ensures
            it == PinIter::spec_new(handles),
            it.remaining() == handles@,
    {
        let it = PinIter { handles, pos: 0 };
        proof {
            assert(it.remaining() =~= it.handles@);
        }
        it
    }

    /// One iteration step: wraps the next source handle as a stabilized
    /// handle, or reports permanent exhaustion.
    pub fn next(&mut self) -> (r: Option<PinRef<'a, T>>)
        ensures
            match r {
                Some(h) => {
                    &&& old(self).remaining().len() > 0
                    &&& h.spec_target() == old(self).remaining()[0]
                    &&& final(self).remaining() == old(self).remaining().skip(1)
                },
                None => {
                    &&& old(self).remaining().len() == 0
                    &&& *final(self) == *old(self)
                },
            },
            final(self).source() == old(self).source(),
    {
        proof {
            use_type_invariant(&*self);
        }
        if self.pos < self.handles.len() {
            let target: &'a T = self.handles[self.pos];
            self.pos = self.pos + 1;
            proof {
                assert(self.remaining() =~= old(self).remaining().skip(1));
            }
            Some(PinRef { target })
        } else {
            None
        }
    }
}

/// Order and count preservation: at any adapter state, exactly the source
/// handles past the ones already yielded are still to come, and the handle
/// that will be yielded `k` steps from now is exactly the source handle `k`
/// places further on — the adapter reorders, drops and adds nothing.
pub proof fn lemma_stabilized_iteration_order<'a, T>(it: PinIter<'a, T>, k: int)
    requires
        it.wf(),
        0 <= k < it.remaining().len(),
    ensures
        it.remaining().len() == it.source().len() - it.position(),
        it.remaining()[k] == it.source()[it.position() + k],
{
}

} // verus!
