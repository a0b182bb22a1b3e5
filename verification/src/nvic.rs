//! The interrupt controller binding: one enable flag and one pending flag
//! per vector. This is the coarse gate; the line-level gate is in the
//! registers.
use crate::bits::{bit, bits, get_bit, lemma_zero, set_bit};
use crate::line::Vector;
use vstd::prelude::*;

verus! {

/// What the interrupt controller holds, vector by vector.
pub struct NvicView {
    /// The vectors that are escalated to the processor.
    pub enabled: Set<Vector>,
    /// The vectors that were raised and whose handler has not been entered
    /// since.
    pub pending: Set<Vector>,
}

impl NvicView {
    /// The state after reset: nothing enabled, nothing pending.
    pub open spec fn reset() -> NvicView {
        NvicView { enabled: Set::empty(), pending: Set::empty() }
    }

    /// Whether the processor enters the handler of `vector`.
    pub open spec fn takes(self, vector: Vector) -> bool {
        self.enabled.contains(vector) && self.pending.contains(vector)
    }
}

/// The vectors whose flag is set in `word`.
pub open spec fn vectors(word: u32) -> Set<Vector> {
    Set::new(|v: Vector| bits(word).contains(v.ordinal()))
}

/// The enable and pending flags of the interrupt controller.
#[derive(Clone, Copy, Debug)]
pub struct Nvic {
    enabled: u32,
    pending: u32,
}

impl Nvic {
    /// What the interrupt controller holds, vector by vector.
    pub closed spec fn view(&self) -> NvicView {
        NvicView { enabled: vectors(self.enabled), pending: vectors(self.pending) }
    }

    /// The interrupt controller after reset.
    pub fn new() -> (r: Nvic)
        ensures
            r@ == NvicView::reset(),
    {
        let r = Nvic { enabled: 0, pending: 0 };
        proof {
            assert forall|j: int| !bit(0u32, j) by {
                lemma_zero(j);
            }
            assert(vectors(0u32) =~= Set::<Vector>::empty());
        }
        r
    }

    /// Enables the escalation of `vector` to the processor.
    pub fn unmask(&mut self, vector: Vector)
        ensures
            final(self)@ == (NvicView { enabled: old(self)@.enabled.insert(vector), ..old(self)@ }),
    {
        self.enabled = set_bit(self.enabled, vector.slot(), true);
        proof {
            assert(vectors(self.enabled) =~= old(self)@.enabled.insert(vector));
        }
    }

    /// Disables the escalation of `vector` to the processor.
    pub fn mask(&mut self, vector: Vector)
        ensures
            final(self)@ == (NvicView { enabled: old(self)@.enabled.remove(vector), ..old(self)@ }),
    {
        self.enabled = set_bit(self.enabled, vector.slot(), false);
        proof {
            assert(vectors(self.enabled) =~= old(self)@.enabled.remove(vector));
        }
    }

    /// Clears the pending flag of `vector`, so that a stale request does not
    /// enter the handler once more.
    pub fn unpend(&mut self, vector: Vector)
        ensures
            final(self)@ == (NvicView { pending: old(self)@.pending.remove(vector), ..old(self)@ }),
    {
        self.pending = set_bit(self.pending, vector.slot(), false);
        proof {
            assert(vectors(self.pending) =~= old(self)@.pending.remove(vector));
        }
    }

    /// Sets the pending flag of `vector`: what the hardware does when a
    /// line of the vector asks for service.
    pub fn pend(&mut self, vector: Vector)
        ensures
            final(self)@ == (NvicView { pending: old(self)@.pending.insert(vector), ..old(self)@ }),
    {
        self.pending = set_bit(self.pending, vector.slot(), true);
        proof {
            assert(vectors(self.pending) =~= old(self)@.pending.insert(vector));
        }
    }

    /// Whether `vector` is escalated to the processor.
    pub fn is_enabled(&self, vector: Vector) -> (r: bool)
        ensures
            r == self@.enabled.contains(vector),
    {
        get_bit(self.enabled, vector.slot())
    }

    /// Whether `vector` was raised and not entered since.
    pub fn is_pending(&self, vector: Vector) -> (r: bool)
        ensures
            r == self@.pending.contains(vector),
    {
        get_bit(self.pending, vector.slot())
    }

    /// Whether the processor enters the handler of `vector`: the vector is
    /// pending and enabled.
    pub fn takes(&self, vector: Vector) -> (r: bool)
        ensures
            r == self@.takes(vector),
    {
        self.is_enabled(vector) && self.is_pending(vector)
    }
}

} // verus!
