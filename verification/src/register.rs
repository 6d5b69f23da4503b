//! Model of the status register and of the processor state it lives in.
//!
//! The global interrupt-enable flag is one bit of the 16-bit status register.
//! [`spec_mask`], [`spec_unmask`] and [`spec_restore`] are the mathematical
//! transitions that masking, unmasking and a conditional restore perform on
//! that register; the laws about them at the bottom of this module are what
//! make nested critical sections correct.

use vstd::prelude::*;

verus! {

/// Bit of the status register that holds the global interrupt-enable flag.
pub const GIE: u16 = 0x0008;

/// An immutable snapshot of the 16-bit status register.
#[derive(Clone, Copy, PartialEq, Eq, Structural)]
pub struct Sr {
    pub bits: u16,
}

impl Sr {
    /// Whether this snapshot has the global interrupt-enable flag set.
    pub open spec fn spec_gie(self) -> bool {
        self.bits & GIE != 0
    }

    pub fn from_bits(bits: u16) -> (sr: Sr)
        ensures
            sr.bits == bits,
    {
        Sr { bits }
    }

    pub fn bits(&self) -> (r: u16)
        ensures
            r == self.bits,
    {
        self.bits
    }

    /// Reads the global interrupt-enable flag out of the snapshot.
    pub fn gie(&self) -> (r: bool)
        ensures
            r == self.spec_gie(),
    {
        self.bits & GIE != 0
    }
}

/// The status register after interrupts are masked: the GIE bit cleared,
/// every other bit kept.
pub open spec fn spec_mask(sr: Sr) -> Sr {
    Sr { bits: sr.bits & !GIE }
}

/// The status register after interrupts are unmasked: the GIE bit set,
/// every other bit kept.
pub open spec fn spec_unmask(sr: Sr) -> Sr {
    Sr { bits: sr.bits | GIE }
}

/// The status register after a release that recorded `saved` as the flag
/// value of its matching acquire: unmask if the flag was set, else no change.
pub open spec fn spec_restore(sr: Sr, saved: bool) -> Sr {
    if saved {
        spec_unmask(sr)
    } else {
        sr
    }
}

/// The processor state this crate acts on: a single core with one status
/// register. The flag is mutated only through the masking operations and
/// read only through [`Core::read`].
pub struct Core {
    sr: Sr,
}

impl Core {
    /// The current status register.
    pub closed spec fn spec_sr(self) -> Sr {
        self.sr
    }

    /// The current value of the global interrupt-enable flag.
    pub open spec fn gie(self) -> bool {
        self.spec_sr().spec_gie()
    }

    pub fn new(sr: Sr) -> (c: Core)
        ensures
            c.spec_sr() == sr,
    {
        Core { sr }
    }

    /// Status snapshot: a side-effect-free read of the status register.
    pub fn read(&self) -> (sr: Sr)
        ensures
            sr == self.spec_sr(),
    {
        self.sr
    }

    /// Register primitive: clear the GIE bit, keeping every other bit.
    pub(crate) fn clear_gie(&mut self)
        ensures
            final(self).spec_sr() == spec_mask(old(self).spec_sr()),
    {
        self.sr = Sr { bits: self.sr.bits & !GIE };
    }

    /// Register primitive: set the GIE bit, keeping every other bit.
    pub(crate) fn set_gie(&mut self)
        ensures
            final(self).spec_sr() == spec_unmask(old(self).spec_sr()),
    {
        self.sr = Sr { bits: self.sr.bits | GIE };
    }
}

/// After masking, the global interrupt-enable flag is clear.
pub proof fn lemma_mask_clears_gie(sr: Sr)
    ensures
        !spec_mask(sr).spec_gie(),
{
    let b: u16 = sr.bits;
    assert((b & !GIE) & GIE == 0) by (bit_vector);
}

/// After unmasking, the global interrupt-enable flag is set.
pub proof fn lemma_unmask_sets_gie(sr: Sr)
    ensures
        spec_unmask(sr).spec_gie(),
{
    let b: u16 = sr.bits;
    assert((b | GIE) & GIE != 0) by (bit_vector);
}

/// Law: masking and then restoring to the flag read before the mask gives
/// back exactly the status register read before the mask, whatever the
/// initial flag value was.
pub proof fn lemma_mask_restore(sr: Sr)
    ensures
        spec_restore(spec_mask(sr), sr.spec_gie()) == sr,
{
    let b: u16 = sr.bits;
    if sr.spec_gie() {
        assert((b & !GIE) | GIE == b) by (bit_vector)
            requires
                b & GIE != 0,
        ;
    } else {
        assert(b & !GIE == b) by (bit_vector)
            requires
                b & GIE == 0,
        ;
    }
}

/// Law: masking is a level, not a counter. Masking twice leaves the same
/// register as masking once, and a single unmask after two masks sets the
/// global interrupt-enable flag.
pub proof fn lemma_mask_idempotent(sr: Sr)
    ensures
        spec_mask(spec_mask(sr)) == spec_mask(sr),
        spec_unmask(spec_mask(spec_mask(sr))).spec_gie(),
{
    let b: u16 = sr.bits;
    assert((b & !GIE) & !GIE == b & !GIE) by (bit_vector);
    assert((((b & !GIE) & !GIE) | GIE) & GIE != 0) by (bit_vector);
}

/// Law: strictly nested acquire/release pairs restore correctly. Starting
/// with the flag set, the outer acquire masks and saves a set flag, the
/// inner acquire masks again and saves a clear flag, the inner release
/// leaves the flag clear, and only the outer release sets it again —
/// restoring the initial status register exactly. Between the outer acquire
/// and the outer release the flag never reads set.
pub proof fn lemma_nesting_restores(sr0: Sr)
    requires
        sr0.spec_gie(),
    ensures
        ({
            let sr1 = spec_mask(sr0);
            let sr2 = spec_mask(sr1);
            let sr3 = spec_restore(sr2, sr1.spec_gie());
            let sr4 = spec_restore(sr3, sr0.spec_gie());
            !sr1.spec_gie() && !sr2.spec_gie() && !sr3.spec_gie() && sr4 == sr0
                && sr4.spec_gie()
        }),
{
    lemma_mask_clears_gie(sr0);
    lemma_mask_clears_gie(spec_mask(sr0));
    lemma_mask_idempotent(sr0);
    lemma_mask_restore(sr0);
}

} // verus!
