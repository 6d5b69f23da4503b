//! Interrupt masking: the disable/enable primitives, the critical-section
//! proof token, and `free`, the direct interrupt-free entry point.

use vstd::prelude::*;

use crate::register::{Core, lemma_mask_clears_gie, lemma_mask_restore, lemma_unmask_sets_gie,
    spec_mask, spec_unmask};

verus! {

/// Proof token: holding one witnesses that interrupts are currently masked.
/// It cannot be constructed outside this crate; the scoped entry points make
/// one for the duration of the body they run, and a body that receives one
/// has no mutable access to the [`Core`], so it cannot unmask while the
/// token is alive.
pub struct CriticalSection {
    no_forge: (),
}

impl CriticalSection {
    /// Only the scoped entry points construct tokens, one per body they run.
    pub(crate) fn new() -> CriticalSection {
        CriticalSection { no_forge: () }
    }
}

/// Disables all maskable interrupts: clears the global interrupt-enable
/// flag and keeps every other status-register bit. Calling it twice has the
/// same effect as calling it once.
pub fn disable(core: &mut Core)
    ensures
        final(core).spec_sr() == spec_mask(old(core).spec_sr()),
        !final(core).gie(),
{
    let ghost sr0 = core.spec_sr();
    core.clear_gie();
    proof {
        lemma_mask_clears_gie(sr0);
    }
}

/// Enables all maskable interrupts: sets the global interrupt-enable flag
/// and keeps every other status-register bit.
///
/// Caller's obligation: no [`CriticalSection`] token obtained before this
/// call may be relied on after it returns — a live token stands for masked
/// interrupts, which this call ends. Code that holds a token should drop it
/// before calling this.
pub fn enable(core: &mut Core)
    ensures
        final(core).spec_sr() == spec_unmask(old(core).spec_sr()),
        final(core).gie(),
{
    let ghost sr0 = core.spec_sr();
    core.set_gie();
    proof {
        lemma_unmask_sets_gie(sr0);
    }
}

/// Runs `body` in an interrupt-free context, also known as a critical
/// section: saves the status register, masks interrupts, runs `body` with a
/// proof token and read-only access to the core, then restores the flag to
/// the saved value — re-enabling only if interrupts were enabled before the
/// call, so that nested uses stay masked until the outermost one ends.
///
/// On return the whole status register reads exactly as it did before the
/// call, the result is `body`'s result, and `body` ran on a core whose
/// global interrupt-enable flag read false.
pub fn free<F, R>(core: &mut Core, body: F) -> (r: R) where
    F: FnOnce(&CriticalSection, &Core) -> R,

    requires
        forall|cs: &CriticalSection, c: &Core| !c.gie() ==> call_requires(body, (cs, c)),
    ensures
        final(core).spec_sr() == old(core).spec_sr(),
        final(core).gie() == old(core).gie(),
        exists|cs: &CriticalSection, c: &Core|
            !c.gie() && c.spec_sr() == spec_mask(old(core).spec_sr())
                && call_ensures(body, (cs, c), r),
{
    let ghost sr0 = core.spec_sr();
    let status = core.read();

    disable(core);

    let cs = CriticalSection::new();
    let r = body(&cs, &*core);

    // If the interrupts were active before the `disable` call, re-enable
    // them. Otherwise, keep them disabled.
    if status.gie() {
        enable(core);
    }

    proof {
        lemma_mask_restore(sr0);
    }
    r
}

} // verus!
