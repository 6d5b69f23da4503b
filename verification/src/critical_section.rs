//! The acquire/release pair of the single-core critical-section provider,
//! and `with`, the scoped entry point built on that pair.
//!
//! `acquire` saves the status register and masks interrupts; `release`
//! restores the flag to exactly the value its matching acquire saved, never
//! unconditionally re-enabling. That conditional restore is what makes
//! nesting correct: an inner release, whose acquire found interrupts already
//! masked, leaves them masked, and only the outermost release re-enables.

use vstd::prelude::*;

use crate::interrupt::{self, CriticalSection};
use crate::register::{Core, lemma_mask_restore, spec_mask, spec_restore};

verus! {

/// Opaque restore value: the status register as it stood at the moment of
/// one `acquire` call. It is produced exactly once per acquire, consumed
/// exactly once by the matching `release`, and inspected by nothing else;
/// it is not copyable, so one release cannot be satisfied twice or by a
/// snapshot it did not match.
pub struct SavedInterruptState {
    sr: crate::register::Sr,
}

impl SavedInterruptState {
    /// The saved value of the global interrupt-enable flag.
    pub closed spec fn saved_gie(self) -> bool {
        self.sr.spec_gie()
    }
}

/// Saves the status register, masks interrupts, and hands the saved state
/// to the caller for the matching `release`. On return interrupts are
/// masked and the saved state records exactly the flag value found on entry.
pub fn acquire(core: &mut Core) -> (state: SavedInterruptState)
    ensures
        final(core).spec_sr() == spec_mask(old(core).spec_sr()),
        !final(core).gie(),
        state.saved_gie() == old(core).gie(),
{
    let sr = core.read();
    interrupt::disable(core);
    SavedInterruptState { sr }
}

/// Restores the flag recorded by the matching `acquire`: re-enables
/// interrupts only if they were enabled before that acquire, and otherwise
/// changes nothing. Under the nesting discipline the caller's flag is clear
/// here, so the flag after the call equals the saved one.
///
/// Caller's obligation: `state` must be the value returned by the acquire
/// call that this release matches under the strictly nested discipline.
pub fn release(core: &mut Core, state: SavedInterruptState)
    ensures
        final(core).spec_sr() == spec_restore(old(core).spec_sr(), state.saved_gie()),
        final(core).gie() == (state.saved_gie() || old(core).gie()),
{
    if state.sr.gie() {
        interrupt::enable(core);
    }
}

/// Scoped critical section: acquires, runs `body` with a proof token and
/// read-only access to the core, then releases. On return the whole status
/// register reads exactly as it did before the call, the result is `body`'s
/// result, and `body` ran on a core whose global interrupt-enable flag read
/// false.
pub fn with<F, R>(core: &mut Core, body: F) -> (r: R) where
    F: FnOnce(&CriticalSection, &Core) -> R,

    requires
        forall|cs: &CriticalSection, c: &Core| !c.gie() ==> call_requires(body, (cs, c)),
    ensures
        final(core).spec_sr() == old(core).spec_sr(),
        final(core).gie() == old(core).gie(),
        exists|cs: &CriticalSection, c: &Core|
            !c.gie() && c.spec_sr() == spec_mask(old(core).spec_sr())
                && call_ensures(body, (cs, c), r),
{
    let ghost sr0 = core.spec_sr();
    let state = acquire(core);

    let cs = CriticalSection::new();
    let r = body(&cs, &*core);

    release(core, state);

    proof {
        lemma_mask_restore(sr0);
    }
    r
}

} // verus!
