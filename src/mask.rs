//! Interrupt masking, the kernel's only means of mutual exclusion.
use vstd::prelude::*;

verus! {

/// The processor's interrupt-enable flag.
#[derive(Clone, Copy, Debug, PartialEq, Eq, Structural)]
pub struct Interrupts {
    pub enabled: bool,
}

/// What `acquire` saw: whether interrupts were enabled before masking.
#[derive(Clone, Copy, Debug, PartialEq, Eq, Structural)]
pub struct MaskToken {
    pub reenable: bool,
}

impl Interrupts {
    /// The flag after masking.
    pub open spec fn masked(self) -> Interrupts {
        Interrupts { enabled: false }
    }

    /// The token that `acquire` hands out from this state.
    pub open spec fn token(self) -> MaskToken {
        MaskToken { reenable: self.enabled }
    }

    /// The flag after releasing `t`.
    pub open spec fn restored(self, t: MaskToken) -> Interrupts {
        Interrupts { enabled: t.reenable }
    }

    pub fn new(enabled: bool) -> (r: Interrupts)
        ensures
            r.enabled == enabled,
    {
        Interrupts { enabled }
    }

    /// Records the current flag and masks interrupts.
    pub fn acquire(&mut self) -> (t: MaskToken)
        ensures
            t == old(self).token(),
            *final(self) == old(self).masked(),
    {
        let t = MaskToken { reenable: self.enabled };
        self.enabled = false;
        t
    }

    /// Restores the flag exactly as `acquire` found it, not unconditionally on.
    pub fn release(&mut self, t: MaskToken)
        ensures
            *final(self) == old(self).restored(t),
    {
        self.enabled = t.reenable;
    }
}

/// Acquiring while already masked and then releasing leaves interrupts
/// masked; releasing the outer acquisition afterwards restores the flag that
/// held before either.
pub proof fn lemma_nested_masks_compose(start: Interrupts)
    ensures
        !start.masked().masked().restored(start.masked().token()).enabled,
        start.masked().masked().restored(start.masked().token()).restored(start.token())
            == start,
{
}

} // verus!
