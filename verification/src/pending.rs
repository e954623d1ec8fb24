//! The pending-request counter and the polling-trigger registration it
//! drives. Both live on the host thread and are mutated nowhere else, so a
//! plain owned value models them exactly.

use vstd::prelude::*;

verus! {

/// Host-thread bookkeeping: how many submitted requests still owe an
/// outcome, and whether the host's polling trigger is currently installed.
#[derive(Clone, Copy, Debug, PartialEq, Eq)]
pub struct PendingCounter {
    pub pending: usize,
    pub hook_installed: bool,
}

impl PendingCounter {
    /// The trigger is installed exactly while work is outstanding.
    pub open spec fn wf(self) -> bool {
        self.hook_installed == (self.pending > 0)
    }

    /// A fresh counter: nothing pending, no trigger installed.
    pub fn new() -> (c: PendingCounter)
        ensures
            c.pending == 0,
            !c.hook_installed,
            c.wf(),
    {
        PendingCounter { pending: 0, hook_installed: false }
    }

    /// Accounts for one accepted submission. A request that registered a
    /// callback occupies the counter until its outcome is drained, and the
    /// polling trigger is installed if it was not. A request that registered
    /// no callback will never produce an outcome, so the slot it took is
    /// given back at once and the counter is unchanged on balance.
    ///
    /// Returns whether the caller must install the polling trigger.
    pub fn on_submit(&mut self, has_callback: bool) -> (install: bool)
        requires
            old(self).pending < usize::MAX,
        ensures
            old(self).wf() ==> final(self).wf(),
            has_callback ==> final(self).pending == old(self).pending + 1,
            has_callback ==> final(self).hook_installed,
            !has_callback ==> *final(self) == *old(self),
            install == (has_callback && !old(self).hook_installed),
    {
        if has_callback {
            self.pending = self.pending + 1;
            let install = !self.hook_installed;
            self.hook_installed = true;
            install
        } else {
            false
        }
    }

    /// Accounts for one drained outcome. When the last outstanding request
    /// is accounted for, the trigger is due for removal and draining stops
    /// for this tick.
    ///
    /// Returns whether the caller must deregister the polling trigger. A
    /// call with nothing pending is a spurious invocation and asks for the
    /// (idempotent) removal without going below zero.
    pub fn on_outcome_drained(&mut self) -> (deregister: bool)
        ensures
            old(self).wf() ==> final(self).wf(),
            old(self).pending > 0 ==> final(self).pending == old(self).pending - 1,
            old(self).pending == 0 ==> final(self).pending == 0,
            deregister == (final(self).pending == 0),
            final(self).hook_installed == (old(self).hook_installed && !deregister),
    {
        if self.pending > 0 {
            self.pending = self.pending - 1;
        }
        if self.pending == 0 {
            self.hook_installed = false;
            true
        } else {
            false
        }
    }

    /// How many submitted requests still owe an outcome.
    pub fn pending(&self) -> (n: usize)
        ensures
            n == self.pending,
    {
        self.pending
    }

    /// Whether the polling trigger is currently installed.
    pub fn hook_installed(&self) -> (b: bool)
        ensures
            b == self.hook_installed,
    {
        self.hook_installed
    }
}

} // verus!
