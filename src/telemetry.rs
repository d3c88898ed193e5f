//! The guard that lets the process-wide log subscriber be installed once.
use vstd::prelude::*;

verus! {

/// Records whether the process-wide subscriber has been installed.
pub struct InitOnce {
    installed: bool,
}

/// A claim on a guard whose state is `installed`: whether the claim may
/// install, and the state after it.
pub open spec fn claim_of(installed: bool) -> (bool, bool) {
    (!installed, true)
}

impl InitOnce {
    pub closed spec fn installed(&self) -> bool {
        self.installed
    }

    /// A guard under which nothing has been installed yet.
    pub fn new() -> (r: InitOnce)
        ensures
            !r.installed(),
    {
        InitOnce { installed: false }
    }

    /// Whether the subscriber has been installed.
    pub fn is_installed(&self) -> (r: bool)
        ensures
            r == self.installed(),
    {
        self.installed
    }

    /// Claims the right to install: granted to the first claim only.
    pub fn claim(&mut self) -> (r: bool)
        ensures
            (r, final(self).installed()) == claim_of(old(self).installed()),
    {
        let granted = !self.installed;
        self.installed = true;
        granted
    }
}

/// Whatever the starting state, of two claims in a row the second is refused;
/// on a fresh guard the first is granted. So installing twice never happens.
pub proof fn lemma_only_first_claim_installs(installed: bool)
    ensures
        !claim_of(claim_of(installed).1).0,
        !installed ==> claim_of(installed).0,
{
}

} // verus!
