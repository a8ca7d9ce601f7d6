//! The mutual-exclusion guard around version checks.
//!
//! At most one version check may be in flight at a time. A second request
//! made while one runs is refused at once with the already-checking error;
//! it is neither queued nor coalesced.

use vstd::prelude::*;
use crate::errors::UpdateError;

verus! {

/// The process-wide state of the version-check guard, owned by whoever
/// drives the checks.
pub struct CheckGuard {
    checking: bool,
}

/// What one attempt to begin a check does to the guard: a free guard is
/// taken and the attempt succeeds; a taken guard stays taken and the
/// attempt is refused.
pub closed spec fn spec_try_begin(g: CheckGuard) -> (CheckGuard, Result<(), UpdateError>) {
    if g.in_flight() {
        (g, Err(UpdateError::AlreadyChecking))
    } else {
        (CheckGuard { checking: true }, Ok(()))
    }
}

impl CheckGuard {
    /// A check is currently in flight.
    pub closed spec fn in_flight(&self) -> bool {
        self.checking
    }

    /// A fresh guard, with no check in flight.
    pub fn new() -> (g: Self)
        ensures
            !g.in_flight(),
    {
        CheckGuard { checking: false }
    }

    /// Tries to begin a version check.
    pub fn try_begin(&mut self) -> (r: Result<(), UpdateError>)
        ensures
            (*final(self), r) == spec_try_begin(*old(self)),
            final(self).in_flight(),
            r is Ok <==> !old(self).in_flight(),
            r is Err ==> r == Err::<(), UpdateError>(UpdateError::AlreadyChecking) && *final(self)
                == *old(self),
    {
        if self.checking {
            Err(UpdateError::AlreadyChecking)
        } else {
            self.checking = true;
            Ok(())
        }
    }

    /// Ends the check in flight, freeing the guard.
    pub fn finish(&mut self)
        ensures
            !final(self).in_flight(),
    {
        self.checking = false;
    }
}

/// Law: once a check has begun on a free guard, a second attempt made
/// before the first finishes is refused with the already-checking error
/// and leaves the guard as it was; it is never queued or silently granted.
pub proof fn lemma_second_check_rejected(g0: CheckGuard)
    requires
        !g0.in_flight(),
    ensures
        ({
            let (g1, r1) = spec_try_begin(g0);
            let (g2, r2) = spec_try_begin(g1);
            r1 is Ok && r2 == Err::<(), UpdateError>(UpdateError::AlreadyChecking) && g2 == g1
        }),
{
}

} // verus!
