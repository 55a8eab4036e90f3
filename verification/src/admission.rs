//! Connection admission: a single slot that at most one session holds.
//!
//! The server tries to take the slot for every incoming connection. While it
//! is held, every further connection is rejected without running any
//! handshake or channel loop; the slot is cleared on every exit path, so the
//! next connection is admitted.

use vstd::prelude::*;

verus! {

/// The single admission slot: occupied while a connection is being served.
#[derive(Clone, Copy, Debug, PartialEq, Eq, Structural)]
pub struct AdmissionSlot {
    pub occupied: bool,
}

/// What one admission attempt does: a free slot is granted and becomes
/// occupied; a held slot rejects the attempt and stays held.
pub open spec fn spec_try_acquire(s: AdmissionSlot) -> (bool, AdmissionSlot) {
    ((!s.occupied), (AdmissionSlot { occupied: true }))
}

/// What a release does: the slot is free afterwards, whatever it was.
pub open spec fn spec_release(s: AdmissionSlot) -> AdmissionSlot {
    AdmissionSlot { occupied: false }
}

impl AdmissionSlot {
    /// The server's slot at startup: free.
    pub fn new() -> (s: Self)
        ensures
            !s.occupied,
    {
        AdmissionSlot { occupied: false }
    }

    /// Try to admit one connection. Granted exactly when the slot was free;
    /// either way the slot is occupied afterwards.
    pub fn try_acquire(&mut self) -> (granted: bool)
        ensures
            (granted, *final(self)) == spec_try_acquire(*old(self)),
    {
        let granted = !self.occupied;
        self.occupied = true;
        granted
    }

    /// Clear the slot. Every exit path of a connection — completion,
    /// rejection or failure — releases, so the server can admit the next one.
    pub fn release(&mut self)
        ensures
            *final(self) == spec_release(*old(self)),
    {
        self.occupied = false;
    }
}

/// Law: admission is exclusive. After a granted admission, a second attempt
/// before the release is rejected; after the release, the next attempt is
/// granted — whether or not the first session ended well plays no part.
pub proof fn lemma_admission_exclusivity(s0: AdmissionSlot)
    ensures
        ({
            let (g1, s1) = spec_try_acquire(s0);
            let (g2, s2) = spec_try_acquire(s1);
            g1 ==> !g2
        }),
        ({
            let (g1, s1) = spec_try_acquire(s0);
            let (g3, s3) = spec_try_acquire(spec_release(s1));
            g3
        }),
{
}

} // verus!
