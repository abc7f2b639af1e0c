//! The adapter through which the external session authority queries the
//! core at epoch boundaries, and the identity mapper it uses to resolve
//! accounts to validator identities.
//!
//! The protocol: an admin mutation arms the rotation signal and asks the
//! authority, best-effort, to end the current session at once. That first
//! rotation only queues the updated registry (the authority activates a set
//! one epoch after receiving it). On its next poll the authority sees
//! `should_end_session` answer `true`, rotates once more, and that second
//! `new_session` clears the signal and makes the queued set active — so the
//! change takes effect exactly once, even if the best-effort request was
//! dropped.

use vstd::prelude::*;

use crate::registry::{
    snapshot_view, BlockNumber, SessionIndex, ValidatorId, ValidatorSet,
};

verus! {

impl ValidatorSet {
    /// Answer to the authority's poll: end the session now exactly when a
    /// membership change is still owed its extra rotation. A pure read.
    pub fn should_end_session(&self, _now: BlockNumber) -> (r: bool)
        ensures
            r == self@.flag,
    {
        self.is_rotation_pending()
    }

    /// Hand the authority the new validator set: clears the rotation signal
    /// (so the session does not keep rotating) and returns the current
    /// registry snapshot, `None` when genesis never ran (the authority
    /// treats that as "no change").
    pub fn new_session(&mut self, _new_index: SessionIndex) -> (r: Option<Vec<ValidatorId>>)
        ensures
            final(self)@ == old(self)@.after_new_session(),
            snapshot_view(r) == old(self)@.validators,
    {
        self.clear_flag();
        self.get_validators()
    }

    /// Reserved extension point of the authority's contract; nothing to do.
    pub fn start_session(_start_index: SessionIndex) {
    }

    /// Reserved extension point of the authority's contract; nothing to do.
    pub fn end_session(_end_index: SessionIndex) {
    }

    /// Best-effort estimate of the next rotation: this core schedules none
    /// of its own, so the estimate is always the current block itself.
    pub fn estimate_next_session_rotation(now: BlockNumber) -> (r: Option<BlockNumber>)
        ensures
            r == Some(now),
    {
        Some(now)
    }
}

/// Maps an account to its validator identity for the session authority. The
/// two concepts are unified in this design, so the mapping is the identity
/// function; it stays a separate seam so distinct keys could be introduced
/// without touching callers.
pub struct ValidatorOf;

impl ValidatorOf {
    /// Resolve `account` to a validator identity: always `Some(account)`.
    pub fn convert(account: ValidatorId) -> (r: Option<ValidatorId>)
        ensures
            r == Some(account),
    {
        Some(account)
    }
}

} // verus!
