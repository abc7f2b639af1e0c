//! Management of the validator set of a permissioned, authority-based ledger.
//!
//! The crate keeps the authoritative, ordered list of validator identities,
//! lets a privileged administrator add and remove validators, and drives a
//! two-phase session-rotation protocol through a single pending-rotation
//! signal, so that a membership change takes effect exactly once without
//! causing an unbounded chain of rotations.
//!
//! The surrounding session authority (the component that schedules epochs,
//! holds session keys, and activates validator sets with a one-epoch lag) is
//! an external collaborator: this crate only answers its callbacks and asks
//! it, best-effort, for an immediate rotation after a mutation.

pub mod laws;
pub mod registry;
pub mod session;
