//! The validator registry, the rotation signal, the event log, and the
//! privileged admin operations that mutate them.

use vstd::prelude::*;

verus! {

/// Identity of a network participant: an opaque, comparable handle, here a
/// machine word. The registry assumes nothing of it beyond equality.
pub type ValidatorId = u64;

/// Index of a session (an epoch), as the session authority counts them.
pub type SessionIndex = u32;

/// Height of a block in the chain.
pub type BlockNumber = u64;

/// Provenance of a call into the admin surface.
#[derive(Clone, Copy, PartialEq, Eq, Structural, Debug)]
pub enum Origin {
    /// The root / administrative authority.
    Root,
    /// An ordinary caller, identified by its account.
    Signed(ValidatorId),
}

/// Why an admin operation was rejected. A rejected operation changes nothing.
#[derive(Clone, Copy, PartialEq, Eq, Structural, Debug)]
pub enum Error {
    /// The caller did not present the administrative capability.
    Unauthorized,
    /// The registry was never populated by genesis configuration.
    UninitializedRegistry,
}

/// A membership change of record, kept in an append-only log for external
/// observers; nothing in this crate reads it back.
#[derive(Clone, Copy, PartialEq, Eq, Structural, Debug)]
pub enum MembershipEvent {
    ValidatorAdded(ValidatorId),
    ValidatorRemoved(ValidatorId),
}

/// Abstract state of the core, the form in which every contract speaks of it.
#[verifier::ext_equal]
pub struct ValidatorSetView {
    /// `None` until genesis configuration runs; afterwards the ordered list
    /// of validator identities (insertion order is the canonical order).
    pub validators: Option<Seq<ValidatorId>>,
    /// The rotation signal: a membership change happened since the last
    /// `new_session` and one extra rotation is still owed.
    pub flag: bool,
    /// Every event emitted so far, oldest first.
    pub events: Seq<MembershipEvent>,
}

/// Remove the first occurrence of `id` from `s` by swapping the last element
/// into its place; absent `id`, the sequence is unchanged. Removal therefore
/// does not preserve the relative order of the remaining elements.
pub open spec fn swap_remove_first(s: Seq<ValidatorId>, id: ValidatorId) -> Seq<ValidatorId> {
    match s.index_of_first(id) {
        Some(i) => s.update(i, s.last()).drop_last(),
        None => s,
    }
}

/// The contents of a snapshot handed to a caller, as a mathematical value.
pub open spec fn snapshot_view(r: Option<Vec<ValidatorId>>) -> Option<Seq<ValidatorId>> {
    match r {
        Some(v) => Some(v@),
        None => None,
    }
}

impl ValidatorSetView {
    /// An admin mutation goes through exactly when the caller is root and the
    /// registry has been initialized.
    pub open spec fn mutation_allowed(self, origin: Origin) -> bool {
        origin == Origin::Root && self.validators is Some
    }

    /// What an admin operation reports: authorization is checked first, then
    /// initialization; a mutation that goes through reports `Ok`.
    pub open spec fn mutation_result(self, origin: Origin) -> Result<(), Error> {
        if origin != Origin::Root {
            Err(Error::Unauthorized)
        } else if self.validators is None {
            Err(Error::UninitializedRegistry)
        } else {
            Ok(())
        }
    }

    /// State after `add_validator(origin, id)`: on success `id` is appended,
    /// the event is logged and the signal armed; otherwise nothing changes.
    pub open spec fn after_add(self, origin: Origin, id: ValidatorId) -> ValidatorSetView {
        if self.mutation_allowed(origin) {
            ValidatorSetView {
                validators: Some(self.validators->Some_0.push(id)),
                flag: true,
                events: self.events.push(MembershipEvent::ValidatorAdded(id)),
            }
        } else {
            self
        }
    }

    /// State after `remove_validator(origin, id)`: on success the first
    /// occurrence of `id` is swap-removed (a no-op if `id` is absent), the
    /// event is logged and the signal armed; otherwise nothing changes.
    pub open spec fn after_remove(self, origin: Origin, id: ValidatorId) -> ValidatorSetView {
        if self.mutation_allowed(origin) {
            ValidatorSetView {
                validators: Some(swap_remove_first(self.validators->Some_0, id)),
                flag: true,
                events: self.events.push(MembershipEvent::ValidatorRemoved(id)),
            }
        } else {
            self
        }
    }

    /// State after `new_session`: the signal is cleared, nothing else moves.
    pub open spec fn after_new_session(self) -> ValidatorSetView {
        ValidatorSetView { flag: false, ..self }
    }
}

/// The core's state: registry, rotation signal, and event log. A single value
/// of this type stands for the process-wide state; every entry point of the
/// crate is a method on it (or reads it), so all mutation is mediated here.
pub struct ValidatorSet {
    /// Whether genesis configuration has run; while `false`, `validators`
    /// stays empty and the registry reads as `None`.
    pub(crate) initialized: bool,
    /// The registry contents; meaningful only once `initialized`.
    pub(crate) validators: Vec<ValidatorId>,
    /// The rotation signal.
    pub(crate) flag: bool,
    /// The append-only event log.
    pub(crate) events: Vec<MembershipEvent>,
}

impl View for ValidatorSet {
    type V = ValidatorSetView;

    closed spec fn view(&self) -> ValidatorSetView {
        ValidatorSetView {
            validators: if self.initialized {
                Some(self.validators@)
            } else {
                None
            },
            flag: self.flag,
            events: self.events@,
        }
    }
}

/// Copy a list of identities element by element, so that a caller gets an
/// owned snapshot while the registry keeps its own.
fn copy_ids(src: &Vec<ValidatorId>) -> (r: Vec<ValidatorId>)
    ensures
        r@ == src@,
{
    let mut out: Vec<ValidatorId> = Vec::new();
    let mut i: usize = 0;
    while i < src.len()
        invariant
            i <= src@.len(),
            out@ == src@.take(i as int),
        decreases src@.len() - i,
    {
        out.push(src[i]);
        proof {
            assert(src@.take(i as int).push(src@[i as int]) =~= src@.take(i as int + 1));
        }
        i = i + 1;
    }
    proof {
        assert(src@.take(src@.len() as int) =~= src@);
    }
    out
}

impl ValidatorSet {
    /// A core whose registry was never configured: no validators, signal
    /// idle, no events.
    pub fn new() -> (s: ValidatorSet)
        ensures
            s@.validators is None,
            !s@.flag,
            s@.events == Seq::<MembershipEvent>::empty(),
    {
        ValidatorSet { initialized: false, validators: Vec::new(), flag: false, events: Vec::new() }
    }

    /// Genesis configuration: the registry starts as the supplied list, in
    /// the supplied order; the signal is idle and the event log empty.
    pub fn from_genesis(initial: Vec<ValidatorId>) -> (s: ValidatorSet)
        ensures
            s@.validators == Some(initial@),
            !s@.flag,
            s@.events == Seq::<MembershipEvent>::empty(),
    {
        ValidatorSet { initialized: true, validators: initial, flag: false, events: Vec::new() }
    }

    /// Current registry snapshot: `None` exactly when genesis never ran,
    /// otherwise the registry contents. A pure read.
    pub fn get_validators(&self) -> (r: Option<Vec<ValidatorId>>)
        ensures
            snapshot_view(r) == self@.validators,
    {
        if self.initialized {
            Some(copy_ids(&self.validators))
        } else {
            None
        }
    }

    /// Whether a membership change is still waiting for its extra rotation.
    /// A pure read of the signal.
    pub fn is_rotation_pending(&self) -> (r: bool)
        ensures
            r == self@.flag,
    {
        self.flag
    }

    /// The event log, oldest event first. A pure read.
    pub fn events(&self) -> (r: &Vec<MembershipEvent>)
        ensures
            r@ == self@.events,
    {
        &self.events
    }

    /// Clear the rotation signal; the session adapter does this inside
    /// `new_session` and nowhere else.
    pub(crate) fn clear_flag(&mut self)
        ensures
            final(self)@ == old(self)@.after_new_session(),
    {
        self.flag = false;
    }

    /// Append `validator_id` to the registry (duplicates are accepted), log
    /// `ValidatorAdded` and arm the rotation signal. Only root may call;
    /// before genesis the registry cannot be mutated. On any error nothing
    /// changes. The caller should then ask the session authority for an
    /// immediate, best-effort rotation; the armed signal alone already
    /// guarantees that the change takes effect.
    pub fn add_validator(&mut self, origin: Origin, validator_id: ValidatorId) -> (r: Result<
        (),
        Error,
    >)
        ensures
            final(self)@ == old(self)@.after_add(origin, validator_id),
            r == old(self)@.mutation_result(origin),
    {
        match origin {
            Origin::Signed(_) => {
                return Err(Error::Unauthorized);
            },
            Origin::Root => {},
        }
        if !self.initialized {
            return Err(Error::UninitializedRegistry);
        }
        self.validators.push(validator_id);
        self.events.push(MembershipEvent::ValidatorAdded(validator_id));
        self.flag = true;
        proof {
            assert(self@ =~= old(self)@.after_add(origin, validator_id));
        }
        Ok(())
    }

    /// Remove the first occurrence of `validator_id` from the registry by
    /// swap-removal (an absent identity is tolerated as a no-op), log
    /// `ValidatorRemoved` and arm the rotation signal. Authorization and
    /// initialization are checked as for `add_validator`; on any error
    /// nothing changes.
    pub fn remove_validator(&mut self, origin: Origin, validator_id: ValidatorId) -> (r: Result<
        (),
        Error,
    >)
        ensures
            final(self)@ == old(self)@.after_remove(origin, validator_id),
            r == old(self)@.mutation_result(origin),
    {
        match origin {
            Origin::Signed(_) => {
                return Err(Error::Unauthorized);
            },
            Origin::Root => {},
        }
        if !self.initialized {
            return Err(Error::UninitializedRegistry);
        }
        let ghost s = self.validators@;
        let mut i: usize = 0;
        while i < self.validators.len() && self.validators[i] != validator_id
            invariant
                self.validators@ == s,
                i <= s.len(),
                forall|j: int| 0 <= j < i ==> s[j] != validator_id,
            decreases s.len() - i,
        {
            i = i + 1;
        }
        if i < self.validators.len() {
            proof {
                s.index_of_first_ensures(validator_id);
                assert(s.contains(validator_id)) by {
                    assert(s[i as int] == validator_id);
                }
                let k = s.index_of_first(validator_id)->Some_0;
                assert(k == i) by {
                    if k < i {
                        assert(s[k] != validator_id);
                    }
                    if i < k {
                        assert(s[i as int] != validator_id);
                    }
                }
            }
            self.validators.swap_remove(i);
        } else {
            proof {
                s.index_of_first_ensures(validator_id);
                if let Some(k) = s.index_of_first(validator_id) {
                    assert(s[k] != validator_id);
                }
            }
        }
        self.events.push(MembershipEvent::ValidatorRemoved(validator_id));
        self.flag = true;
        proof {
            assert(self@ =~= old(self)@.after_remove(origin, validator_id));
        }
        Ok(())
    }
}

} // verus!
