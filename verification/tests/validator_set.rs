use validator_set::registry::{Error, MembershipEvent, Origin, ValidatorSet};
use validator_set::session::ValidatorOf;

#[test]
fn get_validators_is_idempotent() {
    let s = ValidatorSet::from_genesis(vec![1, 2]);
    let first = s.get_validators();
    let second = s.get_validators();
    assert_eq!(first, Some(vec![1, 2]));
    assert_eq!(first, second);
}

#[test]
fn add_remove_round_trip_keeps_the_set() {
    let mut s = ValidatorSet::from_genesis(vec![10, 20]);
    assert_eq!(s.add_validator(Origin::Root, 30), Ok(()));
    assert_eq!(s.remove_validator(Origin::Root, 30), Ok(()));
    let mut got = s.get_validators().unwrap();
    got.sort();
    assert_eq!(got, vec![10, 20]);
}

#[test]
fn signal_lifecycle_over_a_run_of_calls() {
    let mut s = ValidatorSet::from_genesis(vec![1]);
    assert!(!s.is_rotation_pending());
    assert_eq!(s.add_validator(Origin::Root, 2), Ok(()));
    assert!(s.is_rotation_pending());
    s.new_session(1);
    assert!(!s.is_rotation_pending());
    assert_eq!(s.remove_validator(Origin::Root, 2), Ok(()));
    assert!(s.is_rotation_pending());
    s.get_validators();
    assert!(s.is_rotation_pending());
    s.new_session(2);
    assert!(!s.is_rotation_pending());
    s.new_session(3);
    assert!(!s.is_rotation_pending());
}

#[test]
fn non_root_add_is_rejected_and_changes_nothing() {
    let mut s = ValidatorSet::from_genesis(vec![1, 2]);
    assert_eq!(s.add_validator(Origin::Signed(7), 3), Err(Error::Unauthorized));
    assert_eq!(s.get_validators(), Some(vec![1, 2]));
    assert!(!s.is_rotation_pending());
    assert!(s.events().is_empty());
}

#[test]
fn non_root_remove_is_rejected_and_changes_nothing() {
    let mut s = ValidatorSet::from_genesis(vec![1, 2]);
    assert_eq!(s.remove_validator(Origin::Signed(1), 2), Err(Error::Unauthorized));
    assert_eq!(s.get_validators(), Some(vec![1, 2]));
    assert!(!s.is_rotation_pending());
    assert!(s.events().is_empty());
}

#[test]
fn add_before_genesis_is_rejected() {
    let mut s = ValidatorSet::new();
    assert_eq!(s.add_validator(Origin::Root, 3), Err(Error::UninitializedRegistry));
    assert_eq!(s.get_validators(), None);
    assert!(!s.is_rotation_pending());
    assert!(s.events().is_empty());
}

#[test]
fn remove_before_genesis_is_rejected() {
    let mut s = ValidatorSet::new();
    assert_eq!(s.remove_validator(Origin::Root, 3), Err(Error::UninitializedRegistry));
    assert_eq!(s.get_validators(), None);
    assert!(!s.is_rotation_pending());
}

#[test]
fn two_adds_coalesce_into_one_pending_rotation() {
    let mut s = ValidatorSet::from_genesis(vec![1]);
    assert_eq!(s.add_validator(Origin::Root, 2), Ok(()));
    assert_eq!(s.add_validator(Origin::Root, 3), Ok(()));
    assert!(s.is_rotation_pending());
    assert_eq!(s.new_session(1), Some(vec![1, 2, 3]));
    assert!(!s.is_rotation_pending());
    assert!(!s.should_end_session(100));
}

#[test]
fn end_to_end_scenario() {
    let mut s = ValidatorSet::from_genesis(vec![1]);
    assert_eq!(s.add_validator(Origin::Root, 2), Ok(()));
    assert_eq!(s.get_validators(), Some(vec![1, 2]));
    assert_eq!(s.events().as_slice(), &[MembershipEvent::ValidatorAdded(2)]);
    assert!(s.is_rotation_pending());
    assert_eq!(s.new_session(5), Some(vec![1, 2]));
    assert!(!s.is_rotation_pending());
}

#[test]
fn removal_swaps_the_last_element_into_place() {
    let mut s = ValidatorSet::from_genesis(vec![1, 2, 3]);
    assert_eq!(s.remove_validator(Origin::Root, 1), Ok(()));
    assert_eq!(s.get_validators(), Some(vec![3, 2]));
}

#[test]
fn removing_an_absent_id_is_tolerated_but_still_signals() {
    let mut s = ValidatorSet::from_genesis(vec![1, 2]);
    assert_eq!(s.remove_validator(Origin::Root, 9), Ok(()));
    assert_eq!(s.get_validators(), Some(vec![1, 2]));
    assert!(s.is_rotation_pending());
    assert_eq!(s.events().as_slice(), &[MembershipEvent::ValidatorRemoved(9)]);
}

#[test]
fn duplicates_are_accepted_and_removal_takes_the_first() {
    let mut s = ValidatorSet::from_genesis(vec![1]);
    assert_eq!(s.add_validator(Origin::Root, 1), Ok(()));
    assert_eq!(s.get_validators(), Some(vec![1, 1]));
    assert_eq!(s.remove_validator(Origin::Root, 1), Ok(()));
    assert_eq!(s.get_validators(), Some(vec![1]));
}

#[test]
fn empty_genesis_list_still_initializes() {
    let mut s = ValidatorSet::from_genesis(vec![]);
    assert_eq!(s.get_validators(), Some(vec![]));
    assert_eq!(s.add_validator(Origin::Root, 4), Ok(()));
    assert_eq!(s.get_validators(), Some(vec![4]));
}

#[test]
fn new_session_before_genesis_returns_no_change() {
    let mut s = ValidatorSet::new();
    assert_eq!(s.new_session(1), None);
    assert!(!s.is_rotation_pending());
}

#[test]
fn should_end_session_reads_only_the_signal() {
    let mut s = ValidatorSet::from_genesis(vec![1]);
    assert!(!s.should_end_session(0));
    assert!(!s.should_end_session(12345));
    assert_eq!(s.add_validator(Origin::Root, 2), Ok(()));
    assert!(s.should_end_session(0));
    assert!(s.should_end_session(12345));
}

#[test]
fn session_hooks_and_estimate() {
    ValidatorSet::start_session(3);
    ValidatorSet::end_session(3);
    assert_eq!(ValidatorSet::estimate_next_session_rotation(42), Some(42));
}

#[test]
fn convert_is_the_identity_mapping() {
    assert_eq!(ValidatorOf::convert(5), Some(5));
    assert_eq!(ValidatorOf::convert(0), Some(0));
}

#[test]
fn events_are_logged_in_call_order() {
    let mut s = ValidatorSet::from_genesis(vec![1, 2]);
    assert_eq!(s.add_validator(Origin::Root, 3), Ok(()));
    assert_eq!(s.remove_validator(Origin::Root, 1), Ok(()));
    assert_eq!(
        s.events().as_slice(),
        &[MembershipEvent::ValidatorAdded(3), MembershipEvent::ValidatorRemoved(1)]
    );
}
