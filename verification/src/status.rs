//! Validator lifecycle status, as reported by the staking contract, and
//! the decisions the join/leave flows take on it.

use vstd::prelude::*;

verus! {

/// Validator lifecycle status; the wire encoding is one byte.
#[derive(Clone, Copy, Debug, PartialEq, Eq)]
pub enum ValidatorStatus {
    /// Not in the validator set.
    Inactive,
    /// Queued to join at the next epoch.
    PendingActive,
    /// Currently validating.
    Active,
    /// Queued to leave at the next epoch.
    PendingInactive,
    /// Any other wire byte.
    Invalid,
}

/// Decodes the one-byte wire encoding of a validator status.
pub fn status_from_u8(value: u8) -> (r: ValidatorStatus)
    ensures
        r is Inactive <==> value == 0,
        r is PendingActive <==> value == 1,
        r is Active <==> value == 2,
        r is PendingInactive <==> value == 3,
        r is Invalid <==> value > 3,
{
    match value {
        0 => ValidatorStatus::Inactive,
        1 => ValidatorStatus::PendingActive,
        2 => ValidatorStatus::Active,
        3 => ValidatorStatus::PendingInactive,
        _ => ValidatorStatus::Invalid,
    }
}

impl ValidatorStatus {
    /// The status name, as the lifecycle flows print it.
    pub fn label(&self) -> (r: &'static str)
        ensures
            *self is Inactive ==> r@ == "INACTIVE"@,
            *self is PendingActive ==> r@ == "PENDING_ACTIVE"@,
            *self is Active ==> r@ == "ACTIVE"@,
            *self is PendingInactive ==> r@ == "PENDING_INACTIVE"@,
            *self is Invalid ==> r@ == "UNKNOWN"@,
    {
        match self {
            ValidatorStatus::Inactive => "INACTIVE",
            ValidatorStatus::PendingActive => "PENDING_ACTIVE",
            ValidatorStatus::Active => "ACTIVE",
            ValidatorStatus::PendingInactive => "PENDING_INACTIVE",
            ValidatorStatus::Invalid => "UNKNOWN",
        }
    }
}

/// What the leave flow does for a validator in a given status.
#[derive(Clone, Copy, Debug, PartialEq, Eq)]
pub enum LeaveAction {
    /// Active or queued to join: submit the leave request.
    Proceed,
    /// Already queued to leave: nothing to do.
    AlreadyPendingInactive,
    /// Already out of the set: nothing to do.
    AlreadyInactive,
    /// An unknown status never allows leaving.
    Refused,
}

/// The decision the leave flow takes on the validator's current status.
pub fn leave_action(status: &ValidatorStatus) -> (r: LeaveAction)
    ensures
        r is Proceed <==> (*status is PendingActive || *status is Active),
        r is AlreadyPendingInactive <==> *status is PendingInactive,
        r is AlreadyInactive <==> *status is Inactive,
        r is Refused <==> *status is Invalid,
{
    match status {
        ValidatorStatus::PendingActive | ValidatorStatus::Active => LeaveAction::Proceed,
        ValidatorStatus::PendingInactive => LeaveAction::AlreadyPendingInactive,
        ValidatorStatus::Inactive => LeaveAction::AlreadyInactive,
        ValidatorStatus::Invalid => LeaveAction::Refused,
    }
}

/// After a leave request, the flow succeeds exactly when the validator is
/// queued to leave or already out of the set.
pub fn leave_completed(status: &ValidatorStatus) -> (r: bool)
    ensures
        r <==> (*status is PendingInactive || *status is Inactive),
{
    match status {
        ValidatorStatus::PendingInactive | ValidatorStatus::Inactive => true,
        _ => false,
    }
}

/// The join flow submits a join request only for a registered validator
/// that is still out of the set.
pub fn join_should_join(status: &ValidatorStatus) -> (r: bool)
    ensures
        r <==> *status is Inactive,
{
    match status {
        ValidatorStatus::Inactive => true,
        _ => false,
    }
}

/// After a join request, the flow succeeds exactly when the validator is
/// queued to join or already validating.
pub fn join_completed(status: &ValidatorStatus) -> (r: bool)
    ensures
        r <==> (*status is PendingActive || *status is Active),
{
    match status {
        ValidatorStatus::PendingActive | ValidatorStatus::Active => true,
        _ => false,
    }
}

} // verus!
