use vstd::prelude::*;

verus! {

/// The one error taxonomy of the staking engine. Every transition returns
/// exactly one of these when it rejects, always before any record change.
#[derive(Clone, Copy, Debug, PartialEq, Eq, Structural)]
pub enum StakeError {
    /// A redeem or unstake was attempted on a record that has never gone
    /// through a successful stake.
    UninitializedAccount,
    /// The operation does not apply in the record's current state
    /// (redeem or unstake while not staked).
    InvalidStakeState,
    /// A stake was attempted while the record is already staked; the
    /// stake-specific face of an invalid-state rejection.
    AlreadyStaked,
    /// The caller or the named asset account does not match the identities
    /// bound into the record.
    OwnershipMismatch,
    /// A custody or mint collaborator rejected a call; the surrounding
    /// transaction aborts with the record untouched.
    AdapterFailure,
}

} // verus!
