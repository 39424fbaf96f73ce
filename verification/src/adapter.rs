use vstd::prelude::*;
use crate::schema::state::AccountId;

verus! {

/// One synchronous call into an external collaborator: the asset-custody
/// adapter or the reward-mint adapter. A transition returns the calls it
/// needs as an ordered plan; the host performs them inside the same
/// all-or-nothing transaction, in plan order, and aborts the whole
/// transition on the first failure. The signer of each call is fixed by its
/// kind: the owner signs `Approve` and `Revoke`, the custody authority signs
/// `Freeze` and `Thaw`, and the mint authority signs `MintTo`.
#[derive(Clone, Copy, Debug, PartialEq, Eq, Structural)]
pub enum AdapterCall {
    /// Grant the custody authority a delegate approval over `amount` units
    /// of the asset account.
    Approve { asset_account: AccountId, amount: u64 },
    /// Freeze the custodied asset account under the delegate approval.
    Freeze { asset_account: AccountId },
    /// Thaw the custodied asset account.
    Thaw { asset_account: AccountId },
    /// Revoke the delegate approval over the asset account.
    Revoke { asset_account: AccountId },
    /// Mint `amount` units of the reward token to the owner's reward
    /// account, which must already exist.
    MintTo { amount: u64 },
}

} // verus!
