use vstd::prelude::*;

verus! {

/// Identity of an account on the host ledger: a 32-byte address held as four
/// 64-bit little-endian words, so that contracts can compare identities as
/// plain values.
#[derive(Clone, Copy, Debug, PartialEq, Eq, Structural)]
pub struct AccountId {
    pub w0: u64,
    pub w1: u64,
    pub w2: u64,
    pub w3: u64,
}

/// Whether a stake record currently has its asset frozen in custody.
#[derive(Clone, Copy, Debug, PartialEq, Eq, Structural)]
pub enum StakeState {
    Unstaked,
    Staked,
}

impl Default for StakeState {
    /// A record begins its life unstaked.
    fn default() -> (s: Self)
        ensures
            s is Unstaked,
    {
        StakeState::Unstaked
    }
}

/// One persistent record per (owner, asset) pair: staking status plus the
/// bookkeeping that drives reward accrual.
///
/// `total_earned` grows on every reward-minting transition (redeem and
/// unstake alike), so it is a single consistent accumulator.
#[derive(Clone, Copy, Debug, PartialEq, Eq, Structural)]
pub struct UserStakeInfo {
    /// Identity of the custodied asset holding account; immutable once bound.
    pub token_account: AccountId,
    /// Timestamp of the transition into `Staked`.
    pub stake_start_time: i64,
    /// Start of the open accrual window: record creation or the last
    /// successful redeem or unstake.
    pub last_stake_redeem: i64,
    /// Identity of the staking party; immutable once bound.
    pub user_pubkey: AccountId,
    pub stake_state: StakeState,
    /// Set by the first successful stake; guards redeem and unstake.
    pub is_initialized: bool,
    /// Monotonically non-decreasing total of rewards minted so far.
    pub total_earned: u64,
}

impl UserStakeInfo {
    /// Well-formedness: timestamps are non-negative (the host clock counts
    /// seconds from its epoch), and a staked record has necessarily been
    /// initialized by the stake that froze it.
    pub open spec fn wf(self) -> bool {
        &&& 0 <= self.stake_start_time
        &&& 0 <= self.last_stake_redeem
        &&& (self.stake_state is Staked ==> self.is_initialized)
    }

    /// The record's bound identities match the caller-supplied pair.
    pub open spec fn bound_to(self, user: AccountId, token_account: AccountId) -> bool {
        &&& self.user_pubkey == user
        &&& self.token_account == token_account
    }

    /// A fresh record for an (owner, asset) pair, created lazily on the first
    /// stake attempt: unstaked, uninitialized, with empty bookkeeping.
    pub fn new(user_pubkey: AccountId, token_account: AccountId) -> (r: Self)
        ensures
            r.wf(),
            r.bound_to(user_pubkey, token_account),
            r.stake_state is Unstaked,
            !r.is_initialized,
            r.stake_start_time == 0,
            r.last_stake_redeem == 0,
            r.total_earned == 0,
    {
        UserStakeInfo {
            token_account,
            stake_start_time: 0,
            last_stake_redeem: 0,
            user_pubkey,
            stake_state: StakeState::Unstaked,
            is_initialized: false,
            total_earned: 0,
        }
    }
}

} // verus!
