//! The staking engine: funds go into custody with `stake_tokens`, stay locked
//! for a fixed period, and leave with a fixed bonus through `release_tokens`.

use crate::accounts::{CreateStakingAccount, ProxyTransfer, ReleaseStakeTokens, StakeTokens};
use crate::error::{CallError, ErrorCode};
use crate::proxy::{proxy_transfer, spec_forward_signed};
use crate::record::Stake;
use crate::request::LedgerCall;
use vstd::prelude::*;

verus! {

/// What a release pays on top of the staked amount.
pub const BONUS: u64 = 100;

/// How long a stake stays locked, in the units of the clock.
pub const LOCK_PERIOD: i64 = 1000;

impl StakeTokens {
    /// The transfer accounts of a stake: from the staker into the vault.
    pub open spec fn spec_transfer_accounts(&self) -> ProxyTransfer {
        ProxyTransfer {
            authority: self.authority,
            from: self.from,
            to: self.to,
            token_program: self.token_program,
        }
    }

    /// The transfer accounts of a stake: from the staker into the vault.
    #[verifier::when_used_as_spec(spec_transfer_accounts)]
    pub fn transfer_accounts(&self) -> (accounts: ProxyTransfer)
        ensures
            accounts == self.spec_transfer_accounts(),
    {
        ProxyTransfer {
            authority: self.authority,
            from: self.from,
            to: self.to,
            token_program: self.token_program,
        }
    }

    /// These accounts once `amount` was staked at time `now`: the record holds
    /// the amount, the staker and the time; nothing else differs.
    pub open spec fn spec_staked(&self, amount: u64, now: i64) -> StakeTokens {
        StakeTokens {
            authority: self.authority,
            stake_account: Stake { amount, user_key: self.from.key, timestamp: now },
            from: self.from,
            to: self.to,
            token_program: self.token_program,
        }
    }
}

impl ReleaseStakeTokens {
    /// The transfer accounts of a release: from the vault to the receiver.
    pub open spec fn spec_transfer_accounts(&self) -> ProxyTransfer {
        ProxyTransfer {
            authority: self.authority,
            from: self.from,
            to: self.to,
            token_program: self.token_program,
        }
    }

    /// The transfer accounts of a release: from the vault to the receiver.
    #[verifier::when_used_as_spec(spec_transfer_accounts)]
    pub fn transfer_accounts(&self) -> (accounts: ProxyTransfer)
        ensures
            accounts == self.spec_transfer_accounts(),
    {
        ProxyTransfer {
            authority: self.authority,
            from: self.from,
            to: self.to,
            token_program: self.token_program,
        }
    }
}

impl Stake {
    /// What a release of this record pays: the amount and the bonus.
    pub open spec fn spec_payout(&self) -> int {
        self.amount + BONUS
    }

    /// The payout of a release, or `None` where it does not fit in 64 bits.
    pub fn payout(&self) -> (r: Option<u64>)
        ensures
            r == if self.spec_payout() <= u64::MAX {
                Some(self.spec_payout() as u64)
            } else {
                None
            },
    {
        self.amount.checked_add(BONUS)
    }

    /// Whether the record is still locked at time `now`: the lock ends once
    /// more than the lock period has passed since the stake.
    pub open spec fn spec_locked_at(&self, now: i64) -> bool {
        now <= self.timestamp + LOCK_PERIOD
    }

    /// Whether the record is still locked at time `now`.
    #[verifier::when_used_as_spec(spec_locked_at)]
    pub fn locked_at(&self, now: i64) -> (r: bool)
        ensures
            r == self.spec_locked_at(now),
    {
        match self.timestamp.checked_add(LOCK_PERIOD) {
            Some(unlock) => now <= unlock,
            None => true,
        }
    }
}

/// Sets up a freshly allocated stake record: nothing held, no owner, time
/// zero. Nothing is asked of the ledger.
pub fn create_staking_account(accounts: &mut CreateStakingAccount) -> (r: Result<(), CallError>)
    ensures
        r is Ok,
        final(accounts).stake_account == Stake::spec_new(),
        final(accounts).user == old(accounts).user,
        final(accounts).system_program == old(accounts).system_program,
{
    accounts.stake_account = Stake::new();
    Ok(())
}

/// What a stake returns: the transfer of `amount` from the staker into the
/// vault, if the authority signed.
pub open spec fn spec_stake_tokens(accounts: StakeTokens, amount: u64) -> Result<
    LedgerCall,
    CallError,
> {
    spec_forward_signed(accounts.authority, accounts.spec_transfer_accounts().spec_forward(amount))
}

/// Stakes `amount` at time `now`: records the amount, the staker and the
/// time, and forwards the transfer into the vault. Where the transfer is not
/// forwarded, the record stays as it was.
pub fn stake_tokens(accounts: &mut StakeTokens, amount: u64, now: i64) -> (r: Result<
    LedgerCall,
    CallError,
>)
    ensures
        r == spec_stake_tokens(*old(accounts), amount),
        r is Ok ==> *final(accounts) == old(accounts).spec_staked(amount, now),
        r is Err ==> *final(accounts) == *old(accounts),
{
    let transfer = accounts.transfer_accounts();
    match proxy_transfer(&transfer, amount) {
        Ok(call) => {
            accounts.stake_account.amount = amount;
            accounts.stake_account.user_key = accounts.from.key;
            accounts.stake_account.timestamp = now;
            Ok(call)
        },
        Err(e) => Err(e),
    }
}

/// What a release at time `now` returns. The payout must fit; then the
/// receiver must be the owner on record; then the lock must have ended; then
/// the transfer of the payout from the vault to the receiver is forwarded, if
/// the authority signed.
pub open spec fn spec_release_tokens(accounts: ReleaseStakeTokens, now: i64) -> Result<
    LedgerCall,
    CallError,
> {
    let record = accounts.stake_account;
    if record.spec_payout() > u64::MAX {
        Err(CallError::PayoutOverflow)
    } else if accounts.to.key != record.user_key {
        Err(CallError::Release(ErrorCode::IllegalAction))
    } else if record.spec_locked_at(now) {
        Err(CallError::Release(ErrorCode::InvalidTimestamp))
    } else {
        spec_forward_signed(
            accounts.authority,
            accounts.spec_transfer_accounts().spec_forward(record.spec_payout() as u64),
        )
    }
}

/// Releases a stake at time `now`: forwards the transfer of the staked amount
/// plus the bonus from the vault to the owner, once the lock has ended. The
/// record is left as it is.
pub fn release_tokens(accounts: &ReleaseStakeTokens, now: i64) -> (r: Result<LedgerCall, CallError>)
    ensures
        r == spec_release_tokens(*accounts, now),
{
    let amount = match accounts.stake_account.payout() {
        Some(amount) => amount,
        None => {
            return Err(CallError::PayoutOverflow);
        },
    };
    if accounts.stake_account.user_key != accounts.to.key {
        return Err(CallError::Release(ErrorCode::IllegalAction));
    }
    if accounts.stake_account.locked_at(now) {
        return Err(CallError::Release(ErrorCode::InvalidTimestamp));
    }
    let transfer = accounts.transfer_accounts();
    proxy_transfer(&transfer, amount)
}

} // verus!
