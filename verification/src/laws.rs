//! What holds of the operations together, for every input.

use crate::accounts::{
    AccountHandle, ProxyBurn, ProxyMintTo, ProxySetAuthority, ProxyTransfer, ReleaseStakeTokens,
    StakeTokens,
};
use crate::authority::AuthorityType;
use crate::error::{CallError, ErrorCode};
use crate::identity::Identity;
use crate::proxy::spec_forward_signed;
use crate::record::Stake;
use crate::request::{Instruction, LedgerCall};
use crate::staking::{spec_release_tokens, spec_stake_tokens, BONUS, LOCK_PERIOD};
use vstd::prelude::*;

verus! {

/// The balance of `account` once the ledger has carried out `instruction`,
/// where it was `before`.
pub open spec fn balance_after(before: int, instruction: Instruction, account: Identity) -> int {
    before + instruction.spec_credit(&account) - instruction.spec_debit(&account)
}

/// A stake that the authority signed is forwarded, whatever the record held
/// before, a fresh record included. Afterwards the record holds exactly the
/// amount, the staker and the time of the stake. The forwarded call is the
/// transfer of the amount from the staker to the vault: where the two are
/// different accounts, it adds exactly the amount to the vault and takes
/// exactly the amount from the staker.
pub proof fn law_stake_records_and_moves(
    accounts: StakeTokens,
    amount: u64,
    now: i64,
    vault_before: int,
    staker_before: int,
)
    requires
        accounts.authority.is_signer,
    ensures
        spec_stake_tokens(accounts, amount) is Ok,
        accounts.spec_staked(amount, now).stake_account == (Stake {
            amount,
            user_key: accounts.from.key,
            timestamp: now,
        }),
        spec_stake_tokens(accounts, amount)->Ok_0.instruction == (Instruction::Transfer {
            from: accounts.from.key,
            to: accounts.to.key,
            authority: accounts.authority.key,
            amount,
        }),
        accounts.from.key != accounts.to.key ==> {
            let call = spec_stake_tokens(accounts, amount)->Ok_0;
            &&& balance_after(vault_before, call.instruction, accounts.to.key) == vault_before
                + amount
            &&& balance_after(staker_before, call.instruction, accounts.from.key) == staker_before
                - amount
        },
{
}

/// A stake that the authority did not sign forwards nothing.
pub proof fn law_stake_needs_signer(accounts: StakeTokens, amount: u64)
    requires
        !accounts.authority.is_signer,
    ensures
        spec_stake_tokens(accounts, amount) == Err::<LedgerCall, CallError>(
            CallError::SignerMissing,
        ),
{
}

/// A release to anyone but the owner on record is turned down as an illegal
/// action, at every time and whoever signed, wherever the payout fits in 64
/// bits.
pub proof fn law_release_only_to_owner(accounts: ReleaseStakeTokens, now: i64)
    requires
        accounts.stake_account.amount + BONUS <= u64::MAX,
        accounts.to.key != accounts.stake_account.user_key,
    ensures
        spec_release_tokens(accounts, now) == Err::<LedgerCall, CallError>(
            CallError::Release(ErrorCode::IllegalAction),
        ),
{
}

/// A release to the owner no later than the lock period after the stake is
/// turned down for its time, whoever signed, wherever the payout fits in 64
/// bits.
pub proof fn law_release_waits_for_lock(accounts: ReleaseStakeTokens, now: i64)
    requires
        accounts.stake_account.amount + BONUS <= u64::MAX,
        accounts.to.key == accounts.stake_account.user_key,
        now <= accounts.stake_account.timestamp + LOCK_PERIOD,
    ensures
        spec_release_tokens(accounts, now) == Err::<LedgerCall, CallError>(
            CallError::Release(ErrorCode::InvalidTimestamp),
        ),
{
}

/// A release to the owner later than the lock period after the stake, signed
/// by the authority, forwards the transfer of exactly the amount plus the
/// bonus from the vault to the owner. Where vault and owner are different
/// accounts, the vault loses exactly that much and the owner gains it.
pub proof fn law_release_pays_amount_and_bonus(
    accounts: ReleaseStakeTokens,
    now: i64,
    vault_before: int,
    owner_before: int,
)
    requires
        accounts.stake_account.amount + BONUS <= u64::MAX,
        accounts.to.key == accounts.stake_account.user_key,
        now > accounts.stake_account.timestamp + LOCK_PERIOD,
        accounts.authority.is_signer,
    ensures
        spec_release_tokens(accounts, now) is Ok,
        spec_release_tokens(accounts, now)->Ok_0.instruction == (Instruction::Transfer {
            from: accounts.from.key,
            to: accounts.stake_account.user_key,
            authority: accounts.authority.key,
            amount: (accounts.stake_account.amount + BONUS) as u64,
        }),
        accounts.from.key != accounts.to.key ==> {
            let call = spec_release_tokens(accounts, now)->Ok_0;
            &&& balance_after(vault_before, call.instruction, accounts.from.key) == vault_before
                - (accounts.stake_account.amount + BONUS)
            &&& balance_after(owner_before, call.instruction, accounts.to.key) == owner_before
                + (accounts.stake_account.amount + BONUS)
        },
{
}

/// A release whose payout does not fit in 64 bits is turned down before
/// anything else is looked at.
pub proof fn law_release_payout_must_fit(accounts: ReleaseStakeTokens, now: i64)
    requires
        accounts.stake_account.amount + BONUS > u64::MAX,
    ensures
        spec_release_tokens(accounts, now) == Err::<LedgerCall, CallError>(
            CallError::PayoutOverflow,
        ),
{
}

/// A release leaves the record as it was, so a release that was forwarded
/// once is forwarded again, with the same call, at every later time.
pub proof fn law_release_repeats(accounts: ReleaseStakeTokens, first: i64, later: i64)
    requires
        spec_release_tokens(accounts, first) is Ok,
        first <= later,
    ensures
        spec_release_tokens(accounts, later) == spec_release_tokens(accounts, first),
{
}

/// A release is forwarded exactly when the payout fits in 64 bits, the
/// receiver is the owner on record, the lock has ended and the authority
/// signed.
pub proof fn law_release_forwarded_exactly_when(accounts: ReleaseStakeTokens, now: i64)
    ensures
        spec_release_tokens(accounts, now) is Ok <==> {
            &&& accounts.stake_account.amount + BONUS <= u64::MAX
            &&& accounts.to.key == accounts.stake_account.user_key
            &&& now > accounts.stake_account.timestamp + LOCK_PERIOD
            &&& accounts.authority.is_signer
        },
{
}

/// Each proxy operation that the authority signed forwards one call, to the
/// program named in the request, with the accounts and the amount of the
/// request unchanged.
pub proof fn law_proxy_forwards_unchanged(
    transfer: ProxyTransfer,
    mint_to: ProxyMintTo,
    burn: ProxyBurn,
    amount: u64,
)
    requires
        transfer.authority.is_signer,
        mint_to.authority.is_signer,
        burn.authority.is_signer,
    ensures
        spec_forward_signed(transfer.authority, transfer.spec_forward(amount)) == Ok::<
            LedgerCall,
            CallError,
        >(
            LedgerCall {
                program: transfer.token_program.key,
                instruction: Instruction::Transfer {
                    from: transfer.from.key,
                    to: transfer.to.key,
                    authority: transfer.authority.key,
                    amount,
                },
            },
        ),
        spec_forward_signed(mint_to.authority, mint_to.spec_forward(amount)) == Ok::<
            LedgerCall,
            CallError,
        >(
            LedgerCall {
                program: mint_to.token_program.key,
                instruction: Instruction::MintTo {
                    mint: mint_to.mint.key,
                    to: mint_to.to.key,
                    authority: mint_to.authority.key,
                    amount,
                },
            },
        ),
        spec_forward_signed(burn.authority, burn.spec_forward(amount)) == Ok::<
            LedgerCall,
            CallError,
        >(
            LedgerCall {
                program: burn.token_program.key,
                instruction: Instruction::Burn {
                    mint: burn.mint.key,
                    from: burn.from.key,
                    authority: burn.authority.key,
                    amount,
                },
            },
        ),
{
}

/// A change of authority that the current authority signed forwards one
/// call, with the account and the new authority unchanged and the slot under
/// the ledger's tag of the same name.
pub proof fn law_proxy_set_authority_forwards_unchanged(
    accounts: ProxySetAuthority,
    authority_type: AuthorityType,
    new_authority: Option<Identity>,
)
    requires
        accounts.current_authority.is_signer,
    ensures
        spec_forward_signed(
            accounts.current_authority,
            accounts.spec_forward(authority_type, new_authority),
        ) == Ok::<LedgerCall, CallError>(
            LedgerCall {
                program: accounts.token_program.key,
                instruction: Instruction::SetAuthority {
                    account_or_mint: accounts.account_or_mint.key,
                    current_authority: accounts.current_authority.key,
                    authority_type: authority_type.spec_ledger_tag(),
                    new_authority,
                },
            },
        ),
{
}

/// A proxy operation that the authority did not sign forwards nothing,
/// whatever the call.
pub proof fn law_proxy_needs_signer(authority: AccountHandle, call: LedgerCall)
    requires
        !authority.is_signer,
    ensures
        spec_forward_signed(authority, call) == Err::<LedgerCall, CallError>(
            CallError::SignerMissing,
        ),
{
}

} // verus!
