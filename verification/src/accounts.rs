//! The accounts that each operation names.

use crate::identity::Identity;
use crate::record::Stake;
use vstd::prelude::*;

verus! {

/// A ledger account as one call sees it: its key, and whether it signed the call.
#[derive(Clone, Copy, Debug, PartialEq, Eq)]
pub struct AccountHandle {
    pub key: Identity,
    pub is_signer: bool,
}

/// Accounts of a proxied mint.
#[derive(Clone, Copy, Debug, PartialEq, Eq)]
pub struct ProxyMintTo {
    pub authority: AccountHandle,
    pub mint: AccountHandle,
    pub to: AccountHandle,
    pub token_program: AccountHandle,
}

/// Accounts of a proxied transfer.
#[derive(Clone, Copy, Debug, PartialEq, Eq)]
pub struct ProxyTransfer {
    pub authority: AccountHandle,
    pub from: AccountHandle,
    pub to: AccountHandle,
    pub token_program: AccountHandle,
}

/// Accounts of a proxied burn.
#[derive(Clone, Copy, Debug, PartialEq, Eq)]
pub struct ProxyBurn {
    pub authority: AccountHandle,
    pub mint: AccountHandle,
    pub from: AccountHandle,
    pub token_program: AccountHandle,
}

/// Accounts of a proxied change of authority.
#[derive(Clone, Copy, Debug, PartialEq, Eq)]
pub struct ProxySetAuthority {
    pub current_authority: AccountHandle,
    pub account_or_mint: AccountHandle,
    pub token_program: AccountHandle,
}

/// Accounts of a stake; `to` is the vault.
#[derive(Clone, Copy, Debug, PartialEq, Eq)]
pub struct StakeTokens {
    pub authority: AccountHandle,
    pub stake_account: Stake,
    pub from: AccountHandle,
    pub to: AccountHandle,
    pub token_program: AccountHandle,
}

/// Accounts of a release; `from` is the vault, `to` the receiver.
#[derive(Clone, Copy, Debug, PartialEq, Eq)]
pub struct ReleaseStakeTokens {
    pub authority: AccountHandle,
    pub stake_account: Stake,
    pub from: AccountHandle,
    pub to: AccountHandle,
    pub token_program: AccountHandle,
}

/// Accounts of the creation of a stake record; `user` pays for it.
#[derive(Clone, Copy, Debug, PartialEq, Eq)]
pub struct CreateStakingAccount {
    pub stake_account: Stake,
    pub user: AccountHandle,
    pub system_program: AccountHandle,
}

} // verus!
