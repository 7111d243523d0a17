//! What the library asks of the ledger.

use crate::identity::Identity;
use spl_token::instruction::AuthorityType as LedgerAuthorityType;
use vstd::prelude::*;

verus! {

/// One operation of the ledger, with its arguments.
#[derive(Debug, PartialEq)]
pub enum Instruction {
    /// Move `amount` from `from` to `to`.
    Transfer { from: Identity, to: Identity, authority: Identity, amount: u64 },
    /// Create `amount` of `mint` in `to`.
    MintTo { mint: Identity, to: Identity, authority: Identity, amount: u64 },
    /// Destroy `amount` of `mint` held in `from`.
    Burn { mint: Identity, from: Identity, authority: Identity, amount: u64 },
    /// Hand one authority slot of `account_or_mint` to `new_authority`, or clear it.
    SetAuthority {
        account_or_mint: Identity,
        current_authority: Identity,
        authority_type: LedgerAuthorityType,
        new_authority: Option<Identity>,
    },
}

/// A call to forward: the ledger program to invoke, and the operation.
#[derive(Debug, PartialEq)]
pub struct LedgerCall {
    pub program: Identity,
    pub instruction: Instruction,
}

impl Instruction {
    /// The identity whose signature the ledger will ask for.
    pub open spec fn spec_authority(&self) -> Identity {
        match *self {
            Instruction::Transfer { authority, .. } => authority,
            Instruction::MintTo { authority, .. } => authority,
            Instruction::Burn { authority, .. } => authority,
            Instruction::SetAuthority { current_authority, .. } => current_authority,
        }
    }

    /// The identity whose signature the ledger will ask for.
    #[verifier::when_used_as_spec(spec_authority)]
    pub fn authority(&self) -> (id: Identity)
        ensures
            id == self.spec_authority(),
    {
        match self {
            Instruction::Transfer { authority, .. } => *authority,
            Instruction::MintTo { authority, .. } => *authority,
            Instruction::Burn { authority, .. } => *authority,
            Instruction::SetAuthority { current_authority, .. } => *current_authority,
        }
    }

    /// How much the operation adds to the balance of `account`.
    pub open spec fn spec_credit(&self, account: &Identity) -> u64 {
        match *self {
            Instruction::Transfer { to, amount, .. } => if to == *account { amount } else { 0 },
            Instruction::MintTo { to, amount, .. } => if to == *account { amount } else { 0 },
            _ => 0,
        }
    }

    /// How much the operation adds to the balance of `account`.
    #[verifier::when_used_as_spec(spec_credit)]
    pub fn credit(&self, account: &Identity) -> (units: u64)
        ensures
            units == self.spec_credit(account),
    {
        match self {
            Instruction::Transfer { to, amount, .. } => if *to == *account { *amount } else { 0 },
            Instruction::MintTo { to, amount, .. } => if *to == *account { *amount } else { 0 },
            _ => 0,
        }
    }

    /// How much the operation takes from the balance of `account`.
    pub open spec fn spec_debit(&self, account: &Identity) -> u64 {
        match *self {
            Instruction::Transfer { from, amount, .. } => if from == *account { amount } else { 0 },
            Instruction::Burn { from, amount, .. } => if from == *account { amount } else { 0 },
            _ => 0,
        }
    }

    /// How much the operation takes from the balance of `account`.
    #[verifier::when_used_as_spec(spec_debit)]
    pub fn debit(&self, account: &Identity) -> (units: u64)
        ensures
            units == self.spec_debit(account),
    {
        match self {
            Instruction::Transfer { from, amount, .. } => if *from == *account { *amount } else { 0 },
            Instruction::Burn { from, amount, .. } => if *from == *account { *amount } else { 0 },
            _ => 0,
        }
    }
}

} // verus!
