//! The authority proxy: each operation forwards one call to the ledger, with
//! the arguments of the request, once the named authority has signed.

use crate::accounts::{AccountHandle, ProxyBurn, ProxyMintTo, ProxySetAuthority, ProxyTransfer};
use crate::authority::AuthorityType;
use crate::error::CallError;
use crate::identity::Identity;
use crate::request::{Instruction, LedgerCall};
use vstd::prelude::*;

verus! {

/// What a proxy operation returns: the call, if the authority signed.
pub open spec fn spec_forward_signed(authority: AccountHandle, call: LedgerCall) -> Result<
    LedgerCall,
    CallError,
> {
    if authority.is_signer {
        Ok(call)
    } else {
        Err(CallError::SignerMissing)
    }
}

/// Lets `call` through if `authority` signed, and reports the missing signer
/// otherwise.
pub fn forward_signed(authority: &AccountHandle, call: LedgerCall) -> (r: Result<
    LedgerCall,
    CallError,
>)
    ensures
        r == spec_forward_signed(*authority, call),
{
    if authority.is_signer {
        Ok(call)
    } else {
        Err(CallError::SignerMissing)
    }
}

impl ProxyTransfer {
    /// The transfer that these accounts describe.
    pub open spec fn spec_forward(&self, amount: u64) -> LedgerCall {
        LedgerCall {
            program: self.token_program.key,
            instruction: Instruction::Transfer {
                from: self.from.key,
                to: self.to.key,
                authority: self.authority.key,
                amount,
            },
        }
    }

    /// Builds the transfer that these accounts describe.
    #[verifier::when_used_as_spec(spec_forward)]
    pub fn forward(&self, amount: u64) -> (call: LedgerCall)
        ensures
            call == self.spec_forward(amount),
    {
        let instruction = Instruction::Transfer {
            from: self.from.key,
            to: self.to.key,
            authority: self.authority.key,
            amount,
        };
        LedgerCall { program: self.token_program.key, instruction }
    }
}

impl ProxyMintTo {
    /// The mint that these accounts describe.
    pub open spec fn spec_forward(&self, amount: u64) -> LedgerCall {
        LedgerCall {
            program: self.token_program.key,
            instruction: Instruction::MintTo {
                mint: self.mint.key,
                to: self.to.key,
                authority: self.authority.key,
                amount,
            },
        }
    }

    /// Builds the mint that these accounts describe.
    #[verifier::when_used_as_spec(spec_forward)]
    pub fn forward(&self, amount: u64) -> (call: LedgerCall)
        ensures
            call == self.spec_forward(amount),
    {
        let instruction = Instruction::MintTo {
            mint: self.mint.key,
            to: self.to.key,
            authority: self.authority.key,
            amount,
        };
        LedgerCall { program: self.token_program.key, instruction }
    }
}

impl ProxyBurn {
    /// The burn that these accounts describe.
    pub open spec fn spec_forward(&self, amount: u64) -> LedgerCall {
        LedgerCall {
            program: self.token_program.key,
            instruction: Instruction::Burn {
                mint: self.mint.key,
                from: self.from.key,
                authority: self.authority.key,
                amount,
            },
        }
    }

    /// Builds the burn that these accounts describe.
    #[verifier::when_used_as_spec(spec_forward)]
    pub fn forward(&self, amount: u64) -> (call: LedgerCall)
        ensures
            call == self.spec_forward(amount),
    {
        let instruction = Instruction::Burn {
            mint: self.mint.key,
            from: self.from.key,
            authority: self.authority.key,
            amount,
        };
        LedgerCall { program: self.token_program.key, instruction }
    }
}

impl ProxySetAuthority {
    /// The change of authority that these accounts describe.
    pub open spec fn spec_forward(
        &self,
        authority_type: AuthorityType,
        new_authority: Option<Identity>,
    ) -> LedgerCall {
        LedgerCall {
            program: self.token_program.key,
            instruction: Instruction::SetAuthority {
                account_or_mint: self.account_or_mint.key,
                current_authority: self.current_authority.key,
                authority_type: authority_type.spec_ledger_tag(),
                new_authority,
            },
        }
    }

    /// Builds the change of authority that these accounts describe, with the
    /// slot under the ledger's tag.
    #[verifier::when_used_as_spec(spec_forward)]
    pub fn forward(&self, authority_type: AuthorityType, new_authority: Option<Identity>) -> (call:
        LedgerCall)
        ensures
            call == self.spec_forward(authority_type, new_authority),
    {
        let instruction = Instruction::SetAuthority {
            account_or_mint: self.account_or_mint.key,
            current_authority: self.current_authority.key,
            authority_type: authority_type.ledger_tag(),
            new_authority,
        };
        LedgerCall { program: self.token_program.key, instruction }
    }
}

/// Forwards a transfer of `amount` from `from` to `to`, if `authority` signed.
pub fn proxy_transfer(accounts: &ProxyTransfer, amount: u64) -> (r: Result<LedgerCall, CallError>)
    ensures
        r == spec_forward_signed(accounts.authority, accounts.spec_forward(amount)),
{
    forward_signed(&accounts.authority, accounts.forward(amount))
}

/// Forwards a mint of `amount` into `to`, if `authority` signed.
pub fn proxy_mint_to(accounts: &ProxyMintTo, amount: u64) -> (r: Result<LedgerCall, CallError>)
    ensures
        r == spec_forward_signed(accounts.authority, accounts.spec_forward(amount)),
{
    forward_signed(&accounts.authority, accounts.forward(amount))
}

/// Forwards a burn of `amount` out of `from`, if `authority` signed.
pub fn proxy_burn(accounts: &ProxyBurn, amount: u64) -> (r: Result<LedgerCall, CallError>)
    ensures
        r == spec_forward_signed(accounts.authority, accounts.spec_forward(amount)),
{
    forward_signed(&accounts.authority, accounts.forward(amount))
}

/// Forwards a change of the authority slot `authority_type` to
/// `new_authority`, if the current authority signed.
pub fn proxy_set_authority(
    accounts: &ProxySetAuthority,
    authority_type: AuthorityType,
    new_authority: Option<Identity>,
) -> (r: Result<LedgerCall, CallError>)
    ensures
        r == spec_forward_signed(
            accounts.current_authority,
            accounts.spec_forward(authority_type, new_authority),
        ),
{
    forward_signed(&accounts.current_authority, accounts.forward(authority_type, new_authority))
}

} // verus!
