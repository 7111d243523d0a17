//! The authority slots of a ledger account, as this library tags them and as
//! the ledger does.

use spl_token::instruction::AuthorityType as LedgerAuthorityType;
use vstd::prelude::*;

verus! {

/// The ledger's own tag for an authority slot: the enum
/// `spl_token::instruction::AuthorityType`, taken as that crate defines it,
/// with its four variants `MintTokens`, `FreezeAccount`, `AccountOwner` and
/// `CloseAccount`, none of which holds a field. Nothing more is assumed of it.
#[verifier::external_type_specification]
pub struct ExLedgerAuthorityType(LedgerAuthorityType);

/// Which authority slot of a ledger account a change of authority targets.
#[derive(Clone, Copy, Debug, PartialEq, Eq, Structural)]
pub enum AuthorityType {
    MintTokens,
    FreezeAccount,
    AccountOwner,
    CloseAccount,
}

impl AuthorityType {
    /// The ledger's tag for the same slot, variant by variant.
    pub open spec fn spec_ledger_tag(self) -> LedgerAuthorityType {
        match self {
            AuthorityType::MintTokens => LedgerAuthorityType::MintTokens,
            AuthorityType::FreezeAccount => LedgerAuthorityType::FreezeAccount,
            AuthorityType::AccountOwner => LedgerAuthorityType::AccountOwner,
            AuthorityType::CloseAccount => LedgerAuthorityType::CloseAccount,
        }
    }

    /// The value that stands for this tag on the wire: its place in the list
    /// of variants, from zero.
    pub open spec fn spec_wire_value(self) -> u8 {
        match self {
            AuthorityType::MintTokens => 0,
            AuthorityType::FreezeAccount => 1,
            AuthorityType::AccountOwner => 2,
            AuthorityType::CloseAccount => 3,
        }
    }

    /// The value that stands for this tag on the wire.
    #[verifier::when_used_as_spec(spec_wire_value)]
    pub fn wire_value(self) -> (value: u8)
        ensures
            value == self.spec_wire_value(),
    {
        match self {
            AuthorityType::MintTokens => 0,
            AuthorityType::FreezeAccount => 1,
            AuthorityType::AccountOwner => 2,
            AuthorityType::CloseAccount => 3,
        }
    }

    /// The tag that `value` stands for on the wire, if it stands for one.
    pub fn from_wire(value: u8) -> (r: Option<AuthorityType>)
        ensures
            value <= 3 <==> r is Some,
            r is Some ==> r->Some_0.spec_wire_value() == value,
    {
        match value {
            0 => Some(AuthorityType::MintTokens),
            1 => Some(AuthorityType::FreezeAccount),
            2 => Some(AuthorityType::AccountOwner),
            3 => Some(AuthorityType::CloseAccount),
            _ => None,
        }
    }

    /// Maps this tag to the ledger's tag.
    pub fn ledger_tag(self) -> (tag: LedgerAuthorityType)
        ensures
            tag == self.spec_ledger_tag(),
    {
        match self {
            AuthorityType::MintTokens => LedgerAuthorityType::MintTokens,
            AuthorityType::FreezeAccount => LedgerAuthorityType::FreezeAccount,
            AuthorityType::AccountOwner => LedgerAuthorityType::AccountOwner,
            AuthorityType::CloseAccount => LedgerAuthorityType::CloseAccount,
        }
    }
}

/// Tags with the same wire value are the same tag, and so are tags that the
/// ledger knows under the same tag.
pub proof fn law_tags_are_distinct(a: AuthorityType, b: AuthorityType)
    ensures
        a.spec_wire_value() == b.spec_wire_value() ==> a == b,
        a.spec_ledger_tag() == b.spec_ledger_tag() ==> a == b,
{
}

} // verus!
