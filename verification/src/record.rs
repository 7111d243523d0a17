//! The record that tracks one stake.

use crate::identity::{Identity, IDENTITY_BYTES};
use vstd::prelude::*;

verus! {

/// Bytes that the storage layer puts in front of every record.
pub const RECORD_HEADER_BYTES: usize = 8;

/// Bytes that the three fields of a record take: amount, owner, timestamp.
pub const RECORD_FIELD_BYTES: usize = 8 + IDENTITY_BYTES + 8;

/// Bytes to reserve when a record is allocated.
pub const RECORD_SPACE: usize = 8 + 64 + 64 + 64 + 64;

/// One stake: how much is held, for whom, and since when.
#[derive(Clone, Copy, Debug, PartialEq, Eq)]
pub struct Stake {
    /// Quantity held in custody.
    pub amount: u64,
    /// Who may receive the proceeds of a release.
    pub user_key: Identity,
    /// When the stake was made; the lock period starts here.
    pub timestamp: i64,
}

impl Stake {
    /// The record as allocation leaves it: nothing held, no owner, time zero.
    pub open spec fn spec_new() -> Stake {
        Stake { amount: 0, user_key: Identity::spec_unset(), timestamp: 0 }
    }

    /// A fresh record.
    #[verifier::when_used_as_spec(spec_new)]
    pub fn new() -> (record: Stake)
        ensures
            record == Self::spec_new(),
    {
        Stake { amount: 0, user_key: Identity::unset(), timestamp: 0 }
    }

    /// Whether nothing was ever staked on this record.
    pub open spec fn spec_is_fresh(&self) -> bool {
        *self == Self::spec_new()
    }

    /// Whether nothing was ever staked on this record.
    #[verifier::when_used_as_spec(spec_is_fresh)]
    pub fn is_fresh(&self) -> (r: bool)
        ensures
            r == self.spec_is_fresh(),
    {
        self.amount == 0 && self.user_key.is_unset() && self.timestamp == 0
    }
}

/// The space reserved for a record holds its header and its three fields.
pub proof fn law_record_space_suffices()
    ensures
        RECORD_HEADER_BYTES + RECORD_FIELD_BYTES <= RECORD_SPACE,
{
}

} // verus!
