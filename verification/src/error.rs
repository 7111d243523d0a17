//! The failures that the library itself reports.

use vstd::prelude::*;

verus! {

/// Why a release was turned down.
#[derive(Clone, Copy, Debug, PartialEq, Eq, Structural)]
pub enum ErrorCode {
    /// The destination is not the owner that the stake record names.
    IllegalAction,
    /// The lock period has not yet passed.
    InvalidTimestamp,
}

impl ErrorCode {
    /// The text shown to a caller for each code.
    pub open spec fn spec_message(self) -> Seq<char> {
        match self {
            ErrorCode::IllegalAction => "Transferring to illegal account"@,
            ErrorCode::InvalidTimestamp => "Not allowed to release coins rn"@,
        }
    }

    /// The text shown to a caller for this code.
    pub fn message(&self) -> (text: &'static str)
        ensures
            text@ == self.spec_message(),
    {
        match self {
            ErrorCode::IllegalAction => "Transferring to illegal account",
            ErrorCode::InvalidTimestamp => "Not allowed to release coins rn",
        }
    }
}

/// Why an operation stopped before any call reached the ledger.
#[derive(Clone, Copy, Debug, PartialEq, Eq, Structural)]
pub enum CallError {
    /// The authority named in the request did not sign it.
    SignerMissing,
    /// The staked amount plus the bonus does not fit in 64 bits.
    PayoutOverflow,
    /// A release was turned down.
    Release(ErrorCode),
}

} // verus!
