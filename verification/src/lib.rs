//! Custody and authority-proxy rules for a token ledger: which ledger call
//! each operation forwards, and when a time-locked stake may be released.

pub mod accounts;
pub mod authority;
pub mod error;
pub mod identity;
pub mod laws;
pub mod proxy;
pub mod record;
pub mod request;
pub mod staking;

pub use accounts::{
    AccountHandle, CreateStakingAccount, ProxyBurn, ProxyMintTo, ProxySetAuthority, ProxyTransfer,
    ReleaseStakeTokens, StakeTokens,
};
pub use authority::AuthorityType;
pub use error::{CallError, ErrorCode};
pub use identity::Identity;
pub use proxy::{proxy_burn, proxy_mint_to, proxy_set_authority, proxy_transfer};
pub use record::Stake;
pub use request::{Instruction, LedgerCall};
pub use staking::{create_staking_account, release_tokens, stake_tokens, BONUS, LOCK_PERIOD};
