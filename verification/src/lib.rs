//! On-ledger bookkeeping for a crowdfunding marketplace.
//!
//! Publishers register, open fundraising offerings against a token they
//! control, accept purchases from funders, and later distribute purchased
//! tokens on a vesting schedule or refund purchasers if funding goals are
//! not met.  The core of the library is the account-record codec (a compact
//! fixed/variable-length binary format for persisted records) and the
//! offering lifecycle state machine (authority checks, monotonic
//! state-bitflag transitions, and overflow-checked arithmetic).

pub mod addr;
pub mod authority;
pub mod constant;
pub mod encoding;
pub mod error;
pub mod event;
pub mod laws;
pub mod lifecycle;
pub mod pda;
pub mod state;
