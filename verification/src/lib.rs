//! A fixed-supply, phased NFT launchpad: the sale-phase clock, the
//! eligibility and pricing checks, the pseudo-random token allocator and the
//! time-decayed refund ledger.
//!
//! The host supplies the caller, the value attached to a call and the block
//! timestamp as plain arguments, and carries out the token and fund
//! transfers that the functions here decide on.

pub mod account;
pub mod allowlist;
pub mod entropy;
pub mod launchpad;
pub mod laws;
pub mod pool;
pub mod refund;
pub mod rules;
pub mod snapshot;
pub mod state;
pub mod status;
pub mod token_uri;
pub mod types;

pub use account::AccountId;
pub use allowlist::Allowlist;
pub use launchpad::Data;
pub use snapshot::Snapshot;
pub use status::MintingStatus;
pub use types::{Config, RefundOrder, RefundWindow, Shiden34Error};
