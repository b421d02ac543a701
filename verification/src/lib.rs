//! Bookkeeping core for collateralized loans and short-term rentals of
//! tokenized items ("skins").
//!
//! Two independent state machines, each a pure function of the current
//! record, the caller's identity, the call arguments and (for rentals) the
//! current time: a per-owner [`vault::Vault`] tracking deposits and a
//! collateralized loan, and a per-item [`listing::Listing`] tracking rental
//! availability. Persistence, signature verification and the clock live with
//! the hosting ledger; this crate only states and proves what each
//! transition does to the record it is given.

pub mod errors;
pub mod identity;
pub mod laws;
pub mod listing;
pub mod pricing;
pub mod vault;

pub use errors::ErrorCode;
pub use identity::Identity;
pub use listing::Listing;
pub use vault::PoolOp;
pub use vault::Vault;
