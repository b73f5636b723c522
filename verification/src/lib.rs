//! A verified custodial ledger for a token yield farm.
//!
//! Users deposit a token into a farm-owned vault; the farm records each
//! user's balance and the aggregate total, and pays balances back out on
//! withdrawal. Rebalancing and reward compounding are authority-gated
//! extension points with no behaviour yet: they check the caller and
//! change nothing.
//!
//! The platform pieces around this ledger — account validation, the token
//! transfer primitive, address derivation, the clock — stay outside the
//! library: callers move the actual tokens and pass in plain values (who,
//! how much, when), and the library keeps the books.

pub mod accounting;
pub mod errors;
pub mod farm;
pub mod ledger;

pub use errors::ErrorCode;
pub use farm::AccountId;
pub use farm::BinAllocation;
pub use farm::BinType;
pub use farm::Vault;
pub use farm::YieldFarm;
pub use ledger::FarmLedger;
pub use ledger::UserDeposit;
