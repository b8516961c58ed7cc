//! An escrow ledger for cross-border remittances.
//!
//! A sender locks an amount of a source asset, a settlement reporter later
//! supplies the converted amount and rate, and the escrowed funds are either
//! marked complete or handed back. The ledger itself performs no I/O: the
//! clock reading, the outcome of authorization and of each asset transfer are
//! arguments, and the transfers to make and the notifications to publish are
//! handed to the caller.

pub mod contract;
pub mod fee;
pub mod ident;
pub mod laws;
pub mod limits;
pub mod model;
pub mod table;
pub mod types;

pub use contract::VatanPayContract;
pub use fee::calculate_fee;
pub use ident::{counter_bytes, remittance_id};
pub use limits::{
    daily_limit_reached, day_bucket, record_creation, refund_requires_authorization,
    validate_amount,
};
pub use table::Table;
pub use types::{
    AccountId, DataKey, Error, Notice, NoticeKind, Party, Remittance, Status, Transfer, UserStats,
    DAILY_LIMIT, MAX_AMOUNT, MIN_AMOUNT, SECONDS_PER_DAY,
};
