//! A counter held in an account record: one 8-bit count with an
//! allocate / mutate / close lifecycle, every operation checked against
//! the record's bounds and its existence.

pub mod account;
pub mod error;
pub mod ledger;
