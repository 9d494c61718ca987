//! A pooled-fund ledger: the fund record, its derived vault authority, and the
//! validate-then-apply pipeline of each instruction.

pub mod key;
pub mod fund;
pub mod error;
pub mod vault;
pub mod initialize;
pub mod deposit;
pub mod legacy;
pub mod manage;
