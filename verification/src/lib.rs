//! Interest arithmetic, accrual and risk-parameter rules for credit lines.
//!
//! Amounts are `i128` fixed-point integers, rates are basis points (1 bps = 0.01%)
//! and times are ledger timestamps in seconds. Every function here is a pure
//! decision on plain values: reading the ledger clock, loading and storing
//! records, authenticating the admin and publishing events is left to the caller.

pub mod accrual;
pub mod math_utils;
pub mod risk;
pub mod rounding;
pub mod types;
