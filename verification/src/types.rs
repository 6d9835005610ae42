//! Records that the library works on, and the reasons for which it refuses a request.

use vstd::prelude::*;

use crate::risk::{MAX_INTEREST_RATE_BPS, MAX_RISK_SCORE};

verus! {

/// The state of one borrower's credit line.
#[derive(Clone, Copy, Debug, PartialEq, Eq, Structural)]
pub struct CreditLineData {
    /// Maximum borrowable amount.
    pub credit_limit: i128,
    /// Outstanding principal, on which interest accrues.
    pub utilized_amount: i128,
    /// Annual interest rate in basis points.
    pub interest_rate_bps: u32,
    /// Risk score of the borrower.
    pub risk_score: u32,
    /// Timestamp of the last rate change; `0` when none has been recorded.
    pub last_rate_update_ts: u64,
    /// Interest accrued so far and not yet capitalised.
    pub accrued_interest: i128,
    /// Timestamp of the last accrual.
    pub last_accrual_ts: u64,
}

impl CreditLineData {
    /// The limit is non-negative and covers the debt, and rate and score are in
    /// their documented ranges.
    pub open spec fn terms_valid(self) -> bool {
        &&& 0 <= self.credit_limit
        &&& self.utilized_amount <= self.credit_limit
        &&& self.interest_rate_bps <= MAX_INTEREST_RATE_BPS
        &&& self.risk_score <= MAX_RISK_SCORE
    }
}

/// Guardrails on changes of the interest rate.
#[derive(Clone, Copy, Debug, PartialEq, Eq, Structural)]
pub struct RateChangeConfig {
    /// Largest absolute change of the rate that one update may make.
    pub max_rate_change_bps: u32,
    /// Seconds that must pass between two rate changes; `0` disables the check.
    pub rate_change_min_interval: u64,
}

/// Announces the terms that a successful update has put in force. `A` identifies
/// the borrower and is only carried through.
#[derive(Debug, PartialEq, Eq)]
pub struct RiskParametersUpdatedEvent<A> {
    pub borrower: A,
    pub credit_limit: i128,
    pub interest_rate_bps: u32,
    pub risk_score: u32,
}

/// The interest computation left the range of `i128`.
#[derive(Clone, Copy, Debug, PartialEq, Eq, Structural)]
pub enum OverflowError {
    /// `principal * rate_bps` does not fit.
    RateProduct,
    /// `principal * rate_bps` fits, but its product with the elapsed seconds does not.
    ElapsedProduct,
    /// The new interest fits, but its sum with the interest accrued before does not.
    AccruedInterest,
}

impl OverflowError {
    /// Human-readable description of the error.
    pub fn message(&self) -> (text: &'static str)
        ensures
            text@ == match *self {
                OverflowError::RateProduct =>
                    "prorate_interest: principal * rate_bps overflowed i128"@,
                OverflowError::ElapsedProduct =>
                    "prorate_interest: product with elapsed_secs overflowed i128"@,
                OverflowError::AccruedInterest =>
                    "apply_accrual: accrued_interest overflowed i128"@,
            },
    {
        match self {
            OverflowError::RateProduct =>
                "prorate_interest: principal * rate_bps overflowed i128",
            OverflowError::ElapsedProduct =>
                "prorate_interest: product with elapsed_secs overflowed i128",
            OverflowError::AccruedInterest =>
                "apply_accrual: accrued_interest overflowed i128",
        }
    }
}

/// Why a change of risk parameters or guardrails is refused.
#[derive(Clone, Copy, Debug, PartialEq, Eq, Structural)]
pub enum RiskError {
    /// The request does not carry the admin's authorization.
    NotAdmin,
    /// The borrower has no credit line.
    CreditLineNotFound,
    /// The requested limit is negative.
    NegativeCreditLimit,
    /// The requested limit would strand debt above it.
    LimitBelowUtilized,
    /// The requested rate exceeds [`MAX_INTEREST_RATE_BPS`].
    RateAboveMaximum,
    /// The requested score exceeds [`MAX_RISK_SCORE`].
    ScoreAboveMaximum,
    /// The rate would change by more than the configured cap.
    RateDeltaTooLarge,
    /// The configured interval since the last rate change has not passed.
    RateChangeTooSoon,
}

impl RiskError {
    /// Human-readable description of the refusal.
    pub fn message(&self) -> (text: &'static str)
        ensures
            text@ == match *self {
                RiskError::NotAdmin => "caller is not the contract admin"@,
                RiskError::CreditLineNotFound => "Credit line not found"@,
                RiskError::NegativeCreditLimit => "credit_limit must be non-negative"@,
                RiskError::LimitBelowUtilized =>
                    "credit_limit cannot be less than utilized amount"@,
                RiskError::RateAboveMaximum => "interest_rate_bps exceeds maximum"@,
                RiskError::ScoreAboveMaximum => "risk_score exceeds maximum"@,
                RiskError::RateDeltaTooLarge => "rate change exceeds maximum allowed delta"@,
                RiskError::RateChangeTooSoon =>
                    "rate change too soon: minimum interval not elapsed"@,
            },
    {
        match self {
            RiskError::NotAdmin => "caller is not the contract admin",
            RiskError::CreditLineNotFound => "Credit line not found",
            RiskError::NegativeCreditLimit => "credit_limit must be non-negative",
            RiskError::LimitBelowUtilized => "credit_limit cannot be less than utilized amount",
            RiskError::RateAboveMaximum => "interest_rate_bps exceeds maximum",
            RiskError::ScoreAboveMaximum => "risk_score exceeds maximum",
            RiskError::RateDeltaTooLarge => "rate change exceeds maximum allowed delta",
            RiskError::RateChangeTooSoon => "rate change too soon: minimum interval not elapsed",
        }
    }
}

} // verus!
