//! Risk-adjusted scoring of yield opportunities and the decisions built on it.
//!
//! A score weighs the annual yield at 50%, subtracts 30% of the volatility and
//! 20% of the impermanent-loss risk, and adds 10% of the safety rating, all on
//! a 0-100 scale.
use vstd::prelude::*;

verus! {

/// Yields are given in hundredths of a percent (1050 is 10.50%).
pub const APY_SCALE: u16 = 100;

/// Upper end of every 0-100 scale.
pub const SCALE_MAX: u16 = 100;

pub const APY_WEIGHT: u16 = 50;

pub const VOLATILITY_WEIGHT: u16 = 30;

pub const IL_RISK_WEIGHT: u16 = 20;

pub const SAFETY_WEIGHT: u16 = 10;

pub open spec fn min_int(a: int, b: int) -> int {
    if a < b {
        a
    } else {
        b
    }
}

/// `a - b`, or zero where that is negative.
pub open spec fn sub_floor_zero(a: int, b: int) -> int {
    if a > b {
        a - b
    } else {
        0
    }
}

/// `weight` percent of `value`, rounded down.
pub open spec fn weighted(value: int, weight: int) -> int {
    value * weight / 100
}

/// The yield on the 0-100 scale: whole percent, capped at 100.
pub open spec fn apy_normalized(apy: u16) -> int {
    min_int(100, apy as int / 100)
}

/// The score of an opportunity with these metrics.
pub open spec fn score_of(apy: u16, volatility: u8, il_risk: u8, safety_score: u8) -> int {
    let raw = sub_floor_zero(
        sub_floor_zero(weighted(apy_normalized(apy), 50), weighted(volatility as int, 30)),
        weighted(il_risk as int, 20),
    ) + weighted(safety_score as int, 10);
    min_int(100, raw)
}

/// A rebalance is due when the best score beats the current one by more than
/// the threshold.
pub open spec fn rebalance_due(current_score: u16, best_score: u16, threshold: u16) -> bool {
    sub_floor_zero(best_score as int, current_score as int) > threshold
}

/// The percentage of the capital that a score earns out of a total score.
pub open spec fn allocation_of(score: u16, total_score: u16) -> int {
    if total_score == 0 {
        0
    } else {
        min_int(100, score * 100 / (total_score as int))
    }
}

pub struct ScoringEngine;

impl ScoringEngine {
    /// The risk-adjusted score, between 0 and 100. Yields above 100% score
    /// as 100% does.
    pub fn calculate_score(apy: u16, volatility: u8, il_risk: u8, safety_score: u8) -> (r: u16)
        ensures
            r == score_of(apy, volatility, il_risk, safety_score),
            r <= 100,
    {
        let whole_percent = apy / APY_SCALE;
        let apy_normalized = if whole_percent < SCALE_MAX {
            whole_percent
        } else {
            SCALE_MAX
        };
        let apy_component = apy_normalized * APY_WEIGHT / 100;
        let volatility_component = (volatility as u16) * VOLATILITY_WEIGHT / 100;
        let il_component = (il_risk as u16) * IL_RISK_WEIGHT / 100;
        let safety_component = (safety_score as u16) * SAFETY_WEIGHT / 100;
        let score = apy_component.saturating_sub(volatility_component).saturating_sub(
            il_component,
        ).saturating_add(safety_component);
        if score < SCALE_MAX {
            score
        } else {
            SCALE_MAX
        }
    }

    /// Whether `best_score - current_score` exceeds `threshold`; never when
    /// the best does not beat the current score.
    pub fn should_rebalance(current_score: u16, best_score: u16, threshold: u16) -> (r: bool)
        ensures
            r == rebalance_due(current_score, best_score, threshold),
    {
        let score_diff = best_score.saturating_sub(current_score);
        score_diff > threshold
    }

    /// The share of capital, in percent, that `score` earns out of
    /// `total_score`: `score * 100 / total_score` rounded down and capped at
    /// 100; zero when the total is zero.
    pub fn calculate_allocation(score: u16, total_score: u16) -> (r: u8)
        ensures
            r == allocation_of(score, total_score),
            r <= 100,
    {
        if total_score == 0 {
            return 0;
        }
        let allocation = (score as u32) * 100 / (total_score as u32);
        if allocation < 100 {
            allocation as u8
        } else {
            100
        }
    }
}

} // verus!
