//! The registry of yield opportunities of one pool: which is best, and
//! whether capital should move to it, subject to a score gap and a cooldown.
//! It only decides; moving funds is left to the caller.
use crate::identity::Identity;
use crate::roles::is_role_record;
use crate::scoring::{rebalance_due, score_of, ScoringEngine};
use vstd::prelude::*;

verus! {

/// Seconds that must pass between two rebalances.
pub const REBALANCE_COOLDOWN: i64 = 3600;

/// Upper bound of the volatility, impermanent-loss and safety metrics.
pub const MAX_METRIC: u8 = 100;

/// The opportunity counter stops here.
pub const MAX_COUNTED_OPPORTUNITIES: u8 = 255;

#[derive(Clone, Copy, Debug, PartialEq, Eq, Structural)]
pub enum StrategyError {
    Unauthorized,
    InvalidOpportunity,
    NoOpportunities,
    ScoreTooLow,
    InvalidThreshold,
    RebalanceCooldown,
    InsufficientDeployed,
    InvalidAmount,
    OverflowError,
    NoYield,
}

/// Strategy configuration and state of one pool.
#[derive(Clone, Copy, Debug)]
pub struct StrategyState {
    pub vault: Identity,
    /// Index of the best opportunity; 0 also stands for "none yet".
    pub best_opportunity: u8,
    /// Opportunities registered, saturating at 255.
    pub num_opportunities: u8,
    /// Score gap that a rebalance must exceed.
    pub rebalance_threshold: u16,
    pub last_rebalance: i64,
    pub deployed_value: u64,
}

/// A yield opportunity of one protocol.
#[derive(Clone, Copy, Debug)]
pub struct Opportunity {
    pub protocol_id: [u8; 32],
    /// Annual yield in hundredths of a percent.
    pub apy: u16,
    pub volatility: u8,
    pub il_risk: u8,
    pub safety_score: u8,
    /// Always the score of the four metrics above.
    pub score: u16,
    pub active: bool,
    pub last_updated: i64,
}

/// Capital deployed to one opportunity.
#[derive(Clone, Copy, Debug)]
pub struct DeployedPosition {
    pub opportunity: Identity,
    pub amount: u64,
    pub deployment_timestamp: i64,
    pub yield_earned: u64,
}

/// The decision that a rebalance emits: move from the opportunity scored
/// `from_score` to the one scored `to_score`.
#[derive(Clone, Copy, Debug, PartialEq, Eq, Structural)]
pub struct RebalanceDecision {
    pub from_score: u16,
    pub to_score: u16,
    pub decided_at: i64,
}

impl Opportunity {
    /// The score is the one its metrics give, and they are in range.
    pub open spec fn wf(&self) -> bool {
        &&& self.volatility <= 100
        &&& self.il_risk <= 100
        &&& self.safety_score <= 100
        &&& self.score == score_of(self.apy, self.volatility, self.il_risk, self.safety_score)
    }
}

pub open spec fn metrics_valid(volatility: u8, il_risk: u8, safety_score: u8) -> bool {
    volatility <= 100 && il_risk <= 100 && safety_score <= 100
}

/// The counter after one more registration.
pub open spec fn counted(n: u8) -> u8 {
    if n < 255 {
        (n + 1) as u8
    } else {
        n
    }
}

/// The strategy state after an opportunity scored `score` was registered,
/// with `best_score` the score of the recorded best. Once the counter has
/// stopped, a new opportunity has no index and the best stays as it was.
pub open spec fn after_register(s: StrategyState, best_score: u16, score: u16) -> StrategyState {
    let n = counted(s.num_opportunities);
    StrategyState {
        num_opportunities: n,
        best_opportunity: if s.num_opportunities < 255 && (s.best_opportunity == 0 || score
            > best_score) {
            (n - 1) as u8
        } else {
            s.best_opportunity
        },
        ..s
    }
}

pub open spec fn rebalance_result(
    s: StrategyState,
    current: Opportunity,
    best: Opportunity,
    now: i64,
) -> Result<RebalanceDecision, StrategyError> {
    let elapsed = now - s.last_rebalance;
    if elapsed < 0 || elapsed > i64::MAX {
        Err(StrategyError::OverflowError)
    } else if elapsed < REBALANCE_COOLDOWN {
        Err(StrategyError::RebalanceCooldown)
    } else if !rebalance_due(current.score, best.score, s.rebalance_threshold) {
        Err(StrategyError::ScoreTooLow)
    } else {
        Ok(RebalanceDecision { from_score: current.score, to_score: best.score, decided_at: now })
    }
}

/// Strategy state of the pool `vault`, with no opportunity yet and the
/// cooldown starting at `now`.
pub fn initialize(vault: Identity, rebalance_threshold: u16, now: i64) -> (r: StrategyState)
    ensures
        r == (StrategyState {
            vault,
            best_opportunity: 0,
            num_opportunities: 0,
            rebalance_threshold,
            last_rebalance: now,
            deployed_value: 0,
        }),
{
    StrategyState {
        vault,
        best_opportunity: 0,
        num_opportunities: 0,
        rebalance_threshold,
        last_rebalance: now,
        deployed_value: 0,
    }
}

/// Records a new opportunity with its score and counts it. It becomes the
/// best when no best is recorded yet or it beats `best`, the recorded best;
/// past the 255th, the counter stops and the best index stays.
/// A metric above 100 is refused and nothing changes.
pub fn register_opportunity(
    strategy: &mut StrategyState,
    best: &Opportunity,
    protocol_id: [u8; 32],
    apy: u16,
    volatility: u8,
    il_risk: u8,
    safety_score: u8,
    now: i64,
) -> (r: Result<Opportunity, StrategyError>)
    ensures
        !metrics_valid(volatility, il_risk, safety_score) ==> r == Err::<Opportunity, StrategyError>(
            StrategyError::InvalidOpportunity,
        ) && *final(strategy) == *old(strategy),
        metrics_valid(volatility, il_risk, safety_score) ==> {
            &&& r == Ok::<Opportunity, StrategyError>(
                Opportunity {
                    protocol_id,
                    apy,
                    volatility,
                    il_risk,
                    safety_score,
                    score: score_of(apy, volatility, il_risk, safety_score) as u16,
                    active: true,
                    last_updated: now,
                },
            )
            &&& *final(strategy) == after_register(
                *old(strategy),
                best.score,
                score_of(apy, volatility, il_risk, safety_score) as u16,
            )
        },
        r matches Ok(o) ==> o.wf(),
{
    if volatility > MAX_METRIC || il_risk > MAX_METRIC || safety_score > MAX_METRIC {
        return Err(StrategyError::InvalidOpportunity);
    }
    let score = ScoringEngine::calculate_score(apy, volatility, il_risk, safety_score);
    let opportunity = Opportunity {
        protocol_id,
        apy,
        volatility,
        il_risk,
        safety_score,
        score,
        active: true,
        last_updated: now,
    };
    if strategy.num_opportunities < MAX_COUNTED_OPPORTUNITIES {
        strategy.num_opportunities = strategy.num_opportunities + 1;
        if strategy.best_opportunity == 0 || score > best.score {
            strategy.best_opportunity = strategy.num_opportunities - 1;
        }
    }
    Ok(opportunity)
}

/// Replaces the metrics of `opportunity` and recomputes its score; it becomes
/// the best, at `opportunity_index`, when it now beats `current_best`. A
/// metric above 100 is refused and nothing changes.
pub fn evaluate(
    strategy: &mut StrategyState,
    opportunity: &mut Opportunity,
    current_best: &Opportunity,
    opportunity_index: u8,
    new_apy: u16,
    new_volatility: u8,
    new_il_risk: u8,
    new_safety: u8,
    now: i64,
) -> (r: Result<(), StrategyError>)
    ensures
        !metrics_valid(new_volatility, new_il_risk, new_safety) ==> r == Err::<(), StrategyError>(
            StrategyError::InvalidOpportunity,
        ) && *final(strategy) == *old(strategy) && *final(opportunity) == *old(opportunity),
        metrics_valid(new_volatility, new_il_risk, new_safety) ==> {
            let score = score_of(new_apy, new_volatility, new_il_risk, new_safety) as u16;
            &&& r is Ok
            &&& *final(opportunity) == (Opportunity {
                apy: new_apy,
                volatility: new_volatility,
                il_risk: new_il_risk,
                safety_score: new_safety,
                score,
                last_updated: now,
                ..*old(opportunity)
            })
            &&& *final(strategy) == (StrategyState {
                best_opportunity: if score > current_best.score {
                    opportunity_index
                } else {
                    old(strategy).best_opportunity
                },
                ..*old(strategy)
            })
        },
        r is Ok ==> final(opportunity).wf(),
{
    if new_volatility > MAX_METRIC || new_il_risk > MAX_METRIC || new_safety > MAX_METRIC {
        return Err(StrategyError::InvalidOpportunity);
    }
    let new_score = ScoringEngine::calculate_score(new_apy, new_volatility, new_il_risk, new_safety);
    opportunity.apy = new_apy;
    opportunity.volatility = new_volatility;
    opportunity.il_risk = new_il_risk;
    opportunity.safety_score = new_safety;
    opportunity.score = new_score;
    opportunity.last_updated = now;
    if new_score > current_best.score {
        strategy.best_opportunity = opportunity_index;
    }
    Ok(())
}

/// Decides at time `now` whether to move from `current` to `best`: only once
/// the cooldown since the last rebalance has passed, and only when the score
/// gap exceeds the threshold. A clock that runs backwards is an error. On
/// success the cooldown restarts; on an error nothing changes.
pub fn rebalance(
    strategy: &mut StrategyState,
    current: &Opportunity,
    best: &Opportunity,
    now: i64,
) -> (r: Result<RebalanceDecision, StrategyError>)
    ensures
        r == rebalance_result(*old(strategy), *current, *best, now),
        r is Ok ==> *final(strategy) == (StrategyState { last_rebalance: now, ..*old(strategy) }),
        r is Err ==> *final(strategy) == *old(strategy),
{
    let elapsed = match now.checked_sub(strategy.last_rebalance) {
        Some(x) => x,
        None => return Err(StrategyError::OverflowError),
    };
    if elapsed < 0 {
        return Err(StrategyError::OverflowError);
    }
    if elapsed < REBALANCE_COOLDOWN {
        return Err(StrategyError::RebalanceCooldown);
    }
    if !ScoringEngine::should_rebalance(current.score, best.score, strategy.rebalance_threshold) {
        return Err(StrategyError::ScoreTooLow);
    }
    strategy.last_rebalance = now;
    Ok(RebalanceDecision { from_score: current.score, to_score: best.score, decided_at: now })
}

/// Once a rebalance has succeeded at `first`, any rebalance attempted at a
/// time `second` less than the cooldown later fails with the cooldown
/// error, whatever the opportunities and their scores.
pub proof fn lemma_rebalance_cooldown(
    s: StrategyState,
    current: Opportunity,
    best: Opportunity,
    first: i64,
    next_current: Opportunity,
    next_best: Opportunity,
    second: i64,
)
    requires
        rebalance_result(s, current, best, first) is Ok,
        first <= second < first + REBALANCE_COOLDOWN,
    ensures
        rebalance_result(
            StrategyState { last_rebalance: first, ..s },
            next_current,
            next_best,
            second,
        ) == Err::<RebalanceDecision, StrategyError>(StrategyError::RebalanceCooldown),
{
}

/// Accepts a role record presented for `user` in the pool `vault_key`, whose
/// stored bitfield is `roles`, only if it is owned by the permission program,
/// sits at the address that program derives for the pair, and holds some bit
/// of `required_role`.
pub fn verify_strategy_role(
    record_owner: &Identity,
    record_key: &Identity,
    user: &Identity,
    vault_key: &Identity,
    roles: u8,
    required_role: u8,
    program: &Identity,
) -> (r: Result<(), StrategyError>)
    ensures
        r is Ok <==> (record_owner@ == program@ && crate::identity::program_address(
            crate::roles::role_record_seeds(vault_key@, user@),
            program@,
        ) == Some(record_key@) && crate::roles::holds(roles, required_role)),
        r is Err ==> r == Err::<(), StrategyError>(StrategyError::Unauthorized),
{
    if roles & required_role != 0 && is_role_record(record_owner, record_key, user, vault_key, program) {
        Ok(())
    } else {
        Err(StrategyError::Unauthorized)
    }
}

} // verus!
