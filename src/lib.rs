//! Accounting, scoring and permission logic of a pooled-capital yield vault.
//!
//! - [`identity`]: 32-byte principals and program-derived record addresses.
//! - [`roles`]: role bitfields per (user, pool) with an unrevokable super-admin
//!   and an emergency pause.
//! - [`scoring`]: risk-adjusted scores and rebalance/allocation decisions.
//! - [`strategy`]: opportunity records, best-opportunity tracking and the
//!   rebalance cooldown.
//! - [`vault`]: share accounting, time-locked withdrawals and performance fees.
//! - [`integrations`], [`mock_amm`], [`mock_lending`]: the protocol interface
//!   and two simplified protocol simulators.
mod arith;
pub mod identity;
pub mod integrations;
pub mod mock_amm;
pub mod mock_lending;
pub mod roles;
pub mod scoring;
pub mod strategy;
pub mod vault;
