//! The interface that a yield protocol offers to the strategy layer.
use vstd::prelude::*;

verus! {

/// A protocol that capital can be deployed to.
pub trait ProtocolIntegration {
    /// Deposits `amount` into the protocol.
    fn deposit(&mut self, amount: u64) -> Result<(), String>;

    /// Withdraws `amount` from the protocol.
    fn withdraw(&mut self, amount: u64) -> Result<(), String>;

    /// The yield earned so far.
    fn calculate_yield(&self) -> u64;
}

} // verus!
