//! Entry and approval policies chosen by the operator when arming a position,
//! and the identifiers of the signal strategies they resolve to.

use vstd::prelude::*;

use crate::text::owned;

verus! {

/// What triggers the entry signal.
#[derive(Debug, Clone, Copy, PartialEq, Eq, Structural)]
pub enum EntryPolicy {
    /// Operator injects the signal manually
    Immediate,
    /// SMA crossover signal (default)
    ConfirmedTrend,
    /// Reversal candlestick pattern
    ConfirmedReversal,
    /// Key level breakout / reaction
    ConfirmedKeyLevel,
}

/// Whether entry needs operator confirmation.
#[derive(Debug, Clone, Copy, PartialEq, Eq, Structural)]
pub enum ApprovalPolicy {
    /// Entry proceeds without operator action (default)
    Automatic,
    /// Operator must approve before the order is placed
    HumanConfirmation,
}

/// Outcome of one signal strategy evaluation.
#[derive(Debug, Clone, Copy, PartialEq, Eq, Structural)]
pub enum SignalEvaluationOutcome {
    /// The strategy confirmed a signal
    SignalConfirmed,
    /// No signal
    NoSignal,
}

/// Stable identifier of a signal strategy: a name and a version.
#[derive(Debug, Clone, PartialEq, Eq, Hash)]
pub struct StrategyId {
    /// Strategy name
    pub name: String,
    /// Strategy version
    pub version: u32,
}

impl StrategyId {
    /// A strategy identifier.
    pub fn new(name: &str, version: u32) -> (r: StrategyId)
        ensures
            r.name@ == name@,
            r.version == version,
    {
        StrategyId { name: owned(name), version }
    }
}

} // verus!
