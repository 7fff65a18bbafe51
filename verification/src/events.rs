//! Domain events: immutable records of position state changes, used for
//! event sourcing, replay and audit.

use vstd::prelude::*;

use crate::decimal::Dec;
use crate::entities::{AccountId, EntryLifecycleStage, ExitReason, OrderId, PositionId};
use crate::ids::{Timestamp, Uuid};
use crate::policy::{ApprovalPolicy, EntryPolicy, SignalEvaluationOutcome, StrategyId};
use crate::value_objects::{Price, Quantity, Side, Symbol, TechnicalStopDistance};

verus! {

/// Domain events for the position lifecycle.
#[derive(Debug, Clone, PartialEq)]
pub enum Event {
    /// Position created and armed, waiting for entry signal
    PositionArmed {
        /// Unique position identifier
        position_id: PositionId,
        /// Account that owns this position
        account_id: AccountId,
        /// Trading pair symbol
        symbol: Symbol,
        /// Position direction
        side: Side,
        /// Technical stop distance from chart analysis
        tech_stop_distance: Option<TechnicalStopDistance>,
        /// When the position was armed
        timestamp: Timestamp,
    },
    /// Entry policy resolved to its deterministic strategy, if any
    EntryPolicyResolved {
        /// Position identifier
        position_id: PositionId,
        /// Operator-selected entry policy mode
        entry_policy: EntryPolicy,
        /// Operator-selected approval mode
        approval_policy: ApprovalPolicy,
        /// Strategy selected for the policy (None: immediate entry)
        strategy_id: Option<StrategyId>,
        /// When the policy was resolved
        timestamp: Timestamp,
    },
    /// Signal strategy evaluation result for replay and audit
    SignalStrategyEvaluated {
        /// Position identifier
        position_id: PositionId,
        /// Entry policy being evaluated
        entry_policy: EntryPolicy,
        /// Strategy that produced the evaluation
        strategy_id: StrategyId,
        /// Whether the strategy confirmed a signal
        outcome: SignalEvaluationOutcome,
        /// Confirmed side, when a signal is present
        side: Option<Side>,
        /// Deterministic human-readable reason
        reason: Option<String>,
        /// Observation time
        observed_at: Option<Timestamp>,
        /// Reference price used by the confirmed signal
        reference_price: Option<Price>,
        /// When the evaluation was recorded
        timestamp: Timestamp,
    },
    /// Detector fired entry signal
    EntrySignalReceived {
        /// Position identifier
        position_id: PositionId,
        /// Signal ID for idempotency
        signal_id: Uuid,
        /// Entry price from signal
        entry_price: Price,
        /// Technical stop loss from signal
        stop_loss: Price,
        /// Calculated position size
        quantity: Quantity,
        /// When the signal was received
        timestamp: Timestamp,
    },
    /// Legacy pre-exchange entry order event (kept for replay)
    EntryOrderPlaced {
        /// Position identifier
        position_id: PositionId,
        /// Query/risk cycle identifier
        cycle_id: Option<Uuid>,
        /// Legacy local order identifier
        order_id: OrderId,
        /// Expected entry price
        expected_price: Price,
        /// Order quantity
        quantity: Quantity,
        /// Signal ID
        signal_id: Uuid,
        /// When the event was recorded
        timestamp: Timestamp,
    },
    /// Governed intent to place the entry order (pre-exchange)
    EntryOrderRequested {
        /// Position identifier
        position_id: PositionId,
        /// Query/risk cycle identifier
        cycle_id: Option<Uuid>,
        /// Local order identifier
        order_id: OrderId,
        /// Client order identifier
        client_order_id: String,
        /// Expected entry price
        expected_price: Price,
        /// Order quantity
        quantity: Quantity,
        /// Signal ID
        signal_id: Uuid,
        /// When the intent was recorded
        timestamp: Timestamp,
    },
    /// Exchange acknowledged the entry order
    EntryOrderAccepted {
        /// Position identifier
        position_id: PositionId,
        /// Query/risk cycle identifier
        cycle_id: Uuid,
        /// Local order identifier
        order_id: OrderId,
        /// Client order identifier
        client_order_id: String,
        /// Exchange order identifier
        exchange_order_id: String,
        /// Expected entry price
        expected_price: Price,
        /// Order quantity
        quantity: Quantity,
        /// Signal ID
        signal_id: Uuid,
        /// When the exchange acknowledged
        timestamp: Timestamp,
    },
    /// Exchange rejected or failed the entry order
    EntryOrderFailed {
        /// Position identifier
        position_id: PositionId,
        /// Query/risk cycle identifier
        cycle_id: Uuid,
        /// Local order identifier
        order_id: OrderId,
        /// Client order identifier
        client_order_id: String,
        /// Signal ID
        signal_id: Uuid,
        /// Failure reason
        reason: String,
        /// When the failure occurred
        timestamp: Timestamp,
    },
    /// Entry rejected by an internal check before any placement
    EntryExecutionRejected {
        /// Position identifier
        position_id: PositionId,
        /// Query/risk cycle identifier
        cycle_id: Uuid,
        /// Local order identifier for the blocked attempt
        order_id: OrderId,
        /// Client order identifier
        client_order_id: String,
        /// Signal ID
        signal_id: Uuid,
        /// Rejection reason
        reason: String,
        /// Whether operator intervention can recover
        recoverable: bool,
        /// When the rejection occurred
        timestamp: Timestamp,
    },
    /// Entry order filled, position is now active
    EntryFilled {
        /// Position identifier
        position_id: PositionId,
        /// Order identifier
        order_id: OrderId,
        /// Actual fill price
        fill_price: Price,
        /// Filled quantity
        filled_quantity: Quantity,
        /// Trading fee paid
        fee: Dec,
        /// Initial trailing stop price
        initial_stop: Price,
        /// Exchange position identifier
        binance_position_id: Option<String>,
        /// When the fill occurred
        timestamp: Timestamp,
    },
    /// Trailing stop moved after a favorable price move
    TrailingStopUpdated {
        /// Position identifier
        position_id: PositionId,
        /// Previous stop price
        previous_stop: Price,
        /// New stop price
        new_stop: Price,
        /// Price that triggered the update
        trigger_price: Price,
        /// When the update occurred
        timestamp: Timestamp,
    },
    /// Monitor observed a market tick for an active position
    PositionMonitorTick {
        /// Position identifier
        position_id: PositionId,
        /// Trading pair string
        symbol: String,
        /// Current tick price
        price: Price,
        /// Current trailing stop
        current_stop: Price,
        /// Best favorable price seen
        high_watermark: Price,
        /// Distance from the watermark to the stop
        span_remaining: Dec,
        /// When the tick was observed
        timestamp: Timestamp,
    },
    /// Exit triggered (trailing stop hit or user panic)
    ExitTriggered {
        /// Position identifier
        position_id: PositionId,
        /// Reason for exit
        reason: ExitReason,
        /// Price that triggered the exit
        trigger_price: Price,
        /// Stop price that was hit
        stop_price: Price,
        /// When the exit was triggered
        timestamp: Timestamp,
    },
    /// Exit order placed on exchange
    ExitOrderPlaced {
        /// Position identifier
        position_id: PositionId,
        /// Query/risk cycle identifier
        cycle_id: Option<Uuid>,
        /// Order identifier
        order_id: OrderId,
        /// Expected exit price
        expected_price: Price,
        /// Order quantity
        quantity: Quantity,
        /// Reason for exit
        exit_reason: ExitReason,
        /// When the order was placed
        timestamp: Timestamp,
    },
    /// Exit order filled
    ExitFilled {
        /// Position identifier
        position_id: PositionId,
        /// Order identifier
        order_id: OrderId,
        /// Actual fill price
        fill_price: Price,
        /// Filled quantity
        filled_quantity: Quantity,
        /// Trading fee paid
        fee: Dec,
        /// When the fill occurred
        timestamp: Timestamp,
    },
    /// Position closed with final P&L
    PositionClosed {
        /// Position identifier
        position_id: PositionId,
        /// Reason for closure
        exit_reason: ExitReason,
        /// Entry price
        entry_price: Price,
        /// Exit price
        exit_price: Price,
        /// Realized profit or loss
        realized_pnl: Dec,
        /// Total fees paid
        total_fees: Dec,
        /// When the position was closed
        timestamp: Timestamp,
    },
    /// Month boundary processed (system-scoped, no position)
    MonthBoundaryReset {
        /// New month's capital base
        capital_base: Dec,
        /// Risk carried by open positions into the new month
        carried_positions_risk: Dec,
        /// UTC month (1-12)
        month: u32,
        /// UTC year
        year: i32,
        /// When the boundary was processed
        timestamp: Timestamp,
    },
    /// Entry awaits operator approval
    EntryApprovalPending {
        /// Position identifier
        position_id: PositionId,
        /// Signal that triggered the approval gate
        signal_id: Uuid,
        /// When the approval gate was entered
        timestamp: Timestamp,
    },
    /// Position disarmed before any entry order
    PositionDisarmed {
        /// Position identifier
        position_id: PositionId,
        /// Why the position was disarmed
        reason: String,
        /// When the position was disarmed
        timestamp: Timestamp,
    },
    /// Position error occurred
    PositionError {
        /// Position identifier
        position_id: PositionId,
        /// Error description
        error: String,
        /// Whether the error is recoverable
        recoverable: bool,
        /// When the error occurred
        timestamp: Timestamp,
    },
    /// Insurance stop order placed on exchange
    InsuranceStopPlaced {
        /// Position identifier
        position_id: PositionId,
        /// Order identifier
        order_id: OrderId,
        /// Stop price
        stop_price: Price,
        /// Limit price
        limit_price: Price,
        /// Order quantity
        quantity: Quantity,
        /// When the order was placed
        timestamp: Timestamp,
    },
    /// Insurance stop order cancelled
    InsuranceStopCancelled {
        /// Position identifier
        position_id: PositionId,
        /// Order identifier
        order_id: OrderId,
        /// Reason for cancellation
        reason: String,
        /// When the cancellation occurred
        timestamp: Timestamp,
    },
}

impl Event {
    /// The position the event belongs to (0, the nil UUID, for the system-scoped month boundary).
    pub open spec fn spec_position_id(&self) -> PositionId {
        match self {
            Event::PositionArmed { position_id, .. } => *position_id,
            Event::EntryPolicyResolved { position_id, .. } => *position_id,
            Event::SignalStrategyEvaluated { position_id, .. } => *position_id,
            Event::EntrySignalReceived { position_id, .. } => *position_id,
            Event::EntryOrderPlaced { position_id, .. } => *position_id,
            Event::EntryOrderRequested { position_id, .. } => *position_id,
            Event::EntryOrderAccepted { position_id, .. } => *position_id,
            Event::EntryOrderFailed { position_id, .. } => *position_id,
            Event::EntryExecutionRejected { position_id, .. } => *position_id,
            Event::EntryFilled { position_id, .. } => *position_id,
            Event::TrailingStopUpdated { position_id, .. } => *position_id,
            Event::PositionMonitorTick { position_id, .. } => *position_id,
            Event::ExitTriggered { position_id, .. } => *position_id,
            Event::ExitOrderPlaced { position_id, .. } => *position_id,
            Event::ExitFilled { position_id, .. } => *position_id,
            Event::PositionClosed { position_id, .. } => *position_id,
            Event::MonthBoundaryReset { .. } => 0,
            Event::EntryApprovalPending { position_id, .. } => *position_id,
            Event::PositionDisarmed { position_id, .. } => *position_id,
            Event::PositionError { position_id, .. } => *position_id,
            Event::InsuranceStopPlaced { position_id, .. } => *position_id,
            Event::InsuranceStopCancelled { position_id, .. } => *position_id,
        }
    }

    /// When the event happened.
    pub open spec fn spec_timestamp(&self) -> Timestamp {
        match self {
            Event::PositionArmed { timestamp, .. } => *timestamp,
            Event::EntryPolicyResolved { timestamp, .. } => *timestamp,
            Event::SignalStrategyEvaluated { timestamp, .. } => *timestamp,
            Event::EntrySignalReceived { timestamp, .. } => *timestamp,
            Event::EntryOrderPlaced { timestamp, .. } => *timestamp,
            Event::EntryOrderRequested { timestamp, .. } => *timestamp,
            Event::EntryOrderAccepted { timestamp, .. } => *timestamp,
            Event::EntryOrderFailed { timestamp, .. } => *timestamp,
            Event::EntryExecutionRejected { timestamp, .. } => *timestamp,
            Event::EntryFilled { timestamp, .. } => *timestamp,
            Event::TrailingStopUpdated { timestamp, .. } => *timestamp,
            Event::PositionMonitorTick { timestamp, .. } => *timestamp,
            Event::ExitTriggered { timestamp, .. } => *timestamp,
            Event::ExitOrderPlaced { timestamp, .. } => *timestamp,
            Event::ExitFilled { timestamp, .. } => *timestamp,
            Event::PositionClosed { timestamp, .. } => *timestamp,
            Event::MonthBoundaryReset { timestamp, .. } => *timestamp,
            Event::EntryApprovalPending { timestamp, .. } => *timestamp,
            Event::PositionDisarmed { timestamp, .. } => *timestamp,
            Event::PositionError { timestamp, .. } => *timestamp,
            Event::InsuranceStopPlaced { timestamp, .. } => *timestamp,
            Event::InsuranceStopCancelled { timestamp, .. } => *timestamp,
        }
    }

    /// The event type name.
    pub open spec fn spec_event_type(&self) -> Seq<char> {
        match self {
            Event::PositionArmed { .. } => "position_armed"@,
            Event::EntryPolicyResolved { .. } => "entry_policy_resolved"@,
            Event::SignalStrategyEvaluated { .. } => "signal_strategy_evaluated"@,
            Event::EntrySignalReceived { .. } => "entry_signal_received"@,
            Event::EntryOrderPlaced { .. } => "entry_order_placed"@,
            Event::EntryOrderRequested { .. } => "entry_order_requested"@,
            Event::EntryOrderAccepted { .. } => "entry_order_accepted"@,
            Event::EntryOrderFailed { .. } => "entry_order_failed"@,
            Event::EntryExecutionRejected { .. } => "entry_execution_rejected"@,
            Event::EntryFilled { .. } => "entry_filled"@,
            Event::TrailingStopUpdated { .. } => "trailing_stop_updated"@,
            Event::PositionMonitorTick { .. } => "position_monitor_tick"@,
            Event::ExitTriggered { .. } => "exit_triggered"@,
            Event::ExitOrderPlaced { .. } => "exit_order_placed"@,
            Event::ExitFilled { .. } => "exit_filled"@,
            Event::PositionClosed { .. } => "position_closed"@,
            Event::MonthBoundaryReset { .. } => "month_boundary_reset"@,
            Event::EntryApprovalPending { .. } => "entry_approval_pending"@,
            Event::PositionDisarmed { .. } => "position_disarmed"@,
            Event::PositionError { .. } => "position_error"@,
            Event::InsuranceStopPlaced { .. } => "insurance_stop_placed"@,
            Event::InsuranceStopCancelled { .. } => "insurance_stop_cancelled"@,
        }
    }

    /// The position the event belongs to; the nil UUID (0) for system-scoped
    /// events.
    pub fn position_id(&self) -> (r: PositionId)
        ensures
            r == self.spec_position_id(),
    {
        match self {
            Event::PositionArmed { position_id, .. } => *position_id,
            Event::EntryPolicyResolved { position_id, .. } => *position_id,
            Event::SignalStrategyEvaluated { position_id, .. } => *position_id,
            Event::EntrySignalReceived { position_id, .. } => *position_id,
            Event::EntryOrderPlaced { position_id, .. } => *position_id,
            Event::EntryOrderRequested { position_id, .. } => *position_id,
            Event::EntryOrderAccepted { position_id, .. } => *position_id,
            Event::EntryOrderFailed { position_id, .. } => *position_id,
            Event::EntryExecutionRejected { position_id, .. } => *position_id,
            Event::EntryFilled { position_id, .. } => *position_id,
            Event::TrailingStopUpdated { position_id, .. } => *position_id,
            Event::PositionMonitorTick { position_id, .. } => *position_id,
            Event::ExitTriggered { position_id, .. } => *position_id,
            Event::ExitOrderPlaced { position_id, .. } => *position_id,
            Event::ExitFilled { position_id, .. } => *position_id,
            Event::PositionClosed { position_id, .. } => *position_id,
            Event::MonthBoundaryReset { .. } => 0,
            Event::EntryApprovalPending { position_id, .. } => *position_id,
            Event::PositionDisarmed { position_id, .. } => *position_id,
            Event::PositionError { position_id, .. } => *position_id,
            Event::InsuranceStopPlaced { position_id, .. } => *position_id,
            Event::InsuranceStopCancelled { position_id, .. } => *position_id,
        }
    }

    /// When the event happened.
    pub fn timestamp(&self) -> (r: Timestamp)
        ensures
            r == self.spec_timestamp(),
    {
        match self {
            Event::PositionArmed { timestamp, .. } => *timestamp,
            Event::EntryPolicyResolved { timestamp, .. } => *timestamp,
            Event::SignalStrategyEvaluated { timestamp, .. } => *timestamp,
            Event::EntrySignalReceived { timestamp, .. } => *timestamp,
            Event::EntryOrderPlaced { timestamp, .. } => *timestamp,
            Event::EntryOrderRequested { timestamp, .. } => *timestamp,
            Event::EntryOrderAccepted { timestamp, .. } => *timestamp,
            Event::EntryOrderFailed { timestamp, .. } => *timestamp,
            Event::EntryExecutionRejected { timestamp, .. } => *timestamp,
            Event::EntryFilled { timestamp, .. } => *timestamp,
            Event::TrailingStopUpdated { timestamp, .. } => *timestamp,
            Event::PositionMonitorTick { timestamp, .. } => *timestamp,
            Event::ExitTriggered { timestamp, .. } => *timestamp,
            Event::ExitOrderPlaced { timestamp, .. } => *timestamp,
            Event::ExitFilled { timestamp, .. } => *timestamp,
            Event::PositionClosed { timestamp, .. } => *timestamp,
            Event::MonthBoundaryReset { timestamp, .. } => *timestamp,
            Event::EntryApprovalPending { timestamp, .. } => *timestamp,
            Event::PositionDisarmed { timestamp, .. } => *timestamp,
            Event::PositionError { timestamp, .. } => *timestamp,
            Event::InsuranceStopPlaced { timestamp, .. } => *timestamp,
            Event::InsuranceStopCancelled { timestamp, .. } => *timestamp,
        }
    }

    /// The event type name (snake case).
    pub fn event_type(&self) -> (r: &'static str)
        ensures
            r@ == self.spec_event_type(),
    {
        match self {
            Event::PositionArmed { .. } => "position_armed",
            Event::EntryPolicyResolved { .. } => "entry_policy_resolved",
            Event::SignalStrategyEvaluated { .. } => "signal_strategy_evaluated",
            Event::EntrySignalReceived { .. } => "entry_signal_received",
            Event::EntryOrderPlaced { .. } => "entry_order_placed",
            Event::EntryOrderRequested { .. } => "entry_order_requested",
            Event::EntryOrderAccepted { .. } => "entry_order_accepted",
            Event::EntryOrderFailed { .. } => "entry_order_failed",
            Event::EntryExecutionRejected { .. } => "entry_execution_rejected",
            Event::EntryFilled { .. } => "entry_filled",
            Event::TrailingStopUpdated { .. } => "trailing_stop_updated",
            Event::PositionMonitorTick { .. } => "position_monitor_tick",
            Event::ExitTriggered { .. } => "exit_triggered",
            Event::ExitOrderPlaced { .. } => "exit_order_placed",
            Event::ExitFilled { .. } => "exit_filled",
            Event::PositionClosed { .. } => "position_closed",
            Event::MonthBoundaryReset { .. } => "month_boundary_reset",
            Event::EntryApprovalPending { .. } => "entry_approval_pending",
            Event::PositionDisarmed { .. } => "position_disarmed",
            Event::PositionError { .. } => "position_error",
            Event::InsuranceStopPlaced { .. } => "insurance_stop_placed",
            Event::InsuranceStopCancelled { .. } => "insurance_stop_cancelled",
        }
    }
}

/// The entry stage after `stage` once `event` is seen. A cancelled entry
/// (disarmed, or refused before placement) is terminated: it stays
/// cancelled whatever follows.
pub open spec fn stage_step(stage: EntryLifecycleStage, event: Event) -> EntryLifecycleStage {
    if stage == EntryLifecycleStage::Cancelled {
        stage
    } else {
        stage_step_live(stage, event)
    }
}

/// The stage an event leads to from a stage that is not cancelled.
pub open spec fn stage_step_live(stage: EntryLifecycleStage, event: Event) -> EntryLifecycleStage {
    match event {
        Event::PositionArmed { .. } => EntryLifecycleStage::IntentCreated,
        Event::EntryPolicyResolved { .. } => EntryLifecycleStage::AwaitingSignal,
        Event::EntrySignalReceived { .. } => EntryLifecycleStage::SignalConfirmed,
        Event::EntryApprovalPending { .. } => EntryLifecycleStage::AwaitingApproval,
        Event::EntryOrderRequested { .. } => EntryLifecycleStage::OrderSubmitted,
        Event::EntryOrderPlaced { .. } => EntryLifecycleStage::OrderSubmitted,
        Event::EntryFilled { .. } => EntryLifecycleStage::Active,
        Event::PositionDisarmed { .. } => EntryLifecycleStage::Cancelled,
        Event::EntryExecutionRejected { .. } => EntryLifecycleStage::Cancelled,
        Event::EntryOrderFailed { .. } => EntryLifecycleStage::AwaitingSignal,
        _ => stage,
    }
}

/// The entry stage projected from an ordered event sequence, starting at
/// `IntentCreated`.
pub open spec fn stage_after(events: Seq<Event>) -> EntryLifecycleStage
    decreases events.len(),
{
    if events.len() == 0 {
        EntryLifecycleStage::IntentCreated
    } else {
        stage_step(stage_after(events.drop_last()), events.last())
    }
}

/// The entry lifecycle stage of an ordered event sequence. Deterministic and
/// replay-safe: it depends on the sequence alone.
pub fn entry_lifecycle_stage(events: &[Event]) -> (r: EntryLifecycleStage)
    ensures
        r == stage_after(events@),
{
    let mut stage = EntryLifecycleStage::IntentCreated;
    let mut i: usize = 0;
    while i < events.len()
        invariant
            i <= events@.len(),
            stage == stage_after(events@.subrange(0, i as int)),
        decreases events@.len() - i,
    {
        proof {
            assert(events@.subrange(0, i as int + 1).drop_last() =~= events@.subrange(0, i as int));
        }
        stage = if stage == EntryLifecycleStage::Cancelled {
            stage
        } else {
            match &events[i] {
            Event::PositionArmed { .. } => EntryLifecycleStage::IntentCreated,
            Event::EntryPolicyResolved { .. } => EntryLifecycleStage::AwaitingSignal,
            Event::EntrySignalReceived { .. } => EntryLifecycleStage::SignalConfirmed,
            Event::EntryApprovalPending { .. } => EntryLifecycleStage::AwaitingApproval,
            Event::EntryOrderRequested { .. } => EntryLifecycleStage::OrderSubmitted,
            Event::EntryOrderPlaced { .. } => EntryLifecycleStage::OrderSubmitted,
            Event::EntryFilled { .. } => EntryLifecycleStage::Active,
            Event::PositionDisarmed { .. } => EntryLifecycleStage::Cancelled,
            Event::EntryExecutionRejected { .. } => EntryLifecycleStage::Cancelled,
            Event::EntryOrderFailed { .. } => EntryLifecycleStage::AwaitingSignal,
            _ => stage,
            }
        };
        i = i + 1;
    }
    assert(events@.subrange(0, events@.len() as int) =~= events@);
    stage
}

/// Replaying a longer event log is replaying the shorter one and then the
/// new events: the projection can be computed incrementally.
pub proof fn lemma_stage_replay_is_incremental(prefix: Seq<Event>, suffix: Seq<Event>)
    ensures
        stage_after(prefix + suffix) == stage_from(stage_after(prefix), suffix),
    decreases suffix.len(),
{
    if suffix.len() == 0 {
        assert(prefix + suffix =~= prefix);
    } else {
        assert((prefix + suffix).drop_last() =~= prefix + suffix.drop_last());
        lemma_stage_replay_is_incremental(prefix, suffix.drop_last());
    }
}

/// The stage reached from `stage` after the events of `events`, in order.
pub open spec fn stage_from(stage: EntryLifecycleStage, events: Seq<Event>) -> EntryLifecycleStage
    decreases events.len(),
{
    if events.len() == 0 {
        stage
    } else {
        stage_step(stage_from(stage, events.drop_last()), events.last())
    }
}

/// Whether an event moves the entry lifecycle: arming, policy resolution,
/// signal, approval, order request or placement, fill, disarming, a refused
/// or failed entry.
pub open spec fn advances_entry(e: Event) -> bool {
    ||| e is PositionArmed
    ||| e is EntryPolicyResolved
    ||| e is EntrySignalReceived
    ||| e is EntryApprovalPending
    ||| e is EntryOrderRequested
    ||| e is EntryOrderPlaced
    ||| e is EntryFilled
    ||| e is PositionDisarmed
    ||| e is EntryExecutionRejected
    ||| e is EntryOrderFailed
}

/// Events outside the entry lifecycle (monitor ticks, trailing-stop updates,
/// exits, errors, insurance orders) leave the projected stage unchanged,
/// wherever they appear in the log.
pub proof fn lemma_other_events_keep_stage(before: Seq<Event>, e: Event, after: Seq<Event>)
    requires
        !advances_entry(e),
    ensures
        stage_after(before.push(e) + after) == stage_after(before + after),
{
    lemma_stage_replay_is_incremental(before.push(e), after);
    lemma_stage_replay_is_incremental(before, after);
    assert(before.push(e).drop_last() =~= before);
}

/// The events of the log that move the entry lifecycle, in order.
pub open spec fn entry_events(events: Seq<Event>) -> Seq<Event>
    decreases events.len(),
{
    if events.len() == 0 {
        Seq::empty()
    } else if advances_entry(events.last()) {
        entry_events(events.drop_last()).push(events.last())
    } else {
        entry_events(events.drop_last())
    }
}

/// The projected stage depends only on the events that move the entry
/// lifecycle: any number of other events, inserted anywhere, change nothing.
pub proof fn lemma_stage_depends_on_entry_events(events: Seq<Event>)
    ensures
        stage_after(events) == stage_after(entry_events(events)),
    decreases events.len(),
{
    if events.len() > 0 {
        lemma_stage_depends_on_entry_events(events.drop_last());
        if advances_entry(events.last()) {
            let e = entry_events(events.drop_last());
            assert(e.push(events.last()).drop_last() =~= e);
        }
    }
}

/// A cancelled entry stays cancelled: once the projection of a log is
/// `Cancelled` (after a disarm or a refused entry), it is `Cancelled` for
/// every longer log.
pub proof fn lemma_cancel_is_final(prefix: Seq<Event>, suffix: Seq<Event>)
    requires
        stage_after(prefix) == EntryLifecycleStage::Cancelled,
    ensures
        stage_after(prefix + suffix) == EntryLifecycleStage::Cancelled,
    decreases suffix.len(),
{
    if suffix.len() == 0 {
        assert(prefix + suffix =~= prefix);
    } else {
        lemma_cancel_is_final(prefix, suffix.drop_last());
        assert((prefix + suffix).drop_last() =~= prefix + suffix.drop_last());
    }
}

} // verus!
