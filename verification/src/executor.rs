//! The executor's decisions: how an engine action is carried out against the
//! intent journal, which event each exchange outcome produces, and when a
//! batch of actions stops.
//!
//! The exchange calls and the event store are outside work. The caller runs
//! the loop: it asks `plan_action` what an action needs, performs the outside
//! step (validate the futures settings, place the order, persist the event)
//! and hands the outcome back to the matching step below.

use vstd::prelude::*;

use crate::engine::EngineAction;
use crate::entities::{ExitReason, OrderId, PositionId};
use crate::events::Event;
use crate::ids::{uuid_text, uuid_text_spec, Timestamp, Uuid};
use crate::intent::{ExecError, Intent, IntentAction, IntentJournal, IntentResult, IntentStatus};
use crate::ports::OrderResult;
use crate::text::owned;
use crate::value_objects::{OrderSide, Price, Quantity, Symbol};

verus! {

/// Result of executing an engine action.
#[derive(Debug)]
pub enum ActionResult {
    /// Order placed, with the domain event it produced (if any)
    OrderPlaced {
        /// What the exchange reported
        order: OrderResult,
        /// `EntryOrderAccepted` or `ExitOrderPlaced`
        event: Option<Event>,
    },
    /// The entry order failed on the exchange
    OrderFailed {
        /// The `EntryOrderFailed` event
        event: Event,
        /// The exchange error's message
        error: String,
    },
    /// The entry was refused by a safety check before any placement
    EntryExecutionRejected {
        /// The `EntryExecutionRejected` event
        event: Event,
        /// The failed check's message
        error: String,
    },
    /// The action was already processed (idempotent skip)
    AlreadyProcessed(Uuid),
    /// An event was persisted and applied, with no exchange interaction
    EventEmitted(Event),
    /// Position state updated, with no exchange interaction
    StateUpdated,
    /// Action skipped
    Skipped(String),
}

/// What carrying out an engine action needs.
#[derive(Debug)]
pub enum ActionPlan {
    /// Nothing outside: this is the result
    Done(ActionResult),
    /// Persist the event, then apply it; the result is `EventEmitted`
    Persist(Event),
    /// The entry order flow
    Entry {
        /// Position entering
        position_id: PositionId,
        /// Pair
        symbol: Symbol,
        /// Side
        side: OrderSide,
        /// Quantity
        quantity: Quantity,
        /// Signal ID, which is the intent ID
        signal_id: Uuid,
    },
    /// The exit order flow
    Exit {
        /// Position exiting
        position_id: PositionId,
        /// Pair
        symbol: Symbol,
        /// Side
        side: OrderSide,
        /// Quantity
        quantity: Quantity,
        /// Why the position exits
        reason: ExitReason,
    },
}

/// The first step of the entry flow.
#[derive(Debug, PartialEq, Eq, Structural)]
pub enum EntryCheck {
    /// The signal's intent already ran: the result is `AlreadyProcessed`
    AlreadyProcessed(Uuid),
    /// Validate the futures settings next; carries the cycle ID
    ValidateSettings(Uuid),
}

/// The message of a missing governance proof.
pub open spec fn missing_cycle_text() -> Seq<char> {
    "governance proof (cycle_id) required for entry order"@
}

/// What an engine action needs: trailing-stop updates and exit triggers are
/// state changes with nothing to place (the exit order comes as its own
/// action), events are persisted, orders go through their flows.
pub fn plan_action(action: EngineAction) -> (r: ActionPlan)
    ensures
        match action {
            EngineAction::UpdateTrailingStop { .. } => r == ActionPlan::Done(ActionResult::StateUpdated),
            EngineAction::TriggerExit { .. } => r == ActionPlan::Done(ActionResult::StateUpdated),
            EngineAction::EmitEvent(e) => r == ActionPlan::Persist(e),
            EngineAction::PlaceEntryOrder { position_id, symbol, side, quantity, signal_id } => r
                == (ActionPlan::Entry { position_id, symbol, side, quantity, signal_id }),
            EngineAction::PlaceExitOrder { position_id, symbol, side, quantity, reason } => r
                == (ActionPlan::Exit { position_id, symbol, side, quantity, reason }),
        },
{
    match action {
        EngineAction::UpdateTrailingStop { .. } => ActionPlan::Done(ActionResult::StateUpdated),
        EngineAction::TriggerExit { .. } => ActionPlan::Done(ActionResult::StateUpdated),
        EngineAction::EmitEvent(e) => ActionPlan::Persist(e),
        EngineAction::PlaceEntryOrder { position_id, symbol, side, quantity, signal_id } => {
            ActionPlan::Entry { position_id, symbol, side, quantity, signal_id }
        },
        EngineAction::PlaceExitOrder { position_id, symbol, side, quantity, reason } => {
            ActionPlan::Exit { position_id, symbol, side, quantity, reason }
        },
    }
}

/// Whether a batch of actions stops after this result: it does after a
/// failed or rejected entry.
pub fn ends_batch(result: &ActionResult) -> (r: bool)
    ensures
        r == (result is OrderFailed || result is EntryExecutionRejected),
{
    match result {
        ActionResult::OrderFailed { .. } => true,
        ActionResult::EntryExecutionRejected { .. } => true,
        _ => false,
    }
}

/// Entry, step one: the governance proof (a cycle ID) is mandatory, and a
/// signal whose intent is no longer pending is not executed again.
pub fn check_entry(journal: &IntentJournal, cycle_id: Option<Uuid>, signal_id: Uuid) -> (r: Result<
    EntryCheck,
    ExecError,
>)
    requires
        journal.wf(),
    ensures
        cycle_id is None ==> (r matches Err(ExecError::InvalidState(m)) && m@ == missing_cycle_text()),
        cycle_id matches Some(c) ==> r == Ok::<EntryCheck, ExecError>(
            if already_ran(*journal, signal_id) {
                EntryCheck::AlreadyProcessed(signal_id)
            } else {
                EntryCheck::ValidateSettings(c)
            },
        ),
{
    let cycle = match cycle_id {
        Some(c) => c,
        None => {
            return Err(ExecError::InvalidState(owned("governance proof (cycle_id) required for entry order")));
        },
    };
    match journal.get(signal_id) {
        Ok(Some(existing)) => {
            if !existing.is_pending() {
                return Ok(EntryCheck::AlreadyProcessed(signal_id));
            }
        },
        _ => {},
    }
    Ok(EntryCheck::ValidateSettings(cycle))
}

/// Whether the journal holds an intent under `id` that has left Pending:
/// its order is not placed again.
pub open spec fn already_ran(journal: IntentJournal, id: Uuid) -> bool {
    journal.lookup(id) matches Some(i) && i.status != IntentStatus::Pending
}

/// An entry runs once: once its intent is completed, filled or failed, the
/// same signal is answered `AlreadyProcessed` by `check_entry` and
/// `begin_entry_order` and no order is placed for it again.
pub proof fn lemma_completed_entry_runs_once(journal: IntentJournal, signal_id: Uuid)
    requires
        journal.lookup(signal_id) matches Some(n) && n.status == IntentStatus::Completed,
    ensures
        already_ran(journal, signal_id),
{
}

/// The event and result of an entry refused by the settings check, before
/// any placement; the refusal is recoverable.
pub fn reject_entry(
    position_id: PositionId,
    cycle_id: Uuid,
    order_id: OrderId,
    client_order_id: String,
    signal_id: Uuid,
    error: &ExecError,
    timestamp: Timestamp,
) -> (r: ActionResult)
    ensures
        r matches ActionResult::EntryExecutionRejected { event, error: msg } && msg@
            == error.spec_text() && (event matches Event::EntryExecutionRejected {
            position_id: p,
            cycle_id: c,
            order_id: o,
            client_order_id: co,
            signal_id: s,
            reason,
            recoverable,
            timestamp: t,
        } && p == position_id && c == cycle_id && o == order_id && co == client_order_id && s
            == signal_id && reason@ == error.spec_text() && recoverable && t == timestamp),
{
    let event = Event::EntryExecutionRejected {
        position_id,
        cycle_id,
        order_id,
        client_order_id,
        signal_id,
        reason: error.display(),
        recoverable: true,
        timestamp,
    };
    ActionResult::EntryExecutionRejected { event, error: error.display() }
}

/// A market order to hand to the exchange.
#[derive(Debug)]
pub struct OrderRequest {
    /// Pair
    pub symbol: Symbol,
    /// Side
    pub side: OrderSide,
    /// Quantity
    pub quantity: Quantity,
    /// Client order ID, for idempotency on the exchange
    pub client_order_id: String,
    /// Whether the order may only reduce the position (exits)
    pub reduce_only: bool,
}

/// The second step of the entry flow.
#[derive(Debug)]
pub enum EntryStart {
    /// The intent was recorded before and already ran: this is the result
    Done(ActionResult),
    /// Place this order
    Place(OrderRequest),
}

/// Entry, step two (after the settings check passed): record the intent and
/// mark it executing, then place the order under the signal's client order
/// ID; the order is not reduce-only. An intent recorded before that already
/// ran is not placed again.
pub fn begin_entry_order(
    journal: &mut IntentJournal,
    signal_id: Uuid,
    position_id: PositionId,
    symbol: Symbol,
    side: OrderSide,
    quantity: Quantity,
    client_order_id: String,
) -> (r: EntryStart)
    requires
        old(journal).wf(),
    ensures
        final(journal).wf(),
        already_ran(*old(journal), signal_id) ==> r
            == EntryStart::Done(ActionResult::AlreadyProcessed(signal_id)) && final(journal).entries()
            == old(journal).entries(),
        !already_ran(*old(journal), signal_id) ==> r
            == EntryStart::Place(
            OrderRequest { symbol, side, quantity, client_order_id, reduce_only: false },
        ),
        old(journal).lookup(signal_id) matches Some(i) ==> (i.status == IntentStatus::Pending ==> (
            final(journal).lookup(signal_id) == Some(Intent { status: IntentStatus::Executing, ..i }))),
        old(journal).lookup(signal_id) is None ==> (final(journal).lookup(signal_id) matches Some(n)
            && n.id == signal_id && n.position_id == position_id && n.action == (
        IntentAction::PlaceEntryOrder { symbol, side, quantity }) && n.status
            == IntentStatus::Executing && n.result is None),
        forall|k: Uuid|
            #![trigger final(journal).lookup(k)]
            k != signal_id ==> final(journal).lookup(k) == old(journal).lookup(k),
{
    let intent = Intent::new(
        signal_id,
        position_id,
        IntentAction::PlaceEntryOrder { symbol: symbol.clone(), side, quantity },
    );
    match journal.record(intent) {
        Err(ExecError::AlreadyProcessed(id)) => {
            match journal.is_processed(id) {
                Ok(true) => {
                    return EntryStart::Done(ActionResult::AlreadyProcessed(id));
                },
                _ => {},
            }
        },
        _ => {},
    }
    // The intent is recorded at this point, so marking it cannot fail.
    let _ = journal.mark_executing(signal_id);
    EntryStart::Place(OrderRequest { symbol, side, quantity, client_order_id, reduce_only: false })
}

/// Entry, last step for a filled order: complete the intent with the fill
/// and produce `EntryOrderAccepted`.
pub fn finish_entry_order(
    journal: &mut IntentJournal,
    position_id: PositionId,
    cycle_id: Uuid,
    order_id: OrderId,
    client_order_id: String,
    expected_price: Price,
    quantity: Quantity,
    signal_id: Uuid,
    order: OrderResult,
    timestamp: Timestamp,
) -> (r: Result<ActionResult, ExecError>)
    requires
        old(journal).wf(),
    ensures
        final(journal).wf(),
        old(journal).lookup(signal_id) is None ==> (r matches Err(ExecError::IntentJournal(m)) && m@
            == "Intent not found: "@ + uuid_text_spec(signal_id)) && final(journal).entries() == old(
            journal,
        ).entries(),
        old(journal).lookup(signal_id) matches Some(i) ==> (final(journal).lookup(signal_id) matches Some(
            n,
        ) && n.status == IntentStatus::Completed && n.id == i.id && n.action == i.action && n.result
            == Some(IntentResult::Success(order))) && (forall|k: Uuid|
            #![trigger final(journal).lookup(k)]
            k != signal_id ==> final(journal).lookup(k) == old(journal).lookup(k)) && r
            == Ok::<ActionResult, ExecError>(
            ActionResult::OrderPlaced {
                order,
                event: Some(
                    Event::EntryOrderAccepted {
                        position_id,
                        cycle_id,
                        order_id,
                        client_order_id,
                        exchange_order_id: order.exchange_order_id,
                        expected_price,
                        quantity,
                        signal_id,
                        timestamp,
                    },
                ),
            },
        ),
{
    match journal.complete(signal_id, IntentResult::Success(order.clone())) {
        Err(err) => {
            return Err(err);
        },
        Ok(()) => {},
    }
    let event = Event::EntryOrderAccepted {
        position_id,
        cycle_id,
        order_id,
        client_order_id,
        exchange_order_id: order.exchange_order_id.clone(),
        expected_price,
        quantity,
        signal_id,
        timestamp,
    };
    Ok(ActionResult::OrderPlaced { order, event: Some(event) })
}

/// The event of an entry order the exchange failed; it is stored before the
/// intent is completed.
pub fn entry_failure_event(
    position_id: PositionId,
    cycle_id: Uuid,
    order_id: OrderId,
    client_order_id: String,
    signal_id: Uuid,
    error: &ExecError,
    timestamp: Timestamp,
) -> (r: Event)
    ensures
        r matches Event::EntryOrderFailed {
            position_id: p,
            cycle_id: c,
            order_id: od,
            client_order_id: co,
            signal_id: s,
            reason,
            timestamp: t,
        } && p == position_id && c == cycle_id && od == order_id && co == client_order_id && s
            == signal_id && reason@ == error.spec_text() && t == timestamp,
{
    Event::EntryOrderFailed {
        position_id,
        cycle_id,
        order_id,
        client_order_id,
        signal_id,
        reason: error.display(),
        timestamp,
    }
}

/// Entry, last step for a failed order, once its `EntryOrderFailed` event
/// was stored (or not): a storage error is returned and the intent stays as
/// it is; otherwise the intent is completed as failed and the result is
/// `OrderFailed` with the event.
pub fn complete_failed_entry(
    journal: &mut IntentJournal,
    signal_id: Uuid,
    event: Event,
    error: &ExecError,
    stored: Result<(), ExecError>,
) -> (r: Result<ActionResult, ExecError>)
    requires
        old(journal).wf(),
    ensures
        final(journal).wf(),
        stored matches Err(e) ==> r == Err::<ActionResult, ExecError>(e) && *final(journal) == *old(
            journal,
        ),
        stored is Ok && old(journal).lookup(signal_id) is None ==> (r matches Err(
            ExecError::IntentJournal(m),
        ) && m@ == "Intent not found: "@ + uuid_text_spec(signal_id)) && final(journal).entries()
            == old(journal).entries(),
        stored is Ok ==> (old(journal).lookup(signal_id) matches Some(i) ==> (final(journal).lookup(
            signal_id,
        ) matches Some(n) && n.status == IntentStatus::Completed && n.id == i.id && n.action
            == i.action && (n.result matches Some(IntentResult::Failed(m)) && m@ == error.spec_text()))
            && (forall|k: Uuid|
            #![trigger final(journal).lookup(k)]
            k != signal_id ==> final(journal).lookup(k) == old(journal).lookup(k)) && (r matches Ok(
            ActionResult::OrderFailed { event: ev, error: msg },
        ) && ev == event && msg@ == error.spec_text())),
{
    match stored {
        Err(e) => {
            return Err(e);
        },
        Ok(()) => {},
    }
    match journal.complete(signal_id, IntentResult::Failed(error.display())) {
        Err(err) => {
            return Err(err);
        },
        Ok(()) => {},
    }
    Ok(ActionResult::OrderFailed { event, error: error.display() })
}

/// Exit, first step, after the settings check (which is checked even for
/// exits): a failed check is returned and nothing is recorded. Otherwise the
/// intent is recorded under its fresh ID and marked executing, and the order
/// is placed reduce-only with the intent ID as client order ID; an ID
/// already recorded is refused.
pub fn begin_exit_order(
    journal: &mut IntentJournal,
    intent_id: Uuid,
    position_id: PositionId,
    symbol: Symbol,
    side: OrderSide,
    quantity: Quantity,
    reason: ExitReason,
    settings: Result<(), ExecError>,
) -> (r: Result<OrderRequest, ExecError>)
    requires
        old(journal).wf(),
    ensures
        final(journal).wf(),
        settings matches Err(e) ==> r == Err::<OrderRequest, ExecError>(e) && *final(journal) == *old(
            journal,
        ),
        settings is Ok && old(journal).lookup(intent_id) is Some ==> r == Err::<OrderRequest, ExecError>(
            ExecError::AlreadyProcessed(intent_id),
        ) && final(journal).entries() == old(journal).entries(),
        settings is Ok && old(journal).lookup(intent_id) is None ==> (r matches Ok(o) && o.symbol
            == symbol && o.side == side && o.quantity == quantity && o.client_order_id@
            == uuid_text_spec(intent_id) && o.reduce_only) && (final(journal).lookup(intent_id) matches Some(n)
            && n.id == intent_id && n.position_id == position_id && n.action == (
        IntentAction::PlaceExitOrder { symbol, side, quantity, reason }) && n.status
            == IntentStatus::Executing && n.result is None),
        forall|k: Uuid|
            #![trigger final(journal).lookup(k)]
            k != intent_id ==> final(journal).lookup(k) == old(journal).lookup(k),
{
    match settings {
        Err(e) => {
            return Err(e);
        },
        Ok(()) => {},
    }
    let intent = Intent::new(
        intent_id,
        position_id,
        IntentAction::PlaceExitOrder { symbol: symbol.clone(), side, quantity, reason },
    );
    match journal.record(intent) {
        Err(err) => {
            return Err(err);
        },
        Ok(()) => {},
    }
    // The intent is recorded at this point, so marking it cannot fail.
    let _ = journal.mark_executing(intent_id);
    Ok(OrderRequest { symbol, side, quantity, client_order_id: uuid_text(intent_id), reduce_only: true })
}

/// Exit, last step: complete the intent with the exchange outcome. A filled
/// order gives `ExitOrderPlaced` (its order ID is the intent ID, its
/// expected price the fill price); a failure is returned as the error.
pub fn finish_exit_order(
    journal: &mut IntentJournal,
    intent_id: Uuid,
    position_id: PositionId,
    cycle_id: Option<Uuid>,
    quantity: Quantity,
    reason: ExitReason,
    outcome: Result<OrderResult, ExecError>,
    timestamp: Timestamp,
) -> (r: Result<ActionResult, ExecError>)
    requires
        old(journal).wf(),
    ensures
        final(journal).wf(),
        old(journal).lookup(intent_id) is None ==> (r matches Err(ExecError::IntentJournal(m)) && m@
            == "Intent not found: "@ + uuid_text_spec(intent_id)) && final(journal).entries() == old(
            journal,
        ).entries(),
        old(journal).lookup(intent_id) matches Some(i) ==> (final(journal).lookup(intent_id) matches Some(
            n,
        ) && n.status == IntentStatus::Completed && n.id == i.id && n.action == i.action && match outcome {
            Ok(o) => n.result == Some(IntentResult::Success(o)),
            Err(e) => n.result matches Some(IntentResult::Failed(m)) && m@ == e.spec_text(),
        }) && (forall|k: Uuid|
            #![trigger final(journal).lookup(k)]
            k != intent_id ==> final(journal).lookup(k) == old(journal).lookup(k)) && match outcome {
            Ok(o) => r == Ok::<ActionResult, ExecError>(
                ActionResult::OrderPlaced {
                    order: o,
                    event: Some(
                        Event::ExitOrderPlaced {
                            position_id,
                            cycle_id,
                            order_id: intent_id,
                            expected_price: o.fill_price,
                            quantity,
                            exit_reason: reason,
                            timestamp,
                        },
                    ),
                },
            ),
            Err(e) => r == Err::<ActionResult, ExecError>(e),
        },
{
    match outcome {
        Ok(order) => {
            match journal.complete(intent_id, IntentResult::Success(order.clone())) {
                Err(err) => {
                    return Err(err);
                },
                Ok(()) => {},
            }
            let event = Event::ExitOrderPlaced {
                position_id,
                cycle_id,
                order_id: intent_id,
                expected_price: order.fill_price,
                quantity,
                exit_reason: reason,
                timestamp,
            };
            Ok(ActionResult::OrderPlaced { order, event: Some(event) })
        },
        Err(e) => {
            match journal.complete(intent_id, IntentResult::Failed(e.display())) {
                Err(err) => {
                    return Err(err);
                },
                Ok(()) => {},
            }
            Err(e)
        },
    }
}

/// What happens to an emitted event after it was appended to the event log
/// (the log is written first: it is the source of truth): an append error is
/// returned and the event is not applied; otherwise it is applied next.
pub fn after_append(event: Event, appended: Result<(), ExecError>) -> (r: Result<Event, ExecError>)
    ensures
        r == match appended {
            Ok(()) => Ok::<Event, ExecError>(event),
            Err(e) => Err::<Event, ExecError>(e),
        },
{
    match appended {
        Ok(()) => Ok(event),
        Err(e) => Err(e),
    }
}

/// The result of an emitted event once it was applied to the projection:
/// `EventEmitted`, or the error of applying it.
pub fn after_apply(event: Event, applied: Result<(), ExecError>) -> (r: Result<ActionResult, ExecError>)
    ensures
        r == match applied {
            Ok(()) => Ok::<ActionResult, ExecError>(ActionResult::EventEmitted(event)),
            Err(e) => Err::<ActionResult, ExecError>(e),
        },
{
    match applied {
        Ok(()) => Ok(ActionResult::EventEmitted(event)),
        Err(e) => Err(e),
    }
}

} // verus!
