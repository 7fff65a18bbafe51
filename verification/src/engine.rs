//! The decision engine: pure, deterministic decisions for entering a
//! position, activating it on fill, and trailing or exiting it on each tick.
//! It performs no I/O; the execution layer carries out its actions.

use vstd::prelude::*;

use crate::decimal::{addable, decimal_add, decimal_sub, view_units, view_wf, Dec};
use crate::entities::{
    calculate_position_size, spec_position_size, tech_stop_valid, DetectorSignal, ExitReason,
    Position, PositionId, PositionState,
};
use crate::events::Event;
use crate::ids::{new_uuid_v7, now_millis, Timestamp, Uuid};
use crate::text::{join2, owned};
use crate::trailing::{more_favorable, stop_hit};
use crate::value_objects::{
    DomainError, OrderSide, Price, Quantity, RiskConfig, Side,
    Symbol, TechnicalStopDistance,
};

verus! {

/// Errors that can occur during engine processing.
#[derive(Debug, Clone, PartialEq)]
pub enum EngineError {
    /// Position is not in the expected state for the operation
    InvalidPositionState {
        /// Expected state name
        expected: String,
        /// Actual state name
        actual: String,
    },
    /// Missing required data
    MissingData(String),
    /// Invalid market data
    InvalidMarketData(String),
    /// Domain error passthrough
    DomainError(DomainError),
}

impl EngineError {
    /// The error message.
    pub open spec fn spec_text(&self) -> Seq<char> {
        match self {
            EngineError::InvalidPositionState { expected, actual } => "Invalid position state: expected "@
                + expected@ + ", got "@ + actual@,
            EngineError::MissingData(m) => "Missing required data: "@ + m@,
            EngineError::InvalidMarketData(m) => "Invalid market data: "@ + m@,
            EngineError::DomainError(e) => "Domain error: "@ + e.spec_text(),
        }
    }

    /// The error message.
    pub fn display(&self) -> (r: String)
        ensures
            r@ == self.spec_text(),
    {
        match self {
            EngineError::InvalidPositionState { expected, actual } => {
                let mut r = join2("Invalid position state: expected ", expected.as_str());
                r.append(", got ");
                r.append(actual.as_str());
                r
            },
            EngineError::MissingData(m) => join2("Missing required data: ", m.as_str()),
            EngineError::InvalidMarketData(m) => join2("Invalid market data: ", m.as_str()),
            EngineError::DomainError(e) => {
                let t = e.display();
                join2("Domain error: ", t.as_str())
            },
        }
    }
}

/// Real-time market data for a symbol.
#[derive(Debug, Clone)]
pub struct MarketData {
    /// Trading pair symbol
    pub symbol: Symbol,
    /// Current market price
    pub current_price: Price,
    /// When this data was captured
    pub timestamp: Timestamp,
}

impl MarketData {
    /// Market data stamped now.
    pub fn new(symbol: Symbol, current_price: Price) -> (r: MarketData)
        ensures
            r.symbol == symbol,
            r.current_price == current_price,
    {
        MarketData { symbol, current_price, timestamp: now_millis() }
    }

    /// Market data with an explicit timestamp.
    pub fn with_timestamp(symbol: Symbol, current_price: Price, timestamp: Timestamp) -> (r:
        MarketData)
        ensures
            r.symbol == symbol,
            r.current_price == current_price,
            r.timestamp == timestamp,
    {
        MarketData { symbol, current_price, timestamp }
    }
}

/// Actions the engine decides should be executed (pure data).
#[derive(Debug, Clone, PartialEq)]
pub enum EngineAction {
    /// Place the entry order (market order opening the position)
    PlaceEntryOrder {
        /// Position entering
        position_id: PositionId,
        /// Symbol to trade
        symbol: Symbol,
        /// Order side (Long → Buy, Short → Sell)
        side: OrderSide,
        /// Quantity from position sizing
        quantity: Quantity,
        /// Signal ID for idempotency tracking
        signal_id: Uuid,
    },
    /// Update the trailing stop (favorable price movement)
    UpdateTrailingStop {
        /// Position to update
        position_id: PositionId,
        /// Previous stop price
        previous_stop: Price,
        /// New stop price
        new_stop: Price,
        /// Price that triggered the update
        trigger_price: Price,
    },
    /// Trigger position exit (trailing stop hit)
    TriggerExit {
        /// Position to exit
        position_id: PositionId,
        /// Reason for exit
        reason: ExitReason,
        /// Price that triggered the exit
        trigger_price: Price,
        /// Stop price that was hit
        stop_price: Price,
    },
    /// Place the exit order (market order closing the position)
    PlaceExitOrder {
        /// Position being exited
        position_id: PositionId,
        /// Symbol to trade
        symbol: Symbol,
        /// Order side (opposite of the position side)
        side: OrderSide,
        /// Quantity to exit
        quantity: Quantity,
        /// Reason for exit
        reason: ExitReason,
    },
    /// Emit a domain event for audit and persistence
    EmitEvent(Event),
}

/// Result of engine processing: actions in order, and the updated position
/// if it changed.
#[derive(Debug, Clone)]
pub struct EngineDecision {
    /// Actions to execute (in order)
    pub actions: Vec<EngineAction>,
    /// Updated position (if changed)
    pub updated_position: Option<Position>,
}

impl EngineDecision {
    /// No actions, no change.
    pub fn no_action() -> (r: EngineDecision)
        ensures
            r.actions@.len() == 0,
            r.updated_position is None,
    {
        EngineDecision { actions: Vec::new(), updated_position: None }
    }

    /// The given actions, no position change.
    pub fn with_actions(actions: Vec<EngineAction>) -> (r: EngineDecision)
        ensures
            r.actions@ == actions@,
            r.updated_position is None,
    {
        EngineDecision { actions, updated_position: None }
    }

    /// The given actions and updated position.
    pub fn with_position(actions: Vec<EngineAction>, position: Position) -> (r: EngineDecision)
        ensures
            r.actions@ == actions@,
            r.updated_position == Some(position),
    {
        EngineDecision { actions, updated_position: Some(position) }
    }

    /// Whether any action was decided.
    pub fn has_actions(&self) -> (r: bool)
        ensures
            r == (self.actions@.len() > 0),
    {
        self.actions.len() > 0
    }
}

/// Whether a signal belongs to the position: same position id, same
/// currencies, same side.
pub open spec fn signal_matches(signal: DetectorSignal, position: Position) -> bool {
    &&& signal.position_id == position.id
    &&& signal.symbol.base@ == position.symbol.base@
    &&& signal.symbol.quote@ == position.symbol.quote@
    &&& signal.side == position.side
}

/// Whether two symbols name the same currencies.
pub open spec fn same_symbol(a: Symbol, b: Symbol) -> bool {
    a.base@ == b.base@ && a.quote@ == b.quote@
}

/// The price whose decimal has the view `v`.
pub open spec fn price_of(v: (int, int)) -> Price {
    Price(Dec { mantissa: v.0 as i128, scale: v.1 as u32 })
}

/// The stop anchored at `price`: `price - distance` (Long) or
/// `price + distance` (Short), never past the initial technical stop.
pub open spec fn anchored_stop(side: Side, price: Price, t: TechnicalStopDistance) -> (int, int) {
    match side {
        Side::Long => {
            let c = decimal_sub(price.0@, t.distance@).unwrap();
            if view_units(c) > t.initial_stop.units() {
                c
            } else {
                t.initial_stop.0@
            }
        },
        Side::Short => {
            let c = decimal_add(price.0@, t.distance@).unwrap();
            if t.initial_stop.units() < view_units(c) {
                t.initial_stop.0@
            } else {
                c
            }
        },
    }
}

/// Whether the price makes a new favorable extreme: above it for a Long,
/// below it for a Short.
pub open spec fn new_extreme(side: Side, price: Price, extreme: Price) -> bool {
    match side {
        Side::Long => price.units() > extreme.units(),
        Side::Short => price.units() < extreme.units(),
    }
}

/// The stop a tick moves to, if any: on a new favorable extreme, the anchored
/// stop, when it is strictly more favorable than the current stop and was not
/// the last one emitted.
pub open spec fn tick_update(
    side: Side,
    price: Price,
    trailing_stop: Price,
    extreme: Price,
    t: TechnicalStopDistance,
    last_emitted: Option<Price>,
) -> Option<(int, int)> {
    let c = anchored_stop(side, price, t);
    if new_extreme(side, price, extreme) && more_favorable(side, view_units(c), trailing_stop.units())
        && !(last_emitted matches Some(p) && p.units() == view_units(c)) {
        Some(c)
    } else {
        None
    }
}

/// What `process_active_position` decides for an Active position on a tick
/// at `price`: exit when the stop is hit (checked first), else move the stop
/// when `tick_update` gives one, else nothing.
pub open spec fn active_decision(position: Position, price: Price, d: EngineDecision) -> bool {
    match position.state {
        PositionState::Active {
            current_price,
            trailing_stop,
            favorable_extreme,
            extreme_at,
            insurance_stop_id,
            last_emitted_stop,
        } => {
            let t = position.tech_stop_distance.unwrap();
            if stop_hit(position.side, price.units(), trailing_stop.units()) {
                &&& d.updated_position is None
                &&& d.actions@.len() == 3
                &&& d.actions@[0] == EngineAction::TriggerExit {
                    position_id: position.id,
                    reason: ExitReason::TrailingStop,
                    trigger_price: price,
                    stop_price: trailing_stop,
                }
                &&& d.actions@[1] == EngineAction::PlaceExitOrder {
                    position_id: position.id,
                    symbol: position.symbol,
                    side: position.side.spec_exit_action(),
                    quantity: position.quantity,
                    reason: ExitReason::TrailingStop,
                }
                &&& (d.actions@[2] matches EngineAction::EmitEvent(
                    Event::ExitTriggered { position_id, reason, trigger_price, stop_price, .. },
                ) && position_id == position.id && reason == ExitReason::TrailingStop
                    && trigger_price == price && stop_price == trailing_stop)
            } else if let Some(v) = tick_update(
                position.side,
                price,
                trailing_stop,
                favorable_extreme,
                t,
                last_emitted_stop,
            ) {
                &&& view_wf(v)
                &&& d.actions@.len() == 2
                &&& d.actions@[0] == EngineAction::UpdateTrailingStop {
                    position_id: position.id,
                    previous_stop: trailing_stop,
                    new_stop: price_of(v),
                    trigger_price: price,
                }
                &&& (d.actions@[1] matches EngineAction::EmitEvent(
                    Event::TrailingStopUpdated {
                        position_id,
                        previous_stop,
                        new_stop,
                        trigger_price,
                        ..
                    },
                ) && position_id == position.id && previous_stop == trailing_stop && new_stop
                    == price_of(v) && trigger_price == price)
                &&& (d.updated_position matches Some(p) && p == (Position {
                    state: PositionState::Active {
                        current_price: price,
                        trailing_stop: price_of(v),
                        favorable_extreme: price,
                        extreme_at: p.updated_at,
                        insurance_stop_id,
                        last_emitted_stop: Some(price_of(v)),
                    },
                    updated_at: p.updated_at,
                    ..position
                }))
            } else {
                d.actions@.len() == 0 && d.updated_position is None
            }
        },
        _ => false,
    }
}

/// Processing the same tick again after a stop update decides nothing: the
/// updated position holds the new stop and the tick's price as its extreme,
/// so the same price makes no new extreme and, when it does not reach the
/// new stop, does not exit either.
pub proof fn lemma_stop_update_is_idempotent(
    position: Position,
    price: Price,
    first: EngineDecision,
    again: EngineDecision,
)
    requires
        active_decision(position, price, first),
        first.updated_position is Some,
        !stop_hit(position.side, price.units(), first.updated_position->0.state->trailing_stop.units()),
        active_decision(first.updated_position->0, price, again),
    ensures
        again.actions@.len() == 0,
        again.updated_position is None,
{
}

/// A stop update only ever tightens the stop: the new stop is strictly above
/// the previous one for a Long and strictly below it for a Short, and it is
/// never past the initial technical stop.
pub proof fn lemma_stop_only_tightens(position: Position, price: Price, d: EngineDecision)
    requires
        active_decision(position, price, d),
        d.updated_position is Some,
    ensures
        d.actions@[0] matches EngineAction::UpdateTrailingStop { previous_stop, new_stop, .. }
            && more_favorable(position.side, new_stop.units(), previous_stop.units()) && match position.side {
            Side::Long => new_stop.units() >= position.tech_stop_distance->0.initial_stop.units(),
            Side::Short => new_stop.units() <= position.tech_stop_distance->0.initial_stop.units(),
        },
{
}

/// An exit takes priority: whenever the price has reached the stop, the
/// decision is the exit, whatever else the tick would allow.
pub proof fn lemma_exit_takes_priority(position: Position, price: Price, d: EngineDecision)
    requires
        active_decision(position, price, d),
        stop_hit(position.side, price.units(), position.state->trailing_stop.units()),
    ensures
        d.actions@.len() == 3,
        d.actions@[0] is TriggerExit,
        d.actions@[1] is PlaceExitOrder,
        d.updated_position is None,
{
}

/// The numbers the engine computes with on an Active position are in range.
pub open spec fn active_inputs_ok(position: Position, price: Price) -> bool {
    &&& price.wf()
    &&& match position.state {
        PositionState::Active { trailing_stop, favorable_extreme, last_emitted_stop, .. } => {
            &&& trailing_stop.wf()
            &&& favorable_extreme.wf()
            &&& (last_emitted_stop matches Some(p) ==> p.wf())
        },
        _ => true,
    }
    &&& match position.tech_stop_distance {
        Some(t) => t.wf() && addable(price.0, t.distance),
        None => true,
    }
}

/// The pure decision engine, holding the risk configuration.
#[derive(Debug, Clone)]
pub struct Engine {
    /// Risk configuration
    pub risk_config: RiskConfig,
}

impl Engine {
    /// An engine with the given risk configuration.
    pub fn new(risk_config: RiskConfig) -> (r: Engine)
        ensures
            r.risk_config == risk_config,
    {
        Engine { risk_config }
    }

    /// The risk configuration.
    pub fn risk_config(&self) -> (r: &RiskConfig)
        ensures
            *r == self.risk_config,
    {
        &self.risk_config
    }

    /// Decide entry for an Armed position on a detector signal: check that
    /// the signal belongs to the position, build the technical stop from the
    /// signal and hold it to policy, size the position (Golden Rule), and
    /// move the position to Entering with an entry event and an entry order.
    pub fn decide_entry(&self, position: &Position, signal: &DetectorSignal) -> (r: Result<
        EngineDecision,
        EngineError,
    >)
        requires
            self.risk_config.wf(),
            crate::value_objects::risk_amount_in_range(self.risk_config),
            crate::value_objects::stop_pair_in_range(signal.entry_price, signal.stop_loss),
        ensures
            !(position.state is Armed) ==> (r matches Err(
                EngineError::InvalidPositionState { expected, actual },
            ) && expected@ == "armed"@ && actual@ == position.state.spec_name()),
            position.state is Armed && !signal_matches(*signal, *position) ==> (r matches Err(
                EngineError::DomainError(e),
            ) && e is InvalidSignal),
            position.state is Armed && signal_matches(*signal, *position) ==> forall|
                t: TechnicalStopDistance,
            |
                #![trigger t.spec_from(signal.entry_price, signal.stop_loss)]
                t.spec_from(signal.entry_price, signal.stop_loss) ==> {
                    &&& (r is Ok <==> (tech_stop_valid(t) && (spec_position_size(
                        self.risk_config,
                        t,
                    ) matches Some(v) && view_units(v) > 0)))
                    &&& (!tech_stop_valid(t) ==> (r matches Err(EngineError::DomainError(e))
                        && e is InvalidTechnicalStopDistance))
                    &&& (tech_stop_valid(t) && r is Err ==> (r matches Err(
                        EngineError::DomainError(e),
                    ) && e is PositionSizingError))
                    &&& (r matches Ok(d) ==> entry_decision(self.risk_config, *position, *signal, t, d))
                },
    {
        match position.state {
            PositionState::Armed => {},
            _ => {
                return Err(
                    EngineError::InvalidPositionState {
                        expected: owned("armed"),
                        actual: owned(position.state.name()),
                    },
                );
            },
        }
        match signal.validate_for_position(position) {
            Ok(()) => {},
            Err(e) => return Err(EngineError::DomainError(e)),
        }
        let tech_stop = signal.tech_stop_distance();
        let quantity = match calculate_position_size(&self.risk_config, &tech_stop) {
            Ok(q) => q,
            Err(e) => return Err(EngineError::DomainError(e)),
        };
        let now = now_millis();
        let mut updated_position = position.clone();
        updated_position.state =
            PositionState::Entering {
                entry_order_id: new_uuid_v7(),
                expected_entry: signal.entry_price,
                signal_id: signal.signal_id,
            };
        updated_position.entry_price = Some(signal.entry_price);
        updated_position.tech_stop_distance = Some(tech_stop);
        updated_position.quantity = quantity;
        updated_position.updated_at = now;
        let mut actions: Vec<EngineAction> = Vec::new();
        actions.push(
            EngineAction::EmitEvent(
                Event::EntrySignalReceived {
                    position_id: position.id,
                    signal_id: signal.signal_id,
                    entry_price: signal.entry_price,
                    stop_loss: signal.stop_loss,
                    quantity,
                    timestamp: now_millis(),
                },
            ),
        );
        actions.push(
            EngineAction::PlaceEntryOrder {
                position_id: position.id,
                symbol: position.symbol.clone(),
                side: position.side.entry_action(),
                quantity,
                signal_id: signal.signal_id,
            },
        );
        proof {
            assert forall|t: TechnicalStopDistance|
                #![trigger t.spec_from(signal.entry_price, signal.stop_loss)]
                t.spec_from(signal.entry_price, signal.stop_loss) implies t == tech_stop by {
                assert(t.distance@ == tech_stop.distance@);
                assert(t.distance_pct@ == tech_stop.distance_pct@);
            }
        }
        Ok(EngineDecision::with_position(actions, updated_position))
    }

    /// Activate an Entering position on its entry fill: the stop starts at
    /// the fill anchored by the technical distance, the extreme at the fill,
    /// and an entry-filled event is emitted.
    pub fn process_entry_fill(&self, position: &Position, fill_price: Price, filled_quantity: Quantity) -> (r:
        Result<EngineDecision, EngineError>)
        requires
            fill_price.wf(),
            position.tech_stop_distance matches Some(t) ==> t.wf() && addable(
                fill_price.0,
                t.distance,
            ),
        ensures
            !(position.state is Entering) ==> (r matches Err(
                EngineError::InvalidPositionState { expected, actual },
            ) && expected@ == "entering"@ && actual@ == position.state.spec_name()),
            position.state is Entering && position.tech_stop_distance is None ==> (r matches Err(
                EngineError::MissingData(m),
            ) && m@ == "Position missing tech_stop_distance"@),
            r is Ok <==> position.state is Entering && position.tech_stop_distance is Some,
            r matches Ok(d) ==> fill_decision(*position, fill_price, filled_quantity, d),
    {
        let entry_order_id = match &position.state {
            PositionState::Entering { entry_order_id, .. } => *entry_order_id,
            _ => {
                return Err(
                    EngineError::InvalidPositionState {
                        expected: owned("entering"),
                        actual: owned(position.state.name()),
                    },
                );
            },
        };
        let tech_stop = match position.tech_stop_distance {
            Some(t) => t,
            None => {
                return Err(EngineError::MissingData(owned("Position missing tech_stop_distance")));
            },
        };
        let initial_trailing_stop = match position.side {
            Side::Long => tech_stop.calculate_trailing_stop_long(fill_price.as_decimal()),
            Side::Short => tech_stop.calculate_trailing_stop_short(fill_price.as_decimal()),
        };
        let now = now_millis();
        let mut updated_position = position.clone();
        updated_position.state =
            PositionState::Active {
                current_price: fill_price,
                trailing_stop: initial_trailing_stop,
                favorable_extreme: fill_price,
                extreme_at: now,
                insurance_stop_id: None,
                last_emitted_stop: None,
            };
        updated_position.entry_price = Some(fill_price);
        updated_position.quantity = filled_quantity;
        updated_position.entry_filled_at = Some(now);
        updated_position.updated_at = now;
        let mut actions: Vec<EngineAction> = Vec::new();
        actions.push(
            EngineAction::EmitEvent(
                Event::EntryFilled {
                    position_id: position.id,
                    order_id: entry_order_id,
                    fill_price,
                    filled_quantity,
                    fee: Dec::zero(),
                    initial_stop: initial_trailing_stop,
                    binance_position_id: None,
                    timestamp: now,
                },
            ),
        );
        Ok(EngineDecision::with_position(actions, updated_position))
    }

    /// Process an Active position on a market tick. An exit is checked first
    /// and takes priority; otherwise the stop moves when the price makes a
    /// new favorable extreme whose anchored stop is strictly more favorable
    /// and was not already emitted; otherwise nothing happens.
    pub fn process_active_position(&self, position: &Position, market_data: &MarketData) -> (r:
        Result<EngineDecision, EngineError>)
        requires
            active_inputs_ok(*position, market_data.current_price),
        ensures
            !(position.state is Active) ==> (r matches Err(
                EngineError::InvalidPositionState { expected, actual },
            ) && expected@ == "active"@ && actual@ == position.state.spec_name()),
            position.state is Active && !same_symbol(position.symbol, market_data.symbol) ==> (
            r matches Err(EngineError::InvalidMarketData(m)) && m@ == "Symbol mismatch: position="@
                + position.symbol.pair() + ", market="@ + market_data.symbol.pair()),
            position.state is Active && same_symbol(position.symbol, market_data.symbol)
                && position.tech_stop_distance is None ==> (r matches Err(
                EngineError::MissingData(m),
            ) && m@ == "Position missing tech_stop_distance"@),
            r is Ok <==> position.state is Active && same_symbol(
                position.symbol,
                market_data.symbol,
            ) && position.tech_stop_distance is Some,
            r matches Ok(d) ==> active_decision(*position, market_data.current_price, d),
    {
        let (trailing_stop, favorable_extreme, last_emitted_stop) = match &position.state {
            PositionState::Active { trailing_stop, favorable_extreme, last_emitted_stop, .. } => (
                *trailing_stop,
                *favorable_extreme,
                *last_emitted_stop,
            ),
            _ => {
                return Err(
                    EngineError::InvalidPositionState {
                        expected: owned("active"),
                        actual: owned(position.state.name()),
                    },
                );
            },
        };
        if !position.symbol.same_as(&market_data.symbol) {
            let mut m = owned("Symbol mismatch: position=");
            m.append(position.symbol.as_pair().as_str());
            m.append(", market=");
            m.append(market_data.symbol.as_pair().as_str());
            return Err(EngineError::InvalidMarketData(m));
        }
        let tech_stop = match position.tech_stop_distance {
            Some(t) => t,
            None => {
                return Err(EngineError::MissingData(owned("Position missing tech_stop_distance")));
            },
        };
        let current_price = market_data.current_price;
        if self.should_exit(position.side, current_price, trailing_stop) {
            return Ok(self.create_exit_decision(position, current_price, trailing_stop));
        }
        if let Some(new_stop) = self.calculate_new_trailing_stop(
            position.side,
            current_price,
            favorable_extreme,
            &tech_stop,
        ) {
            if self.is_more_favorable_stop(position.side, new_stop, trailing_stop) {
                let already = match last_emitted_stop {
                    Some(p) => p.0.eq_value(new_stop.0),
                    None => false,
                };
                if !already {
                    return Ok(
                        self.create_update_stop_decision(
                            position,
                            trailing_stop,
                            new_stop,
                            current_price,
                        ),
                    );
                }
            }
        }
        Ok(EngineDecision::no_action())
    }

    /// Whether the stop is hit: price at or below it (Long), at or above it
    /// (Short).
    fn should_exit(&self, side: Side, current_price: Price, trailing_stop: Price) -> (r: bool)
        requires
            current_price.wf(),
            trailing_stop.wf(),
        ensures
            r == stop_hit(side, current_price.units(), trailing_stop.units()),
    {
        match side {
            Side::Long => current_price.as_decimal().le(trailing_stop.as_decimal()),
            Side::Short => current_price.as_decimal().ge(trailing_stop.as_decimal()),
        }
    }

    /// The anchored stop on a new favorable extreme, else `None`.
    fn calculate_new_trailing_stop(
        &self,
        side: Side,
        current_price: Price,
        favorable_extreme: Price,
        tech_stop: &TechnicalStopDistance,
    ) -> (r: Option<Price>)
        requires
            current_price.wf(),
            favorable_extreme.wf(),
            tech_stop.wf(),
            addable(current_price.0, tech_stop.distance),
        ensures
            r is Some <==> new_extreme(side, current_price, favorable_extreme),
            r matches Some(p) ==> p.wf() && p.0@ == anchored_stop(side, current_price, *tech_stop),
    {
        match side {
            Side::Long => {
                if current_price.as_decimal().gt(favorable_extreme.as_decimal()) {
                    Some(tech_stop.calculate_trailing_stop_long(current_price.as_decimal()))
                } else {
                    None
                }
            },
            Side::Short => {
                if current_price.as_decimal().lt(favorable_extreme.as_decimal()) {
                    Some(tech_stop.calculate_trailing_stop_short(current_price.as_decimal()))
                } else {
                    None
                }
            },
        }
    }

    /// Whether `new_stop` is strictly more favorable: higher (Long), lower
    /// (Short).
    fn is_more_favorable_stop(&self, side: Side, new_stop: Price, current_stop: Price) -> (r: bool)
        requires
            new_stop.wf(),
            current_stop.wf(),
        ensures
            r == more_favorable(side, new_stop.units(), current_stop.units()),
    {
        match side {
            Side::Long => new_stop.as_decimal().gt(current_stop.as_decimal()),
            Side::Short => new_stop.as_decimal().lt(current_stop.as_decimal()),
        }
    }

    /// Exit: trigger, exit order on the opposite side for the whole quantity,
    /// and the exit event.
    fn create_exit_decision(&self, position: &Position, trigger_price: Price, stop_price: Price) -> (r:
        EngineDecision)
        ensures
            r.updated_position is None,
            r.actions@.len() == 3,
            (r.actions@[0] == EngineAction::TriggerExit {
                position_id: position.id,
                reason: ExitReason::TrailingStop,
                trigger_price,
                stop_price,
            }),
            (r.actions@[1] == EngineAction::PlaceExitOrder {
                position_id: position.id,
                symbol: position.symbol,
                side: position.side.spec_exit_action(),
                quantity: position.quantity,
                reason: ExitReason::TrailingStop,
            }),
            (r.actions@[2] matches EngineAction::EmitEvent(
                Event::ExitTriggered { position_id, reason, trigger_price: tp, stop_price: sp, .. },
            ) && position_id == position.id && reason == ExitReason::TrailingStop && tp
                == trigger_price && sp == stop_price),
    {
        let reason = ExitReason::TrailingStop;
        let mut actions: Vec<EngineAction> = Vec::new();
        actions.push(
            EngineAction::TriggerExit { position_id: position.id, reason, trigger_price, stop_price },
        );
        actions.push(
            EngineAction::PlaceExitOrder {
                position_id: position.id,
                symbol: position.symbol.clone(),
                side: position.side.exit_action(),
                quantity: position.quantity,
                reason,
            },
        );
        actions.push(
            EngineAction::EmitEvent(
                Event::ExitTriggered {
                    position_id: position.id,
                    reason,
                    trigger_price,
                    stop_price,
                    timestamp: now_millis(),
                },
            ),
        );
        EngineDecision::with_actions(actions)
    }

    /// Stop update: record the new stop as the last emitted one, and emit the
    /// update action and event.
    fn create_update_stop_decision(
        &self,
        position: &Position,
        previous_stop: Price,
        new_stop: Price,
        trigger_price: Price,
    ) -> (r: EngineDecision)
        requires
            position.state is Active,
        ensures
            r.actions@.len() == 2,
            (r.actions@[0] == EngineAction::UpdateTrailingStop {
                position_id: position.id,
                previous_stop,
                new_stop,
                trigger_price,
            }),
            (r.actions@[1] matches EngineAction::EmitEvent(
                Event::TrailingStopUpdated {
                    position_id,
                    previous_stop: ps,
                    new_stop: ns,
                    trigger_price: tp,
                    ..
                },
            ) && position_id == position.id && ps == previous_stop && ns == new_stop && tp
                == trigger_price),
            (r.updated_position matches Some(p) && p == (Position {
                state: PositionState::Active {
                    current_price: trigger_price,
                    trailing_stop: new_stop,
                    favorable_extreme: trigger_price,
                    extreme_at: p.updated_at,
                    insurance_stop_id: position.state->Active_insurance_stop_id,
                    last_emitted_stop: Some(new_stop),
                },
                updated_at: p.updated_at,
                ..*position
            })),
    {
        let mut updated_position = position.clone();
        match &position.state {
            PositionState::Active { insurance_stop_id, .. } => {
                let now = now_millis();
                updated_position.state =
                    PositionState::Active {
                        current_price: trigger_price,
                        trailing_stop: new_stop,
                        favorable_extreme: trigger_price,
                        extreme_at: now,
                        insurance_stop_id: *insurance_stop_id,
                        last_emitted_stop: Some(new_stop),
                    };
                updated_position.updated_at = now;
            },
            _ => {},
        }
        let mut actions: Vec<EngineAction> = Vec::new();
        actions.push(
            EngineAction::UpdateTrailingStop {
                position_id: position.id,
                previous_stop,
                new_stop,
                trigger_price,
            },
        );
        actions.push(
            EngineAction::EmitEvent(
                Event::TrailingStopUpdated {
                    position_id: position.id,
                    previous_stop,
                    new_stop,
                    trigger_price,
                    timestamp: now_millis(),
                },
            ),
        );
        EngineDecision::with_position(actions, updated_position)
    }
}

/// What `process_entry_fill` builds: the position becomes Active at the
/// fill, with the stop anchored at the fill and the extreme at the fill, and
/// one entry-filled event is emitted.
pub open spec fn fill_decision(position: Position, fill: Price, filled: Quantity, d: EngineDecision) -> bool {
    let t = position.tech_stop_distance.unwrap();
    let stop = price_of(anchored_stop(position.side, fill, t));
    &&& d.actions@.len() == 1
    &&& (d.updated_position matches Some(p) && p == (Position {
        state: PositionState::Active {
            current_price: fill,
            trailing_stop: stop,
            favorable_extreme: fill,
            extreme_at: p.state->extreme_at,
            insurance_stop_id: None,
            last_emitted_stop: None,
        },
        entry_price: Some(fill),
        quantity: filled,
        entry_filled_at: p.entry_filled_at,
        updated_at: p.updated_at,
        ..position
    }))
    &&& (d.actions@[0] matches EngineAction::EmitEvent(
        Event::EntryFilled {
            position_id,
            order_id,
            fill_price,
            filled_quantity,
            fee,
            initial_stop,
            binance_position_id,
            ..
        },
    ) && position_id == position.id && order_id == position.state->entry_order_id && fill_price
        == fill && filled_quantity == filled && fee@ == (0int, 0int) && initial_stop == stop
        && binance_position_id is None)
}

/// An entry fill activates the position with the quantity that was actually
/// filled, not the planned size: the Active position holds the filled
/// quantity, and so does the entry-filled event it emits.
pub proof fn lemma_fill_keeps_filled_quantity(
    position: Position,
    fill: Price,
    filled: Quantity,
    d: EngineDecision,
)
    requires
        fill_decision(position, fill, filled, d),
    ensures
        d.updated_position matches Some(p) && p.state is Active && p.quantity == filled,
        d.actions@[0] matches EngineAction::EmitEvent(Event::EntryFilled { filled_quantity, .. })
            && filled_quantity == filled,
{
}

/// What `decide_entry` builds when it accepts a signal, for the technical
/// stop `t` that the signal implies.
pub open spec fn entry_decision(
    config: RiskConfig,
    position: Position,
    signal: DetectorSignal,
    t: TechnicalStopDistance,
    d: EngineDecision,
) -> bool {
    &&& d.actions@.len() == 2
    &&& (d.updated_position matches Some(p) && p.id == position.id && p.account_id
        == position.account_id && p.symbol == position.symbol && p.side == position.side
        && (p.state matches PositionState::Entering { expected_entry, signal_id, .. }
        && expected_entry == signal.entry_price && signal_id == signal.signal_id) && p.entry_price
        == Some(signal.entry_price) && p.tech_stop_distance == Some(t) && p.quantity.units() > 0
        && Some(p.quantity.0@) == spec_position_size(config, t)
        && (d.actions@[0] matches EngineAction::EmitEvent(
        Event::EntrySignalReceived { position_id, signal_id, entry_price, stop_loss, quantity, .. },
    ) && position_id == position.id && signal_id == signal.signal_id && entry_price
        == signal.entry_price && stop_loss == signal.stop_loss && quantity == p.quantity)
        && d.actions@[1] == EngineAction::PlaceEntryOrder {
        position_id: position.id,
        symbol: position.symbol,
        side: position.side.spec_entry_action(),
        quantity: p.quantity,
        signal_id: signal.signal_id,
    })
}

} // verus!
