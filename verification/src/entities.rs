//! Domain entities: positions with their lifecycle state machine, orders,
//! detector signals, and the position sizing rules.

use vstd::prelude::*;

use crate::decimal::{
    abs_int, dec_eq_spec, decimal_div, decimal_mul, decimal_sub, lemma_product_bounds,
    lemma_quotient_bounds, lemma_units_bound, one_units, safe_units, view_units, within, Dec,
};
use crate::ids::{new_uuid_v7, now_millis, uuid_text, uuid_text_spec, Timestamp, Uuid};
use crate::text::{join2, owned};
use crate::value_objects::{
    spec_percent_of, DomainError, OrderSide, Price, Quantity, RiskConfig, Side,
    Symbol, TechnicalStopDistance,
};

verus! {

/// Unique identifier for a Position
pub type PositionId = Uuid;

/// Unique identifier for an Order
pub type OrderId = Uuid;

/// Unique identifier for an Account
pub type AccountId = Uuid;

/// Exit reason for position closure.
#[derive(Debug, Clone, Copy, PartialEq, Eq, Structural)]
pub enum ExitReason {
    /// Trailing stop was hit (normal exit)
    TrailingStop,
    /// Insurance stop on exchange was triggered (daemon down)
    InsuranceStop,
    /// User manually triggered panic
    UserPanic,
    /// Degraded mode emergency exit
    DegradedMode,
    /// Position error (e.g., margin call)
    PositionError,
}

/// Position state machine with trailing stop tracking.
#[derive(Debug, PartialEq)]
pub enum PositionState {
    /// Position armed, waiting for detector signal
    Armed,
    /// Entry order submitted, waiting for fill
    Entering {
        /// Order ID for the entry order
        entry_order_id: OrderId,
        /// Expected entry price from signal
        expected_entry: Price,
        /// Signal ID for idempotency
        signal_id: Uuid,
    },
    /// Position active, monitoring trailing stop (1x technical stop distance)
    Active {
        /// Current price
        current_price: Price,
        /// Current trailing stop price
        trailing_stop: Price,
        /// Peak price seen so far (Long) or lowest price (Short)
        favorable_extreme: Price,
        /// When the favorable extreme was reached
        extreme_at: Timestamp,
        /// Insurance stop order on exchange (if enabled)
        insurance_stop_id: Option<OrderId>,
        /// Last trailing stop price that was emitted (for idempotency)
        last_emitted_stop: Option<Price>,
    },
    /// Exit order submitted, waiting for fill
    Exiting {
        /// Exit order identifier
        exit_order_id: OrderId,
        /// Why the position is exiting
        exit_reason: ExitReason,
    },
    /// Position closed, PnL realized
    Closed {
        /// Exit fill price
        exit_price: Price,
        /// Realized profit or loss
        realized_pnl: Dec,
        /// Why the position closed
        exit_reason: ExitReason,
    },
    /// Error state, requires manual intervention
    Error {
        /// Error description
        error: String,
        /// Whether the error is recoverable
        recoverable: bool,
    },
}

impl Clone for PositionState {
    fn clone(&self) -> (r: PositionState)
        ensures
            r == *self,
    {
        match self {
            PositionState::Armed => PositionState::Armed,
            PositionState::Entering { entry_order_id, expected_entry, signal_id } => {
                PositionState::Entering {
                    entry_order_id: *entry_order_id,
                    expected_entry: *expected_entry,
                    signal_id: *signal_id,
                }
            },
            PositionState::Active {
                current_price,
                trailing_stop,
                favorable_extreme,
                extreme_at,
                insurance_stop_id,
                last_emitted_stop,
            } => PositionState::Active {
                current_price: *current_price,
                trailing_stop: *trailing_stop,
                favorable_extreme: *favorable_extreme,
                extreme_at: *extreme_at,
                insurance_stop_id: *insurance_stop_id,
                last_emitted_stop: *last_emitted_stop,
            },
            PositionState::Exiting { exit_order_id, exit_reason } => PositionState::Exiting {
                exit_order_id: *exit_order_id,
                exit_reason: *exit_reason,
            },
            PositionState::Closed { exit_price, realized_pnl, exit_reason } => {
                PositionState::Closed {
                    exit_price: *exit_price,
                    realized_pnl: *realized_pnl,
                    exit_reason: *exit_reason,
                }
            },
            PositionState::Error { error, recoverable } => PositionState::Error {
                error: error.clone(),
                recoverable: *recoverable,
            },
        }
    }
}

impl PositionState {
    /// The state's name.
    pub open spec fn spec_name(&self) -> Seq<char> {
        match self {
            PositionState::Armed => "armed"@,
            PositionState::Entering { .. } => "entering"@,
            PositionState::Active { .. } => "active"@,
            PositionState::Exiting { .. } => "exiting"@,
            PositionState::Closed { .. } => "closed"@,
            PositionState::Error { .. } => "error"@,
        }
    }

    /// The state's name for display.
    pub fn name(&self) -> (r: &'static str)
        ensures
            r@ == self.spec_name(),
    {
        match self {
            PositionState::Armed => "armed",
            PositionState::Entering { .. } => "entering",
            PositionState::Active { .. } => "active",
            PositionState::Exiting { .. } => "exiting",
            PositionState::Closed { .. } => "closed",
            PositionState::Error { .. } => "error",
        }
    }
}

/// Stage of an entry intent, projected from the event sequence.
#[derive(Debug, Clone, Copy, PartialEq, Eq, Structural)]
pub enum EntryLifecycleStage {
    /// Position armed, no policy resolved yet
    IntentCreated,
    /// Waiting for the detector's signal
    AwaitingSignal,
    /// A signal was received
    SignalConfirmed,
    /// Waiting for operator approval
    AwaitingApproval,
    /// Entry order requested
    OrderSubmitted,
    /// Entry filled
    Active,
    /// Entry intent terminated
    Cancelled,
}

/// A managed trading position with its full lifecycle.
#[derive(Debug)]
pub struct Position {
    /// Position identifier
    pub id: PositionId,
    /// Owning account
    pub account_id: AccountId,
    /// Trading pair
    pub symbol: Symbol,
    /// Direction
    pub side: Side,
    /// Lifecycle state
    pub state: PositionState,
    /// Entry price (once known)
    pub entry_price: Option<Price>,
    /// When the entry filled
    pub entry_filled_at: Option<Timestamp>,
    /// Technical stop distance (trailing stop anchor)
    pub tech_stop_distance: Option<TechnicalStopDistance>,
    /// Position size (10x leverage is implicit)
    pub quantity: Quantity,
    /// Realized profit or loss
    pub realized_pnl: Dec,
    /// Fees paid
    pub fees_paid: Dec,
    /// Entry order
    pub entry_order_id: Option<OrderId>,
    /// Exit order
    pub exit_order_id: Option<OrderId>,
    /// Exchange insurance stop (if enabled)
    pub insurance_stop_id: Option<OrderId>,
    /// Creation time
    pub created_at: Timestamp,
    /// Last update time
    pub updated_at: Timestamp,
    /// Close time
    pub closed_at: Option<Timestamp>,
}

/// Largest magnitude, in whole units, of prices and quantities for which the
/// profit and loss arithmetic is proved not to overflow (2^40).
pub open spec fn max_amount_whole() -> int {
    1099511627776
}

/// `(a - b) * q` as `rust_decimal` computes it.
pub open spec fn spec_diff_times(a: (int, int), b: (int, int), q: (int, int)) -> (int, int) {
    decimal_mul(decimal_sub(a, b).unwrap(), q).unwrap()
}

impl Clone for Position {
    fn clone(&self) -> (r: Position)
        ensures
            r == *self,
    {
        Position {
            id: self.id,
            account_id: self.account_id,
            symbol: self.symbol.clone(),
            side: self.side,
            state: self.state.clone(),
            entry_price: self.entry_price,
            entry_filled_at: self.entry_filled_at,
            tech_stop_distance: self.tech_stop_distance,
            quantity: self.quantity,
            realized_pnl: self.realized_pnl,
            fees_paid: self.fees_paid,
            entry_order_id: self.entry_order_id,
            exit_order_id: self.exit_order_id,
            insurance_stop_id: self.insurance_stop_id,
            created_at: self.created_at,
            updated_at: self.updated_at,
            closed_at: self.closed_at,
        }
    }
}

impl Position {
    /// A new armed position with a fresh identifier, zero quantity and zero
    /// P&L.
    pub fn new(account_id: AccountId, symbol: Symbol, side: Side) -> (r: Position)
        ensures
            r.account_id == account_id,
            r.symbol == symbol,
            r.side == side,
            r.state == PositionState::Armed,
            r.entry_price is None,
            r.entry_filled_at is None,
            r.tech_stop_distance is None,
            r.quantity.wf() && r.quantity.units() == 0,
            r.realized_pnl.wf() && r.realized_pnl.units() == 0,
            r.fees_paid.wf() && r.fees_paid.units() == 0,
            r.entry_order_id is None,
            r.exit_order_id is None,
            r.insurance_stop_id is None,
            r.created_at == r.updated_at,
            r.closed_at is None,
    {
        let now = now_millis();
        Position {
            id: new_uuid_v7(),
            account_id,
            symbol,
            side,
            state: PositionState::Armed,
            entry_price: None,
            entry_filled_at: None,
            tech_stop_distance: None,
            quantity: Quantity::zero(),
            realized_pnl: Dec::zero(),
            fees_paid: Dec::zero(),
            entry_order_id: None,
            exit_order_id: None,
            insurance_stop_id: None,
            created_at: now,
            updated_at: now,
            closed_at: None,
        }
    }

    /// Whether the position can enter (is Armed).
    pub fn can_enter(&self) -> (r: bool)
        ensures
            r == (self.state is Armed),
    {
        match self.state {
            PositionState::Armed => true,
            _ => false,
        }
    }

    /// Whether the position can exit (is Active).
    pub fn can_exit(&self) -> (r: bool)
        ensures
            r == (self.state is Active),
    {
        match self.state {
            PositionState::Active { .. } => true,
            _ => false,
        }
    }

    /// Whether the position is Closed.
    pub fn is_closed(&self) -> (r: bool)
        ensures
            r == (self.state is Closed),
    {
        match self.state {
            PositionState::Closed { .. } => true,
            _ => false,
        }
    }

    /// The trailing stop, in the Active state only.
    pub fn get_trailing_stop(&self) -> (r: Option<Price>)
        ensures
            r == (match self.state {
                PositionState::Active { trailing_stop, .. } => Some(trailing_stop),
                _ => None,
            }),
    {
        match &self.state {
            PositionState::Active { trailing_stop, .. } => Some(*trailing_stop),
            _ => None,
        }
    }

    /// The numbers that `calculate_pnl` computes with are in range.
    pub open spec fn pnl_inputs_in_range(self) -> bool {
        match (self.entry_price, self.state) {
            (Some(e), PositionState::Active { current_price, .. }) => {
                &&& e.wf()
                &&& current_price.wf()
                &&& self.quantity.wf()
                &&& within(e.0, max_amount_whole())
                &&& within(current_price.0, max_amount_whole())
                &&& within(self.quantity.0, max_amount_whole())
            },
            _ => true,
        }
    }

    /// Profit or loss: unrealized for an Active position
    /// (`(current - entry) * qty` for a Long, `(entry - current) * qty` for a
    /// Short), realized for a Closed one, zero otherwise or without an entry
    /// price.
    pub fn calculate_pnl(&self) -> (r: Dec)
        requires
            self.pnl_inputs_in_range(),
        ensures
            r@ == (match (self.entry_price, self.state) {
                (None, _) => (0int, 0int),
                (Some(e), PositionState::Active { current_price, .. }) => match self.side {
                    Side::Long => spec_diff_times(current_price.0@, e.0@, self.quantity.0@),
                    Side::Short => spec_diff_times(e.0@, current_price.0@, self.quantity.0@),
                },
                (Some(e), PositionState::Closed { realized_pnl, .. }) => realized_pnl@,
                _ => (0int, 0int),
            }),
            // Unrealized P&L scales with the quantity: it is at most the price
            // move times the quantity (within the last unit of rounding), and
            // a favorable move on a non-negative quantity is not a loss.
            match (self.entry_price, self.state) {
                (Some(e), PositionState::Active { current_price, .. }) => {
                    let gain = match self.side {
                        Side::Long => current_price.units() - e.units(),
                        Side::Short => e.units() - current_price.units(),
                    };
                    let moved = match self.side {
                        Side::Long => decimal_sub(current_price.0@, e.0@).unwrap(),
                        Side::Short => decimal_sub(e.0@, current_price.0@).unwrap(),
                    };
                    &&& abs_int(r.units()) * one_units() <= abs_int(view_units(moved)) * abs_int(
                        self.quantity.units(),
                    ) + one_units() * one_units()
                    &&& (gain >= 0 && self.quantity.units() >= 0 ==> r.units() >= 0)
                },
                _ => true,
            },
    {
        let entry_price = match self.entry_price {
            Some(p) => p.as_decimal(),
            None => return Dec::zero(),
        };
        match &self.state {
            PositionState::Active { current_price, .. } => {
                let quantity = self.quantity.as_decimal();
                let cur = current_price.as_decimal();
                let diff = match self.side {
                    Side::Long => cur.checked_sub(entry_price).unwrap(),
                    Side::Short => entry_price.checked_sub(cur).unwrap(),
                };
                proof {
                    lemma_product_bounds(
                        abs_int(diff.units()),
                        abs_int(quantity.units()),
                        0,
                        2 * max_amount_whole() + 1,
                        max_amount_whole(),
                    );
                }
                diff.checked_mul(quantity).unwrap()
            },
            PositionState::Closed { realized_pnl, .. } => *realized_pnl,
            _ => Dec::zero(),
        }
    }
}

// =============================================================================
// Position Sizing (Golden Rule)
// =============================================================================
/// `max_risk / distance` as `rust_decimal` computes it.
pub open spec fn spec_position_size(config: RiskConfig, tech_stop: TechnicalStopDistance) -> Option<
    (int, int),
> {
    match spec_percent_of(config.capital@, config.risk_per_trade_pct@) {
        Some(m) => decimal_div(m, tech_stop.distance@),
        None => None,
    }
}

/// Whether the technical stop passes `validate`.
pub open spec fn tech_stop_valid(t: TechnicalStopDistance) -> bool {
    t.distance.units() > 0 && t.distance_pct.units() <= 10 * one_units() && t.distance_pct.units()
        * 10 >= one_units()
}

/// Position size = max risk amount / stop distance (the Golden Rule): the
/// risk taken stays at the configured percentage whatever the stop width.
/// A quotient beyond the decimal range is reported as a sizing error.
pub fn calculate_position_size(risk_config: &RiskConfig, tech_stop: &TechnicalStopDistance) -> (r:
    Result<Quantity, DomainError>)
    requires
        risk_config.wf(),
        crate::value_objects::risk_amount_in_range(*risk_config),
        tech_stop.wf(),
    ensures
        !tech_stop_valid(*tech_stop) ==> r is Err && r->Err_0 is InvalidTechnicalStopDistance,
        tech_stop_valid(*tech_stop) ==> {
            let size = spec_position_size(*risk_config, *tech_stop);
            &&& (r is Ok <==> (size matches Some(v) && view_units(v) > 0))
            &&& r matches Ok(q) ==> q.wf() && Some(q.0@) == size
            &&& r matches Err(e) ==> e matches DomainError::PositionSizingError(m) && m@ == (
            if size is None {
                "Position size exceeds the decimal range"@
            } else {
                "Calculated position size must be positive"@
            })
        },
{
    match tech_stop.validate() {
        Ok(()) => {},
        Err(e) => return Err(e),
    }
    let stop_distance = tech_stop.distance;
    if stop_distance.le(Dec::zero()) {
        return Err(DomainError::PositionSizingError(owned("Stop distance must be positive")));
    }
    let max_risk = risk_config.max_risk_amount();
    let position_size = match max_risk.checked_div(stop_distance) {
        Some(q) => q,
        None => {
            return Err(
                DomainError::PositionSizingError(owned("Position size exceeds the decimal range")),
            );
        },
    };
    if position_size.le(Dec::zero()) {
        return Err(
            DomainError::PositionSizingError(owned("Calculated position size must be positive")),
        );
    }
    Ok(Quantity(position_size))
}

/// `quantity * price` as `rust_decimal` computes it.
pub open spec fn spec_notional(quantity: Quantity, entry_price: Price) -> (int, int) {
    decimal_mul(quantity.0@, entry_price.0@).unwrap()
}

/// Notional value = quantity × entry price.
pub fn calculate_notional_value(quantity: &Quantity, entry_price: &Price) -> (r: Dec)
    requires
        quantity.wf(),
        entry_price.wf(),
        abs_int(quantity.units()) * abs_int(entry_price.units()) <= safe_units() * one_units(),
    ensures
        r.wf(),
        r@ == spec_notional(*quantity, *entry_price),
{
    quantity.as_decimal().checked_mul(entry_price.as_decimal()).unwrap()
}

/// Margin required = notional / leverage (10).
pub fn calculate_margin_required(quantity: &Quantity, entry_price: &Price) -> (r: Dec)
    requires
        quantity.wf(),
        entry_price.wf(),
        abs_int(quantity.units()) * abs_int(entry_price.units()) <= safe_units() * one_units(),
    ensures
        r.wf(),
        Some(r@) == decimal_div(spec_notional(*quantity, *entry_price), (10, 0)),
{
    let notional = calculate_notional_value(quantity, entry_price);
    let ten = Dec::from_int(10);
    proof {
        lemma_units_bound(notional);
        assert(abs_int(notional.units()) * one_units() <= safe_units() * abs_int(ten.units()))
            by (nonlinear_arith)
            requires
                abs_int(notional.units()) <= 0xFFFF_FFFF_FFFF_FFFF_FFFF_FFFF * one_units(),
                abs_int(ten.units()) == 10 * one_units(),
                safe_units() == 39614081257132168796771975168 * one_units(),
                one_units() > 0,
        ;
    }
    notional.checked_div(ten).unwrap()
}

// =============================================================================
// Order
// =============================================================================
/// Order types supported.
#[derive(Debug, Clone, Copy, PartialEq, Eq, Structural)]
pub enum OrderType {
    /// Market order (immediate execution)
    Market,
    /// Limit order (price guaranteed)
    Limit,
    /// Stop-loss limit (insurance stop on exchange)
    StopLossLimit,
}

/// Order status lifecycle.
#[derive(Debug, Clone, Copy, PartialEq, Eq, Structural)]
pub enum OrderStatus {
    /// Created locally, not sent yet
    Pending,
    /// Submitted to exchange
    Submitted,
    /// Partially filled
    PartialFill,
    /// Completely filled
    Filled,
    /// Cancelled
    Cancelled,
    /// Rejected by exchange
    Rejected,
    /// Expired
    Expired,
}

/// An instruction to buy or sell on the exchange, with its fill.
#[derive(Debug, Clone)]
pub struct Order {
    /// Order identifier
    pub id: OrderId,
    /// Position the order belongs to
    pub position_id: PositionId,
    /// Exchange-assigned identifier
    pub exchange_order_id: Option<String>,
    /// Client order identifier (a UUID v7)
    pub client_order_id: String,
    /// Trading pair
    pub symbol: Symbol,
    /// Direction
    pub side: OrderSide,
    /// Order type
    pub order_type: OrderType,
    /// Quantity
    pub quantity: Quantity,
    /// Limit price (None for market orders)
    pub price: Option<Price>,
    /// Status
    pub status: OrderStatus,
    /// Filled quantity
    pub filled_quantity: Option<Quantity>,
    /// Fill price
    pub fill_price: Option<Price>,
    /// Fill time
    pub filled_at: Option<Timestamp>,
    /// Fee paid
    pub fee_paid: Option<Dec>,
    /// Creation time
    pub created_at: Timestamp,
}

impl Order {
    /// A pending market order with fresh identifiers.
    pub fn new_market(position_id: PositionId, symbol: Symbol, side: OrderSide, quantity: Quantity) -> (r:
        Order)
        ensures
            r.position_id == position_id,
            r.exchange_order_id is None,
            exists|u: Uuid| r.client_order_id@ == uuid_text_spec(u),
            r.symbol == symbol,
            r.side == side,
            r.order_type == OrderType::Market,
            r.quantity == quantity,
            r.price is None,
            r.status == OrderStatus::Pending,
            r.filled_quantity is None,
            r.fill_price is None,
            r.filled_at is None,
            r.fee_paid is None,
    {
        let now = now_millis();
        let id = new_uuid_v7();
        let client = new_uuid_v7();
        Order {
            id,
            position_id,
            exchange_order_id: None,
            client_order_id: uuid_text(client),
            symbol,
            side,
            order_type: OrderType::Market,
            quantity,
            price: None,
            status: OrderStatus::Pending,
            filled_quantity: None,
            fill_price: None,
            filled_at: None,
            fee_paid: None,
            created_at: now,
        }
    }

    /// A pending stop-loss limit order (insurance stop); the stop price lives
    /// on the exchange, the limit price is kept.
    pub fn new_stop_loss_limit(
        position_id: PositionId,
        symbol: Symbol,
        side: OrderSide,
        quantity: Quantity,
        _stop_price: Price,
        limit_price: Price,
    ) -> (r: Order)
        ensures
            r.position_id == position_id,
            r.exchange_order_id is None,
            exists|u: Uuid| r.client_order_id@ == uuid_text_spec(u),
            r.symbol == symbol,
            r.side == side,
            r.order_type == OrderType::StopLossLimit,
            r.quantity == quantity,
            r.price == Some(limit_price),
            r.status == OrderStatus::Pending,
            r.filled_quantity is None,
            r.fill_price is None,
            r.filled_at is None,
            r.fee_paid is None,
    {
        let now = now_millis();
        let id = new_uuid_v7();
        let client = new_uuid_v7();
        Order {
            id,
            position_id,
            exchange_order_id: None,
            client_order_id: uuid_text(client),
            symbol,
            side,
            order_type: OrderType::StopLossLimit,
            quantity,
            price: Some(limit_price),
            status: OrderStatus::Pending,
            filled_quantity: None,
            fill_price: None,
            filled_at: None,
            fee_paid: None,
            created_at: now,
        }
    }

    /// Record the fill of a Pending or Submitted order; any other status is
    /// refused and the order is left unchanged.
    pub fn mark_filled(
        &mut self,
        exchange_order_id: String,
        fill_price: Price,
        filled_quantity: Quantity,
        fee: Dec,
    ) -> (r: Result<(), DomainError>)
        ensures
            r is Ok <==> (old(self).status == OrderStatus::Pending || old(self).status
                == OrderStatus::Submitted),
            r is Err ==> *final(self) == *old(self),
            r matches Err(e) ==> e matches DomainError::InvalidTechnicalStopDistance(m) && m@
                == "Cannot mark order as filled: invalid state"@,
            r is Ok ==> {
                &&& final(self).exchange_order_id == Some(exchange_order_id)
                &&& final(self).fill_price == Some(fill_price)
                &&& final(self).filled_quantity == Some(filled_quantity)
                &&& final(self).fee_paid == Some(fee)
                &&& final(self).status == OrderStatus::Filled
                &&& final(self).filled_at is Some
                &&& final(self).id == old(self).id
                &&& final(self).position_id == old(self).position_id
                &&& final(self).client_order_id == old(self).client_order_id
                &&& final(self).symbol == old(self).symbol
                &&& final(self).side == old(self).side
                &&& final(self).order_type == old(self).order_type
                &&& final(self).quantity == old(self).quantity
                &&& final(self).price == old(self).price
                &&& final(self).created_at == old(self).created_at
            },
    {
        if self.status != OrderStatus::Pending && self.status != OrderStatus::Submitted {
            return Err(
                DomainError::InvalidTechnicalStopDistance(
                    owned("Cannot mark order as filled: invalid state"),
                ),
            );
        }
        self.exchange_order_id = Some(exchange_order_id);
        self.fill_price = Some(fill_price);
        self.filled_quantity = Some(filled_quantity);
        self.fee_paid = Some(fee);
        self.status = OrderStatus::Filled;
        self.filled_at = Some(now_millis());
        Ok(())
    }

    /// Whether the order is filled.
    pub fn is_filled(&self) -> (r: bool)
        ensures
            r == (self.status == OrderStatus::Filled),
    {
        self.status == OrderStatus::Filled
    }
}

// =============================================================================
// Detector Signal
// =============================================================================
/// Signal from a detector to trigger entry (single-shot per position).
#[derive(Debug, Clone)]
pub struct DetectorSignal {
    /// Unique signal identifier for idempotency
    pub signal_id: Uuid,
    /// Position this signal belongs to
    pub position_id: PositionId,
    /// Trading pair symbol
    pub symbol: Symbol,
    /// Position direction (must match the armed position)
    pub side: Side,
    /// Suggested entry price
    pub entry_price: Price,
    /// Technical stop loss from chart analysis
    pub stop_loss: Price,
    /// When the signal was generated
    pub timestamp: Timestamp,
}

/// The `Debug` text of a side.
pub open spec fn side_debug(side: Side) -> Seq<char> {
    match side {
        Side::Long => "Long"@,
        Side::Short => "Short"@,
    }
}

fn side_debug_text(side: Side) -> (r: String)
    ensures
        r@ == side_debug(side),
{
    match side {
        Side::Long => owned("Long"),
        Side::Short => owned("Short"),
    }
}

impl DetectorSignal {
    /// A signal with a fresh identifier, stamped now.
    pub fn new(
        position_id: PositionId,
        symbol: Symbol,
        side: Side,
        entry_price: Price,
        stop_loss: Price,
    ) -> (r: DetectorSignal)
        ensures
            r.position_id == position_id,
            r.symbol == symbol,
            r.side == side,
            r.entry_price == entry_price,
            r.stop_loss == stop_loss,
    {
        DetectorSignal {
            signal_id: new_uuid_v7(),
            position_id,
            symbol,
            side,
            entry_price,
            stop_loss,
            timestamp: now_millis(),
        }
    }

    /// The technical stop distance from entry to stop loss.
    pub fn tech_stop_distance(&self) -> (r: TechnicalStopDistance)
        requires
            crate::value_objects::stop_pair_in_range(self.entry_price, self.stop_loss),
        ensures
            r.spec_from(self.entry_price, self.stop_loss),
    {
        TechnicalStopDistance::from_entry_and_stop(self.entry_price, self.stop_loss)
    }

    /// Check that the signal belongs to the position: same position id, same
    /// symbol, same side (checked in that order).
    pub fn validate_for_position(&self, position: &Position) -> (r: Result<(), DomainError>)
        ensures
            r is Ok <==> (self.position_id == position.id && self.symbol.base@
                == position.symbol.base@ && self.symbol.quote@ == position.symbol.quote@
                && self.side == position.side),
            r matches Err(e) ==> e is InvalidSignal,
            r matches Err(e) ==> e matches DomainError::InvalidSignal(m) && m@ == (
            if self.position_id != position.id {
                "Signal position_id "@ + uuid_text_spec(self.position_id)
                    + " does not match position "@ + uuid_text_spec(position.id)
            } else if !(self.symbol.base@ == position.symbol.base@ && self.symbol.quote@
                == position.symbol.quote@) {
                "Signal symbol "@ + self.symbol.pair() + " does not match position symbol "@
                    + position.symbol.pair()
            } else {
                "Signal side "@ + side_debug(self.side) + " does not match position side "@
                    + side_debug(position.side)
            }),
    {
        if self.position_id != position.id {
            let mut m = owned("Signal position_id ");
            m.append(uuid_text(self.position_id).as_str());
            m.append(" does not match position ");
            m.append(uuid_text(position.id).as_str());
            return Err(DomainError::InvalidSignal(m));
        }
        if !self.symbol.same_as(&position.symbol) {
            let mut m = owned("Signal symbol ");
            m.append(self.symbol.as_pair().as_str());
            m.append(" does not match position symbol ");
            m.append(position.symbol.as_pair().as_str());
            return Err(DomainError::InvalidSignal(m));
        }
        if self.side != position.side {
            let mut m = owned("Signal side ");
            m.append(side_debug_text(self.side).as_str());
            m.append(" does not match position side ");
            m.append(side_debug_text(position.side).as_str());
            return Err(DomainError::InvalidSignal(m));
        }
        Ok(())
    }
}

} // verus!
