//! Decisions of the reconciliation worker: which positions the exchange
//! holds untracked (they are closed), what to do about a position the
//! exchange no longer shows, and which insurance stop orders protect nothing
//! and are cancelled. Querying the exchange, reading
//! the store, closing positions and cancelling orders happen outside the
//! library, which takes what they returned.

use vstd::prelude::*;

use crate::engine::same_symbol;
use crate::entities::{OrderId, Position, PositionId, PositionState};
use crate::ids::Timestamp;
use crate::recovery::is_orphan_insurance_order;
use crate::text::{join2, owned};
use crate::value_objects::{Price, Quantity, Side, Symbol};

verus! {

// =============================================================================
// Missing Active positions
// =============================================================================
/// What the worker remembers of an Active position from the moment it was
/// first seen missing on the exchange.
#[derive(Debug)]
pub struct MissingObservation {
    /// Symbol of the position
    pub symbol: Symbol,
    /// Side of the position
    pub side: Side,
    /// Quantity a closing fill must match
    pub expected_quantity: Quantity,
    /// When the position was first seen missing
    pub first_observed_missing_at: Timestamp,
}

impl Clone for MissingObservation {
    fn clone(&self) -> (r: MissingObservation)
        ensures
            r == *self,
    {
        MissingObservation {
            symbol: self.symbol.clone(),
            side: self.side,
            expected_quantity: self.expected_quantity,
            first_observed_missing_at: self.first_observed_missing_at,
        }
    }
}

/// What to do now about an Active position missing on the exchange.
#[derive(Debug)]
pub enum MissingCheck {
    /// First seen missing: remember this observation; nothing is closed
    Record(MissingObservation),
    /// Still within the grace period: wait; nothing is closed
    Wait,
    /// Grace period over: look for real fill evidence of the expected
    /// quantity at or after the time the position was first seen missing
    GatherEvidence {
        /// Quantity a closing fill must match
        expected_quantity: Quantity,
        /// Earliest time a closing fill may have
        observed_at_floor: Timestamp,
    },
}

/// The check for a missing position: record a first observation, wait out
/// the grace period, then gather evidence from the first observation on.
pub open spec fn spec_missing_check(
    observation: Option<MissingObservation>,
    position: Position,
    now: Timestamp,
    elapsed_ms: u64,
    grace_ms: u64,
) -> MissingCheck {
    match observation {
        None => MissingCheck::Record(
            MissingObservation {
                symbol: position.symbol,
                side: position.side,
                expected_quantity: position.quantity,
                first_observed_missing_at: now,
            },
        ),
        Some(o) => if elapsed_ms < grace_ms {
            MissingCheck::Wait
        } else {
            MissingCheck::GatherEvidence {
                expected_quantity: o.expected_quantity,
                observed_at_floor: o.first_observed_missing_at,
            }
        },
    }
}

/// Decide what to do about an Active position that the exchange does not
/// show, given what was remembered of it (if anything), the time now, the
/// time elapsed since the observation was recorded and the grace period.
pub fn check_missing_position(
    observation: Option<&MissingObservation>,
    position: &Position,
    now: Timestamp,
    elapsed_ms: u64,
    grace_ms: u64,
) -> (r: MissingCheck)
    ensures
        r == spec_missing_check(
            match observation {
                Some(o) => Some(*o),
                None => None,
            },
            *position,
            now,
            elapsed_ms,
            grace_ms,
        ),
{
    match observation {
        None => MissingCheck::Record(
            MissingObservation {
                symbol: position.symbol.clone(),
                side: position.side,
                expected_quantity: position.quantity,
                first_observed_missing_at: now,
            },
        ),
        Some(o) => if elapsed_ms < grace_ms {
            MissingCheck::Wait
        } else {
            MissingCheck::GatherEvidence {
                expected_quantity: o.expected_quantity,
                observed_at_floor: o.first_observed_missing_at,
            }
        },
    }
}

/// How the position manager answered a close on real fill evidence.
#[derive(Debug)]
pub enum ReconcileCloseOutcome {
    /// The position was closed
    Closed,
    /// The position was already closed or failed
    AlreadyTerminal,
    /// The position was no longer Active
    SkippedNonActive {
        /// Its state's name
        state: String,
    },
    /// The evidence came from a source that cannot close a position
    RejectedUnsupportedEvidence {
        /// The source's name
        source: String,
    },
    /// The evidence did not agree with the position
    RejectedInconsistentEvidence {
        /// The field that disagreed
        field: String,
    },
}

/// A missing Active position that could not be resolved, for the operator.
#[derive(Debug)]
pub struct StaleActiveUnresolved {
    /// The position
    pub position_id: PositionId,
    /// Its symbol, as observed
    pub symbol: Symbol,
    /// Its side, as observed
    pub side: Side,
    /// When it was first seen missing
    pub first_observed_missing_at: Timestamp,
    /// When the missing state was confirmed after the grace period
    pub confirmed_missing_at: Timestamp,
    /// Why it is unresolved
    pub reason: String,
}

/// What the worker does once the evidence was looked for.
#[derive(Debug)]
pub struct MissingResolution {
    /// Whether the position was closed
    pub closed: bool,
    /// Whether the observation is forgotten
    pub clear_observation: bool,
    /// The report sent when the position stays unresolved
    pub unresolved: Option<StaleActiveUnresolved>,
}

/// Why a missing position stays unresolved, or `None` when it is resolved:
/// no evidence at all, evidence of an unsupported source, or evidence that
/// disagrees with the position.
pub open spec fn unresolved_reason(outcome: Option<ReconcileCloseOutcome>) -> Option<Seq<char>> {
    match outcome {
        None => Some("no_unambiguous_real_fill_evidence"@),
        Some(ReconcileCloseOutcome::RejectedUnsupportedEvidence { source }) => Some(
            "unsupported_evidence:"@ + source@,
        ),
        Some(ReconcileCloseOutcome::RejectedInconsistentEvidence { field }) => Some(
            "inconsistent_evidence:"@ + field@,
        ),
        _ => None,
    }
}

/// Whether the outcome forgets the observation: a close, a position already
/// terminal, or one no longer Active.
pub open spec fn clears_observation(outcome: Option<ReconcileCloseOutcome>) -> bool {
    match outcome {
        Some(ReconcileCloseOutcome::Closed) => true,
        Some(ReconcileCloseOutcome::AlreadyTerminal) => true,
        Some(ReconcileCloseOutcome::SkippedNonActive { .. }) => true,
        _ => false,
    }
}

/// The resolution of a missing position after the grace period, given the
/// position manager's answer, or `None` when no unambiguous real fill was
/// found. Only a close reports the position closed; an unresolved position
/// keeps its observation, so the evidence window stays anchored at the first
/// time it was seen missing.
pub fn resolve_missing_position(
    position: &Position,
    observation: &MissingObservation,
    confirmed_missing_at: Timestamp,
    outcome: Option<ReconcileCloseOutcome>,
) -> (r: MissingResolution)
    ensures
        r.closed == (outcome matches Some(ReconcileCloseOutcome::Closed)),
        r.clear_observation == clears_observation(outcome),
        r.unresolved is Some ==> !r.clear_observation,
        match unresolved_reason(outcome) {
            None => r.unresolved is None,
            Some(reason) => r.unresolved matches Some(u) && u.position_id == position.id
                && u.symbol == observation.symbol && u.side == observation.side
                && u.first_observed_missing_at == observation.first_observed_missing_at
                && u.confirmed_missing_at == confirmed_missing_at && u.reason@ == reason,
        },
{
    let reason = match &outcome {
        None => {
            proof {
                reveal_strlit("no_unambiguous_real_fill_evidence");
            }
            Some(owned("no_unambiguous_real_fill_evidence"))
        },
        Some(ReconcileCloseOutcome::RejectedUnsupportedEvidence { source }) => {
            proof {
                reveal_strlit("unsupported_evidence:");
            }
            Some(join2("unsupported_evidence:", source.as_str()))
        },
        Some(ReconcileCloseOutcome::RejectedInconsistentEvidence { field }) => {
            proof {
                reveal_strlit("inconsistent_evidence:");
            }
            Some(join2("inconsistent_evidence:", field.as_str()))
        },
        _ => None,
    };
    let closed = match &outcome {
        Some(ReconcileCloseOutcome::Closed) => true,
        _ => false,
    };
    let clear = match &outcome {
        Some(ReconcileCloseOutcome::Closed) => true,
        Some(ReconcileCloseOutcome::AlreadyTerminal) => true,
        Some(ReconcileCloseOutcome::SkippedNonActive { .. }) => true,
        _ => false,
    };
    let unresolved = match reason {
        None => None,
        Some(reason) => Some(
            StaleActiveUnresolved {
                position_id: position.id,
                symbol: observation.symbol.clone(),
                side: observation.side,
                first_observed_missing_at: observation.first_observed_missing_at,
                confirmed_missing_at,
                reason,
            },
        ),
    };
    MissingResolution { closed, clear_observation: clear, unresolved }
}

/// An unresolved missing position keeps its anchor: whatever the rejected
/// evidence, the observation is kept, and every later check after the grace
/// period looks for evidence from the first time the position was seen
/// missing, not from the later check.
pub proof fn lemma_unresolved_keeps_anchor(
    observation: MissingObservation,
    outcome: Option<ReconcileCloseOutcome>,
    position: Position,
    later: Timestamp,
    elapsed_ms: u64,
    grace_ms: u64,
)
    requires
        unresolved_reason(outcome) is Some,
        elapsed_ms >= grace_ms,
    ensures
        !clears_observation(outcome),
        spec_missing_check(Some(observation), position, later, elapsed_ms, grace_ms)
            == (MissingCheck::GatherEvidence {
            expected_quantity: observation.expected_quantity,
            observed_at_floor: observation.first_observed_missing_at,
        }),
{
}

// =============================================================================
// Orphan insurance orders
// =============================================================================
/// An order open on the exchange, as the sweep reads it.
#[derive(Debug)]
pub struct OpenOrder {
    /// Exchange order ID
    pub exchange_order_id: OrderId,
    /// Client order ID
    pub client_order_id: String,
    /// Whether the order can only reduce a position
    pub reduce_only: bool,
}

/// The insurance stop that protects a position, if it is Active: the one
/// recorded in its Active state, else the one recorded on the position.
pub open spec fn covering_stop(position: Position) -> Option<Option<OrderId>> {
    match position.state {
        PositionState::Active { insurance_stop_id, .. } => Some(
            match insurance_stop_id {
                Some(id) => Some(id),
                None => position.insurance_stop_id,
            },
        ),
        _ => None,
    }
}

/// Whether an Active position among `active` is protected by order `id`.
pub open spec fn is_covered(active: Seq<Position>, id: OrderId) -> bool {
    exists|k: int| 0 <= k < active.len() && covering_stop(#[trigger] active[k]) == Some(Some(id))
}

/// Whether an Active position on `symbol` has no insurance stop recorded:
/// an insurance order there may be its stop whose link was lost.
pub open spec fn has_unlinked_active(active: Seq<Position>, symbol: Symbol) -> bool {
    exists|k: int|
        0 <= k < active.len() && covering_stop(#[trigger] active[k]) == Some(None::<OrderId>)
            && same_symbol(active[k].symbol, symbol)
}

/// Whether an open order is an insurance stop this system placed.
pub open spec fn is_insurance_order(order: OpenOrder) -> bool {
    order.reduce_only && order.client_order_id@.len() >= 4 && order.client_order_id@.subrange(0, 4)
        == "ins-"@
}

/// Whether an open order on `symbol` is an orphan to cancel: an insurance
/// stop that protects no Active position, on a symbol where every Active
/// position has its insurance stop recorded.
pub open spec fn is_orphan(active: Seq<Position>, symbol: Symbol, order: OpenOrder) -> bool {
    &&& is_insurance_order(order)
    &&& !is_covered(active, order.exchange_order_id)
    &&& !has_unlinked_active(active, symbol)
}

/// The orphans among the open orders of a symbol, in order.
pub open spec fn orphans(active: Seq<Position>, symbol: Symbol, orders: Seq<OpenOrder>) -> Seq<OrderId>
    decreases orders.len(),
{
    if orders.len() == 0 {
        Seq::empty()
    } else {
        let rest = orphans(active, symbol, orders.drop_last());
        if is_orphan(active, symbol, orders.last()) {
            rest.push(orders.last().exchange_order_id)
        } else {
            rest
        }
    }
}

/// The insurance stop protecting an Active position; `None` twice over for
/// a position that is not Active.
fn covering_stop_of(position: &Position) -> (r: Option<Option<OrderId>>)
    ensures
        r == covering_stop(*position),
{
    match &position.state {
        PositionState::Active { insurance_stop_id, .. } => Some(
            match insurance_stop_id {
                Some(id) => Some(*id),
                None => position.insurance_stop_id,
            },
        ),
        _ => None,
    }
}

/// Whether order `id` protects an Active position.
fn covered(active: &Vec<Position>, id: OrderId) -> (r: bool)
    ensures
        r == is_covered(active@, id),
{
    let mut k: usize = 0;
    while k < active.len()
        invariant
            k <= active@.len(),
            forall|j: int| 0 <= j < k ==> covering_stop(#[trigger] active@[j]) != Some(Some(id)),
        decreases active@.len() - k,
    {
        match covering_stop_of(&active[k]) {
            Some(Some(c)) => {
                if c == id {
                    return true;
                }
            },
            _ => {},
        }
        k = k + 1;
    }
    false
}

/// Whether an Active position on `symbol` has no insurance stop recorded.
fn unlinked_active(active: &Vec<Position>, symbol: &Symbol) -> (r: bool)
    ensures
        r == has_unlinked_active(active@, *symbol),
{
    let mut k: usize = 0;
    while k < active.len()
        invariant
            k <= active@.len(),
            forall|j: int|
                0 <= j < k ==> !(covering_stop(#[trigger] active@[j]) == Some(None::<OrderId>)
                    && same_symbol(active@[j].symbol, *symbol)),
        decreases active@.len() - k,
    {
        match covering_stop_of(&active[k]) {
            Some(None) => {
                if active[k].symbol.same_as(symbol) {
                    return true;
                }
            },
            _ => {},
        }
        k = k + 1;
    }
    false
}

/// The insurance stop orders open on `symbol` that protect nothing and are
/// cancelled, in order. `active` holds the positions the store lists as
/// active. An insurance order on a symbol where an Active position has no
/// insurance stop recorded is kept, since it may be that position's stop.
pub fn orphan_orders(active: &Vec<Position>, symbol: &Symbol, open_orders: &Vec<OpenOrder>) -> (r: Vec<
    OrderId,
>)
    ensures
        r@ == orphans(active@, *symbol, open_orders@),
{
    let unlinked = unlinked_active(active, symbol);
    let mut out: Vec<OrderId> = Vec::new();
    let n = open_orders.len();
    let mut i: usize = 0;
    while i < n
        invariant
            n == open_orders@.len(),
            i <= n,
            unlinked == has_unlinked_active(active@, *symbol),
            out@ == orphans(active@, *symbol, open_orders@.take(i as int)),
        decreases n - i,
    {
        proof {
            assert(open_orders@.take(i + 1).drop_last() =~= open_orders@.take(i as int));
        }
        let order = &open_orders[i];
        if is_orphan_insurance_order(order.reduce_only, order.client_order_id.as_str()) && !covered(
            active,
            order.exchange_order_id,
        ) && !unlinked {
            out.push(order.exchange_order_id);
        }
        i = i + 1;
    }
    proof {
        assert(open_orders@.take(n as int) =~= open_orders@);
    }
    out
}

/// Whether `symbols` names `symbol`.
pub open spec fn names_symbol(symbols: Seq<Symbol>, symbol: Symbol) -> bool {
    exists|i: int| 0 <= i < symbols.len() && same_symbol(#[trigger] symbols[i], symbol)
}

/// Whether `symbols` names `symbol`.
fn contains_symbol(symbols: &Vec<Symbol>, symbol: &Symbol) -> (r: bool)
    ensures
        r == names_symbol(symbols@, *symbol),
{
    let mut i: usize = 0;
    while i < symbols.len()
        invariant
            i <= symbols@.len(),
            forall|j: int| 0 <= j < i ==> !same_symbol(#[trigger] symbols@[j], *symbol),
        decreases symbols@.len() - i,
    {
        if symbols[i].same_as(symbol) {
            return true;
        }
        i = i + 1;
    }
    false
}

/// Whether `symbol` is one of `symbols` or the symbol of one of `active`.
pub open spec fn listed_symbol(symbols: Seq<Symbol>, active: Seq<Position>, symbol: Symbol) -> bool {
    ||| exists|j: int| 0 <= j < symbols.len() && #[trigger] symbols[j] == symbol
    ||| exists|k: int| 0 <= k < active.len() && #[trigger] active[k].symbol == symbol
}

/// The symbols the sweep looks at: those with a position on the exchange and
/// those of the positions the store lists as active, each once, the
/// exchange's first.
pub fn sweep_symbols(active: &Vec<Position>, exchange_symbols: &Vec<Symbol>) -> (r: Vec<Symbol>)
    ensures
        forall|j: int| 0 <= j < exchange_symbols@.len() ==> names_symbol(r@, #[trigger] exchange_symbols@[j]),
        forall|k: int| 0 <= k < active@.len() ==> names_symbol(r@, #[trigger] active@[k].symbol),
        forall|i: int|
            0 <= i < r@.len() ==> listed_symbol(exchange_symbols@, active@, #[trigger] r@[i]),
        forall|i: int, i2: int| 0 <= i < i2 < r@.len() ==> !same_symbol(#[trigger] r@[i], #[trigger] r@[i2]),
{
    let mut out: Vec<Symbol> = Vec::new();
    let mut j: usize = 0;
    while j < exchange_symbols.len()
        invariant
            j <= exchange_symbols@.len(),
            forall|j2: int| 0 <= j2 < j ==> names_symbol(out@, #[trigger] exchange_symbols@[j2]),
            forall|i: int|
                0 <= i < out@.len() ==> listed_symbol(exchange_symbols@, Seq::empty(), #[trigger] out@[i]),
            forall|i: int, i2: int| 0 <= i < i2 < out@.len() ==> !same_symbol(#[trigger] out@[i], #[trigger] out@[i2]),
        decreases exchange_symbols@.len() - j,
    {
        let s = &exchange_symbols[j];
        if !contains_symbol(&out, s) {
            let ghost before = out@;
            out.push(s.clone());
            proof {
                assert(out@[out@.len() - 1] == exchange_symbols@[j as int]);
                assert forall|j2: int| 0 <= j2 <= j implies names_symbol(out@, #[trigger] exchange_symbols@[j2]) by {
                    if j2 < j {
                        let i = choose|i: int| 0 <= i < before.len() && same_symbol(before[i], exchange_symbols@[j2]);
                        assert(out@[i] == before[i]);
                    } else {
                        assert(same_symbol(out@[out@.len() - 1], exchange_symbols@[j2]));
                    }
                }
                assert forall|i: int| 0 <= i < out@.len() implies listed_symbol(exchange_symbols@, Seq::empty(), #[trigger] out@[i]) by {
                    if i < before.len() {
                        assert(out@[i] == before[i]);
                    }
                }
            }
        } else {
            proof {
                assert(names_symbol(out@, exchange_symbols@[j as int]));
            }
        }
        j = j + 1;
    }
    let mut k: usize = 0;
    while k < active.len()
        invariant
            k <= active@.len(),
            forall|j2: int| 0 <= j2 < exchange_symbols@.len() ==> names_symbol(out@, #[trigger] exchange_symbols@[j2]),
            forall|k2: int| 0 <= k2 < k ==> names_symbol(out@, #[trigger] active@[k2].symbol),
            forall|i: int|
                0 <= i < out@.len() ==> listed_symbol(exchange_symbols@, active@, #[trigger] out@[i]),
            forall|i: int, i2: int| 0 <= i < i2 < out@.len() ==> !same_symbol(#[trigger] out@[i], #[trigger] out@[i2]),
        decreases active@.len() - k,
    {
        let s = &active[k].symbol;
        if !contains_symbol(&out, s) {
            let ghost before = out@;
            out.push(s.clone());
            proof {
                assert(out@[out@.len() - 1] == active@[k as int].symbol);
                assert forall|j2: int| 0 <= j2 < exchange_symbols@.len() implies names_symbol(out@, #[trigger] exchange_symbols@[j2]) by {
                    let i = choose|i: int| 0 <= i < before.len() && same_symbol(before[i], exchange_symbols@[j2]);
                    assert(out@[i] == before[i]);
                }
                assert forall|k2: int| 0 <= k2 <= k implies names_symbol(out@, #[trigger] active@[k2].symbol) by {
                    if k2 < k {
                        let i = choose|i: int| 0 <= i < before.len() && same_symbol(before[i], active@[k2].symbol);
                        assert(out@[i] == before[i]);
                    } else {
                        assert(same_symbol(out@[out@.len() - 1], active@[k2].symbol));
                    }
                }
                assert forall|i: int| 0 <= i < out@.len() implies listed_symbol(exchange_symbols@, active@, #[trigger] out@[i]) by {
                    if i < before.len() {
                        assert(out@[i] == before[i]);
                    }
                }
            }
        } else {
            proof {
                assert(names_symbol(out@, active@[k as int].symbol));
            }
        }
        k = k + 1;
    }
    out
}

// =============================================================================
// Positions on the exchange against the store
// =============================================================================
/// A position the exchange holds, as the worker reads it.
#[derive(Debug)]
pub struct ExchangeHolding {
    /// Symbol
    pub symbol: Symbol,
    /// Side
    pub side: Side,
    /// Quantity held
    pub quantity: Quantity,
    /// Entry price
    pub entry_price: Price,
}

/// Whether a position listed as active in the store has this symbol and
/// side.
pub open spec fn tracked_by(active: Seq<Position>, symbol: Symbol, side: Side) -> bool {
    exists|k: int| 0 <= k < active.len() && same_symbol((#[trigger] active[k]).symbol, symbol) && active[k].side == side
}

/// The indices, in order, of the holdings that no active position tracks:
/// those are closed at market.
pub open spec fn untracked_indices(active: Seq<Position>, holdings: Seq<ExchangeHolding>) -> Seq<usize>
    decreases holdings.len(),
{
    if holdings.len() == 0 {
        Seq::empty()
    } else {
        let rest = untracked_indices(active, holdings.drop_last());
        let last = holdings.last();
        if tracked_by(active, last.symbol, last.side) {
            rest
        } else {
            rest.push((holdings.len() - 1) as usize)
        }
    }
}

/// Whether an active position tracks this symbol and side.
pub fn is_tracked(active: &Vec<Position>, symbol: &Symbol, side: Side) -> (r: bool)
    ensures
        r == tracked_by(active@, *symbol, side),
{
    let mut k: usize = 0;
    while k < active.len()
        invariant
            k <= active@.len(),
            forall|j: int| 0 <= j < k ==> !(same_symbol((#[trigger] active@[j]).symbol, *symbol) && active@[j].side == side),
        decreases active@.len() - k,
    {
        if active[k].symbol.same_as(symbol) && active[k].side == side {
            return true;
        }
        k = k + 1;
    }
    false
}

/// The holdings on the exchange that the store does not track, by index in
/// order: each is reported and closed at market.
pub fn untracked_holdings(active: &Vec<Position>, holdings: &Vec<ExchangeHolding>) -> (r: Vec<usize>)
    ensures
        r@ == untracked_indices(active@, holdings@),
{
    let mut out: Vec<usize> = Vec::new();
    let n = holdings.len();
    let mut i: usize = 0;
    while i < n
        invariant
            n == holdings@.len(),
            i <= n,
            out@ == untracked_indices(active@, holdings@.take(i as int)),
        decreases n - i,
    {
        proof {
            assert(holdings@.take(i + 1).drop_last() =~= holdings@.take(i as int));
        }
        if !is_tracked(active, &holdings[i].symbol, holdings[i].side) {
            out.push(i);
        }
        i = i + 1;
    }
    proof {
        assert(holdings@.take(n as int) =~= holdings@);
    }
    out
}

/// What the worker does with a position the store lists as active.
#[derive(Debug, PartialEq, Eq, Structural)]
pub enum LocalCheck {
    /// The exchange holds it: forget any missing observation
    PresentOnExchange,
    /// Active but missing on the exchange: the missing-position handling
    MissingActive,
    /// Entering or exiting and missing on the exchange: reported
    MissingNonActive,
    /// Nothing to do in its state
    Ignore,
}

/// Whether the exchange holds a position with this symbol and side.
pub open spec fn held_on_exchange(holdings: Seq<ExchangeHolding>, symbol: Symbol, side: Side) -> bool {
    exists|i: int| 0 <= i < holdings.len() && same_symbol((#[trigger] holdings[i]).symbol, symbol) && holdings[i].side == side
}

/// The check of one position listed as active against what the exchange
/// holds.
pub fn local_position_check(position: &Position, holdings: &Vec<ExchangeHolding>) -> (r: LocalCheck)
    ensures
        r == (if held_on_exchange(holdings@, position.symbol, position.side) {
            LocalCheck::PresentOnExchange
        } else {
            match position.state {
                PositionState::Active { .. } => LocalCheck::MissingActive,
                PositionState::Entering { .. } => LocalCheck::MissingNonActive,
                PositionState::Exiting { .. } => LocalCheck::MissingNonActive,
                _ => LocalCheck::Ignore,
            }
        }),
{
    let mut i: usize = 0;
    while i < holdings.len()
        invariant
            i <= holdings@.len(),
            forall|j: int| 0 <= j < i ==> !(same_symbol((#[trigger] holdings@[j]).symbol, position.symbol) && holdings@[j].side == position.side),
        decreases holdings@.len() - i,
    {
        if holdings[i].symbol.same_as(&position.symbol) && holdings[i].side == position.side {
            return LocalCheck::PresentOnExchange;
        }
        i = i + 1;
    }
    match &position.state {
        PositionState::Active { .. } => LocalCheck::MissingActive,
        PositionState::Entering { .. } => LocalCheck::MissingNonActive,
        PositionState::Exiting { .. } => LocalCheck::MissingNonActive,
        _ => LocalCheck::Ignore,
    }
}

} // verus!
