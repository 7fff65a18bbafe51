//! The intent journal: each action is recorded before it is executed and
//! completed after, so that it runs exactly once even across restarts.

use vstd::prelude::*;

use crate::engine::EngineError;
use crate::entities::{ExitReason, PositionId};
use crate::ids::{now_millis, uuid_text, uuid_text_spec, Timestamp, Uuid};
use crate::ports::OrderResult;
use crate::text::{join2, owned};
use crate::value_objects::{DomainError, OrderSide, Quantity, Symbol};

verus! {

// =============================================================================
// Errors
// =============================================================================
/// Errors of the execution layer.
#[derive(Debug)]
pub enum ExecError {
    /// Exchange communication error
    Exchange(String),
    /// Order was rejected by the exchange
    OrderRejected(String),
    /// Intent journal error
    IntentJournal(String),
    /// Intent already processed (idempotency check)
    AlreadyProcessed(Uuid),
    /// Domain error
    Domain(DomainError),
    /// Engine error
    Engine(EngineError),
    /// Invalid state for the operation
    InvalidState(String),
    /// Configuration error
    Config(String),
    /// Timeout waiting for an operation
    Timeout(String),
}

impl ExecError {
    /// The error message.
    pub open spec fn spec_text(&self) -> Seq<char> {
        match self {
            ExecError::Exchange(m) => "Exchange error: "@ + m@,
            ExecError::OrderRejected(m) => "Order rejected: "@ + m@,
            ExecError::IntentJournal(m) => "Intent journal error: "@ + m@,
            ExecError::AlreadyProcessed(id) => "Intent already processed: "@ + uuid_text_spec(*id),
            ExecError::Domain(e) => "Domain error: "@ + e.spec_text(),
            ExecError::Engine(e) => "Engine error: "@ + e.spec_text(),
            ExecError::InvalidState(m) => "Invalid state: "@ + m@,
            ExecError::Config(m) => "Configuration error: "@ + m@,
            ExecError::Timeout(m) => "Timeout: "@ + m@,
        }
    }

    /// The error message.
    pub fn display(&self) -> (r: String)
        ensures
            r@ == self.spec_text(),
    {
        match self {
            ExecError::Exchange(m) => join2("Exchange error: ", m.as_str()),
            ExecError::OrderRejected(m) => join2("Order rejected: ", m.as_str()),
            ExecError::IntentJournal(m) => join2("Intent journal error: ", m.as_str()),
            ExecError::AlreadyProcessed(id) => {
                let t = uuid_text(*id);
                join2("Intent already processed: ", t.as_str())
            },
            ExecError::Domain(e) => {
                let t = e.display();
                join2("Domain error: ", t.as_str())
            },
            ExecError::Engine(e) => {
                let t = e.display();
                join2("Engine error: ", t.as_str())
            },
            ExecError::InvalidState(m) => join2("Invalid state: ", m.as_str()),
            ExecError::Config(m) => join2("Configuration error: ", m.as_str()),
            ExecError::Timeout(m) => join2("Timeout: ", m.as_str()),
        }
    }
}

// =============================================================================
// Intents
// =============================================================================
/// A planned action, recorded before execution.
#[derive(Debug)]
pub struct Intent {
    /// Intent identifier (often the signal's)
    pub id: Uuid,
    /// Position the intent belongs to
    pub position_id: PositionId,
    /// The action to execute
    pub action: IntentAction,
    /// Current status
    pub status: IntentStatus,
    /// When it was created
    pub created_at: Timestamp,
    /// When it was completed
    pub completed_at: Option<Timestamp>,
    /// Result of execution, once completed
    pub result: Option<IntentResult>,
}

/// Actions recorded as intents.
#[derive(Debug)]
pub enum IntentAction {
    /// Place the entry order
    PlaceEntryOrder {
        /// Pair
        symbol: Symbol,
        /// Side
        side: OrderSide,
        /// Quantity
        quantity: Quantity,
    },
    /// Place the exit order
    PlaceExitOrder {
        /// Pair
        symbol: Symbol,
        /// Side
        side: OrderSide,
        /// Quantity
        quantity: Quantity,
        /// Why the position exits
        reason: ExitReason,
    },
    /// Cancel an order
    CancelOrder {
        /// Pair
        symbol: Symbol,
        /// Exchange order ID
        order_id: String,
    },
}

/// Status of an intent.
#[derive(Debug, Clone, Copy, PartialEq, Eq, Structural)]
pub enum IntentStatus {
    /// Recorded, not yet executed
    Pending,
    /// Execution in progress
    Executing,
    /// Execution completed (see the result)
    Completed,
}

/// Result of executing an intent.
#[derive(Debug)]
pub enum IntentResult {
    /// Execution succeeded
    Success(OrderResult),
    /// Execution failed
    Failed(String),
    /// Intent was skipped (e.g. duplicate)
    Skipped(String),
}

impl Clone for IntentAction {
    fn clone(&self) -> (r: IntentAction)
        ensures
            r == *self,
    {
        match self {
            IntentAction::PlaceEntryOrder { symbol, side, quantity } => IntentAction::PlaceEntryOrder {
                symbol: symbol.clone(),
                side: *side,
                quantity: *quantity,
            },
            IntentAction::PlaceExitOrder { symbol, side, quantity, reason } => {
                IntentAction::PlaceExitOrder {
                    symbol: symbol.clone(),
                    side: *side,
                    quantity: *quantity,
                    reason: *reason,
                }
            },
            IntentAction::CancelOrder { symbol, order_id } => IntentAction::CancelOrder {
                symbol: symbol.clone(),
                order_id: order_id.clone(),
            },
        }
    }
}

impl Clone for IntentResult {
    fn clone(&self) -> (r: IntentResult)
        ensures
            r == *self,
    {
        match self {
            IntentResult::Success(o) => IntentResult::Success(o.clone()),
            IntentResult::Failed(m) => IntentResult::Failed(m.clone()),
            IntentResult::Skipped(m) => IntentResult::Skipped(m.clone()),
        }
    }
}

impl Clone for Intent {
    fn clone(&self) -> (r: Intent)
        ensures
            r == *self,
    {
        Intent {
            id: self.id,
            position_id: self.position_id,
            action: self.action.clone(),
            status: self.status,
            created_at: self.created_at,
            completed_at: self.completed_at,
            result: match &self.result {
                Some(x) => Some(x.clone()),
                None => None,
            },
        }
    }
}

impl Intent {
    /// A new pending intent, stamped now.
    pub fn new(id: Uuid, position_id: PositionId, action: IntentAction) -> (r: Intent)
        ensures
            r.id == id,
            r.position_id == position_id,
            r.action == action,
            r.status == IntentStatus::Pending,
            r.completed_at is None,
            r.result is None,
    {
        Intent {
            id,
            position_id,
            action,
            status: IntentStatus::Pending,
            created_at: now_millis(),
            completed_at: None,
            result: None,
        }
    }

    /// Whether the intent is still pending.
    pub fn is_pending(&self) -> (r: bool)
        ensures
            r == (self.status == IntentStatus::Pending),
    {
        self.status == IntentStatus::Pending
    }

    /// Whether the intent completed successfully.
    pub fn is_success(&self) -> (r: bool)
        ensures
            r == (self.status == IntentStatus::Completed && self.result matches Some(
                IntentResult::Success(_),
            )),
    {
        self.status == IntentStatus::Completed && match &self.result {
            Some(IntentResult::Success(_)) => true,
            _ => false,
        }
    }
}

// =============================================================================
// Journal
// =============================================================================
/// The intent recorded under `id`: the last one recorded with that id.
pub open spec fn find_intent(s: Seq<Intent>, id: Uuid) -> Option<Intent>
    decreases s.len(),
{
    if s.len() == 0 {
        None
    } else if s.last().id == id {
        Some(s.last())
    } else {
        find_intent(s.drop_last(), id)
    }
}

/// The intents that satisfy `keep`, in the order they were recorded.
pub open spec fn intents_where(s: Seq<Intent>, keep: spec_fn(Intent) -> bool) -> Seq<Intent>
    decreases s.len(),
{
    if s.len() == 0 {
        Seq::empty()
    } else {
        let prev = intents_where(s.drop_last(), keep);
        if keep(s.last()) {
            prev.push(s.last())
        } else {
            prev
        }
    }
}

/// No two recorded intents share an id.
pub open spec fn ids_unique(s: Seq<Intent>) -> bool {
    forall|i: int, j: int| 0 <= i < j < s.len() ==> s[i].id != s[j].id
}

proof fn lemma_find_at(s: Seq<Intent>, j: int)
    requires
        ids_unique(s),
        0 <= j < s.len(),
    ensures
        find_intent(s, s[j].id) == Some(s[j]),
    decreases s.len(),
{
    if j < s.len() - 1 {
        assert(s.last().id != s[j].id);
        lemma_find_at(s.drop_last(), j);
    }
}

proof fn lemma_find_none(s: Seq<Intent>, id: Uuid)
    requires
        find_intent(s, id) is None,
    ensures
        forall|i: int| 0 <= i < s.len() ==> s[i].id != id,
    decreases s.len(),
{
    if s.len() > 0 {
        lemma_find_none(s.drop_last(), id);
        assert forall|i: int| 0 <= i < s.len() implies s[i].id != id by {
            if i < s.len() - 1 {
                assert(s[i] == s.drop_last()[i]);
            }
        }
    }
}

proof fn lemma_find_update(s: Seq<Intent>, j: int, x: Intent, k: Uuid)
    requires
        ids_unique(s),
        0 <= j < s.len(),
        x.id == s[j].id,
    ensures
        find_intent(s.update(j, x), k) == (if k == x.id {
            Some(x)
        } else {
            find_intent(s, k)
        }),
    decreases s.len(),
{
    let t = s.update(j, x);
    if j == s.len() - 1 {
        assert(t.drop_last() =~= s.drop_last());
    } else {
        assert(t.drop_last() =~= s.drop_last().update(j, x));
        assert(t.last() == s.last());
        assert(s.last().id != s[j].id);
        lemma_find_update(s.drop_last(), j, x, k);
    }
}

/// Journal of intents, keyed by intent id.
pub struct IntentJournal {
    intents: Vec<Intent>,
}

impl IntentJournal {
    /// The recorded intents, in the order they were recorded.
    pub closed spec fn entries(&self) -> Seq<Intent> {
        self.intents@
    }

    /// The journal's invariant: ids are unique.
    pub closed spec fn wf(&self) -> bool {
        ids_unique(self.intents@)
    }

    /// The intent recorded under `id`.
    pub open spec fn lookup(&self, id: Uuid) -> Option<Intent> {
        find_intent(self.entries(), id)
    }

    /// An empty journal.
    pub fn new() -> (r: IntentJournal)
        ensures
            r.wf(),
            r.entries().len() == 0,
    {
        IntentJournal { intents: Vec::new() }
    }

    /// Record a new intent before execution; an intent with the same id is
    /// refused.
    pub fn record(&mut self, intent: Intent) -> (r: Result<(), ExecError>)
        requires
            old(self).wf(),
        ensures
            final(self).wf(),
            old(self).lookup(intent.id) is Some ==> (r matches Err(ExecError::AlreadyProcessed(id))
                && id == intent.id) && final(self).entries() == old(self).entries(),
            old(self).lookup(intent.id) is None ==> r is Ok && final(self).entries() == old(
                self,
            ).entries().push(intent) && forall|k: Uuid|
                #![trigger final(self).lookup(k)]
                final(self).lookup(k) == (if k == intent.id {
                    Some(intent)
                } else {
                    old(self).lookup(k)
                }),
    {
        let id = intent.id;
        if self.position_of(id).is_some() {
            return Err(ExecError::AlreadyProcessed(id));
        }
        proof {
            lemma_find_none(self.intents@, id);
        }
        self.intents.push(intent);
        proof {
            assert(self.intents@.drop_last() =~= old(self).intents@);
        }
        Ok(())
    }

    /// Index of the intent recorded under `id`.
    fn position_of(&self, id: Uuid) -> (r: Option<usize>)
        requires
            self.wf(),
        ensures
            match r {
                Some(j) => j < self.intents@.len() && self.intents@[j as int].id == id
                    && self.lookup(id) == Some(self.intents@[j as int]),
                None => self.lookup(id) is None,
            },
    {
        let mut i = self.intents.len();
        assert(self.intents@.take(i as int) =~= self.intents@);
        while i > 0
            invariant
                i <= self.intents@.len(),
                ids_unique(self.intents@),
                find_intent(self.intents@, id) == find_intent(self.intents@.take(i as int), id),
            decreases i,
        {
            proof {
                assert(self.intents@.take(i as int).drop_last() =~= self.intents@.take(i - 1));
            }
            if self.intents[i - 1].id == id {
                proof {
                    lemma_find_at(self.intents@, i - 1);
                }
                return Some(i - 1);
            }
            i = i - 1;
        }
        assert(self.intents@.take(0) =~= Seq::<Intent>::empty());
        None
    }

    /// The intent recorded under `id`, if any.
    pub fn get(&self, intent_id: Uuid) -> (r: Result<Option<Intent>, ExecError>)
        requires
            self.wf(),
        ensures
            r == Ok::<Option<Intent>, ExecError>(self.lookup(intent_id)),
    {
        match self.position_of(intent_id) {
            Some(j) => Ok(Some(self.intents[j].clone())),
            None => Ok(None),
        }
    }

    /// Whether the intent was already processed (executing or completed).
    pub fn is_processed(&self, intent_id: Uuid) -> (r: Result<bool, ExecError>)
        requires
            self.wf(),
        ensures
            r == Ok::<bool, ExecError>(self.lookup(intent_id) matches Some(i) && i.status
                != IntentStatus::Pending),
    {
        match self.position_of(intent_id) {
            Some(j) => Ok(!self.intents[j].is_pending()),
            None => Ok(false),
        }
    }

    /// Mark the intent as executing.
    pub fn mark_executing(&mut self, intent_id: Uuid) -> (r: Result<(), ExecError>)
        requires
            old(self).wf(),
        ensures
            final(self).wf(),
            old(self).lookup(intent_id) is None ==> (r matches Err(ExecError::IntentJournal(m))
                && m@ == "Intent not found: "@ + uuid_text_spec(intent_id)) && final(self).entries()
                == old(self).entries(),
            old(self).lookup(intent_id) matches Some(i) ==> r is Ok && forall|k: Uuid|
                #![trigger final(self).lookup(k)]
                final(self).lookup(k) == (if k == intent_id {
                    Some(Intent { status: IntentStatus::Executing, ..i })
                } else {
                    old(self).lookup(k)
                }),
    {
        match self.position_of(intent_id) {
            None => {
                let mut m = owned("Intent not found: ");
                m.append(uuid_text(intent_id).as_str());
                Err(ExecError::IntentJournal(m))
            },
            Some(j) => {
                let mut it = self.intents[j].clone();
                it.status = IntentStatus::Executing;
                let ghost before = self.intents@;
                self.intents.set(j, it);
                proof {
                    assert forall|k: Uuid| #![trigger find_intent(self.intents@, k)]
                        find_intent(self.intents@, k) == (if k == intent_id {
                            Some(it)
                        } else {
                            find_intent(before, k)
                        }) by {
                        lemma_find_update(before, j as int, it, k);
                    }
                    assert forall|a: int, b: int| 0 <= a < b < self.intents@.len() implies self.intents@[a].id != self.intents@[b].id by {
                        assert(before[a].id != before[b].id);
                    }
                }
                Ok(())
            },
        }
    }

    /// Complete the intent with its result, stamped now.
    pub fn complete(&mut self, intent_id: Uuid, result: IntentResult) -> (r: Result<(), ExecError>)
        requires
            old(self).wf(),
        ensures
            final(self).wf(),
            old(self).lookup(intent_id) is None ==> (r matches Err(ExecError::IntentJournal(m))
                && m@ == "Intent not found: "@ + uuid_text_spec(intent_id)) && final(self).entries()
                == old(self).entries(),
            old(self).lookup(intent_id) matches Some(i) ==> r is Ok && (final(self).lookup(
                intent_id,
            ) matches Some(n) && n == (Intent {
                status: IntentStatus::Completed,
                completed_at: n.completed_at,
                result: Some(result),
                ..i
            }) && n.completed_at is Some) && forall|k: Uuid|
                #![trigger final(self).lookup(k)]
                k != intent_id ==> final(self).lookup(k) == old(self).lookup(k),
    {
        match self.position_of(intent_id) {
            None => {
                let mut m = owned("Intent not found: ");
                m.append(uuid_text(intent_id).as_str());
                Err(ExecError::IntentJournal(m))
            },
            Some(j) => {
                let mut it = self.intents[j].clone();
                it.status = IntentStatus::Completed;
                it.completed_at = Some(now_millis());
                it.result = Some(result);
                let ghost before = self.intents@;
                self.intents.set(j, it);
                proof {
                    assert forall|k: Uuid| #![trigger find_intent(self.intents@, k)]
                        find_intent(self.intents@, k) == (if k == intent_id {
                            Some(it)
                        } else {
                            find_intent(before, k)
                        }) by {
                        lemma_find_update(before, j as int, it, k);
                    }
                    assert forall|a: int, b: int| 0 <= a < b < self.intents@.len() implies self.intents@[a].id != self.intents@[b].id by {
                        assert(before[a].id != before[b].id);
                    }
                }
                Ok(())
            },
        }
    }

    /// The pending intents (for recovery on restart), in recording order.
    pub fn get_pending(&self) -> (r: Result<Vec<Intent>, ExecError>)
        ensures
            r matches Ok(v) && v@ == intents_where(
                self.entries(),
                |i: Intent| i.status == IntentStatus::Pending,
            ),
    {
        let mut out: Vec<Intent> = Vec::new();
        let n = self.intents.len();
        let mut i: usize = 0;
        while i < n
            invariant
                n == self.intents@.len(),
                i <= n,
                out@ == intents_where(
                    self.intents@.take(i as int),
                    |i: Intent| i.status == IntentStatus::Pending,
                ),
            decreases n - i,
        {
            proof {
                assert(self.intents@.take(i + 1).drop_last() =~= self.intents@.take(i as int));
            }
            if self.intents[i].is_pending() {
                out.push(self.intents[i].clone());
            }
            i = i + 1;
        }
        assert(self.intents@.take(n as int) =~= self.intents@);
        Ok(out)
    }

    /// The intents of a position, in recording order.
    pub fn get_by_position(&self, position_id: PositionId) -> (r: Result<Vec<Intent>, ExecError>)
        ensures
            r matches Ok(v) && v@ == intents_where(
                self.entries(),
                |i: Intent| i.position_id == position_id,
            ),
    {
        let mut out: Vec<Intent> = Vec::new();
        let n = self.intents.len();
        let mut i: usize = 0;
        while i < n
            invariant
                n == self.intents@.len(),
                i <= n,
                out@ == intents_where(
                    self.intents@.take(i as int),
                    |i: Intent| i.position_id == position_id,
                ),
            decreases n - i,
        {
            proof {
                assert(self.intents@.take(i + 1).drop_last() =~= self.intents@.take(i as int));
            }
            if self.intents[i].position_id == position_id {
                out.push(self.intents[i].clone());
            }
            i = i + 1;
        }
        assert(self.intents@.take(n as int) =~= self.intents@);
        Ok(out)
    }

    /// Forget every intent.
    pub fn clear(&mut self)
        ensures
            final(self).wf(),
            final(self).entries().len() == 0,
    {
        self.intents = Vec::new();
    }
}

} // verus!
