//! What the append-only event log decides before it talks to the database:
//! the SQL text of a query with its numbered parameters and the values bound
//! to them, and the next
//! sequence number of a stream under optimistic concurrency.

use vstd::prelude::*;

use crate::ids::{Timestamp, Uuid};
use crate::text::{decimal_digits, owned, str_eq, usize_text};

verus! {

/// Errors of the event log's own decisions.
#[derive(Debug, Clone, PartialEq)]
pub enum EventLogError {
    /// The stream's sequence is not the one expected
    ConcurrentModification {
        /// Expected last sequence
        expected: i64,
        /// Actual last sequence
        actual: i64,
    },
    /// The stream does not exist
    StreamNotFound(String),
    /// The event was already appended (its existing id)
    IdempotentDuplicate(Uuid),
}

/// Options of an event query.
#[derive(Debug, Clone)]
pub struct QueryOptions {
    /// Tenant (required)
    pub tenant_id: Uuid,
    /// Stream key
    pub stream_key: Option<String>,
    /// Event type
    pub event_type: Option<String>,
    /// Start time (inclusive)
    pub from_time: Option<Timestamp>,
    /// End time (exclusive)
    pub to_time: Option<Timestamp>,
    /// Start sequence (inclusive)
    pub from_seq: Option<i64>,
    /// End sequence (exclusive)
    pub to_seq: Option<i64>,
    /// Trace ID
    pub trace_id: Option<Uuid>,
    /// Command ID
    pub command_id: Option<Uuid>,
    /// Workflow ID
    pub workflow_id: Option<Uuid>,
    /// Result limit
    pub limit: Option<i64>,
    /// Ascending (true) or descending (false) by occurrence time
    pub ascending: bool,
}

impl QueryOptions {
    /// Options for a tenant: no filter, ascending, no limit.
    pub fn new(tenant_id: Uuid) -> (r: QueryOptions)
        ensures
            r.tenant_id == tenant_id,
            r.stream_key is None && r.event_type is None && r.from_time is None && r.to_time is None,
            r.from_seq is None && r.to_seq is None && r.trace_id is None && r.command_id is None,
            r.workflow_id is None && r.limit is None && r.ascending,
    {
        QueryOptions {
            tenant_id,
            stream_key: None,
            event_type: None,
            from_time: None,
            to_time: None,
            from_seq: None,
            to_seq: None,
            trace_id: None,
            command_id: None,
            workflow_id: None,
            limit: None,
            ascending: true,
        }
    }

    /// Filter by stream key.
    pub fn stream(self, stream_key: &str) -> (r: QueryOptions)
        ensures
            r.stream_key matches Some(s) && s@ == stream_key@,
            r == (QueryOptions { stream_key: r.stream_key, ..self }),
    {
        let mut o = self;
        o.stream_key = Some(owned(stream_key));
        o
    }

    /// Filter by event type.
    pub fn event_type(self, event_type: &str) -> (r: QueryOptions)
        ensures
            r.event_type matches Some(s) && s@ == event_type@,
            r == (QueryOptions { event_type: r.event_type, ..self }),
    {
        let mut o = self;
        o.event_type = Some(owned(event_type));
        o
    }

    /// Filter by time range.
    pub fn time_range(self, from: Timestamp, to: Timestamp) -> (r: QueryOptions)
        ensures
            r == (QueryOptions { from_time: Some(from), to_time: Some(to), ..self }),
    {
        let mut o = self;
        o.from_time = Some(from);
        o.to_time = Some(to);
        o
    }

    /// Filter by sequence range.
    pub fn seq_range(self, from: i64, to: i64) -> (r: QueryOptions)
        ensures
            r == (QueryOptions { from_seq: Some(from), to_seq: Some(to), ..self }),
    {
        let mut o = self;
        o.from_seq = Some(from);
        o.to_seq = Some(to);
        o
    }

    /// Filter by trace ID.
    pub fn trace(self, trace_id: Uuid) -> (r: QueryOptions)
        ensures
            r == (QueryOptions { trace_id: Some(trace_id), ..self }),
    {
        let mut o = self;
        o.trace_id = Some(trace_id);
        o
    }

    /// Limit the number of results.
    pub fn limit(self, limit: i64) -> (r: QueryOptions)
        ensures
            r == (QueryOptions { limit: Some(limit), ..self }),
    {
        let mut o = self;
        o.limit = Some(limit);
        o
    }

    /// Sort descending by time.
    pub fn descending(self) -> (r: QueryOptions)
        ensures
            r == (QueryOptions { ascending: false, ..self }),
    {
        let mut o = self;
        o.ascending = false;
        o
    }
}

/// The query text so far and the number of parameters it binds, after a
/// filter that is added only when `present`: `" AND {condition}${n}"`.
pub open spec fn with_filter(acc: (Seq<char>, nat), present: bool, condition: Seq<char>) -> (
    Seq<char>,
    nat,
) {
    if present {
        (acc.0 + " AND "@ + condition + "$"@ + decimal_digits(acc.1 + 1), acc.1 + 1)
    } else {
        acc
    }
}

/// The filters of the query, in order, after the tenant (`$1`).
pub open spec fn filtered(o: QueryOptions) -> (Seq<char>, nat) {
    let a0 = ("SELECT * FROM event_log WHERE tenant_id = $1"@, 1nat);
    let a1 = with_filter(a0, o.stream_key is Some, "stream_key = "@);
    let a2 = with_filter(a1, o.event_type is Some, "event_type = "@);
    let a3 = with_filter(a2, o.from_time is Some, "occurred_at >= "@);
    let a4 = with_filter(a3, o.to_time is Some, "occurred_at < "@);
    let a5 = with_filter(a4, o.from_seq is Some, "seq >= "@);
    let a6 = with_filter(a5, o.to_seq is Some, "seq < "@);
    let a7 = with_filter(a6, o.trace_id is Some, "trace_id = "@);
    let a8 = with_filter(a7, o.command_id is Some, "command_id = "@);
    with_filter(a8, o.workflow_id is Some, "workflow_id = "@)
}

/// The SQL of the query: the filters present, numbered from `$2` in the
/// order stream, type, time range, sequence range, trace, command,
/// workflow; then the order by time and sequence; then the limit.
pub open spec fn spec_query_sql(o: QueryOptions) -> Seq<char> {
    let f = filtered(o);
    let order = if o.ascending {
        "ASC"@
    } else {
        "DESC"@
    };
    let ordered = f.0 + " ORDER BY occurred_at "@ + order + ", seq "@ + order;
    if o.limit is Some {
        ordered + " LIMIT $"@ + decimal_digits(f.1 + 1)
    } else {
        ordered
    }
}

/// Add a filter when present.
fn add_filter(query: &mut String, count: &mut usize, present: bool, condition: &str)
    requires
        *old(count) < 100,
    ensures
        (final(query)@, *final(count) as nat) == with_filter(
            (old(query)@, *old(count) as nat),
            present,
            condition@,
        ),
        *final(count) <= *old(count) + 1,
{
    if present {
        *count = *count + 1;
        query.append(" AND ");
        query.append(condition);
        query.append("$");
        query.append(usize_text(*count).as_str());
    }
}

/// The filters of the query.
fn query_filters(options: &QueryOptions) -> (r: (String, usize))
    ensures
        (r.0@, r.1 as nat) == filtered(*options),
        r.1 <= 10,
{
    let mut q = owned("SELECT * FROM event_log WHERE tenant_id = $1");
    let mut n: usize = 1;
    let ghost o = *options;
    let ghost a0 = ("SELECT * FROM event_log WHERE tenant_id = $1"@, 1nat);
    add_filter(&mut q, &mut n, options.stream_key.is_some(), "stream_key = ");
    let ghost a1 = with_filter(a0, o.stream_key is Some, "stream_key = "@);
    assert((q@, n as nat) == a1);
    add_filter(&mut q, &mut n, options.event_type.is_some(), "event_type = ");
    let ghost a2 = with_filter(a1, o.event_type is Some, "event_type = "@);
    assert((q@, n as nat) == a2);
    add_filter(&mut q, &mut n, options.from_time.is_some(), "occurred_at >= ");
    let ghost a3 = with_filter(a2, o.from_time is Some, "occurred_at >= "@);
    assert((q@, n as nat) == a3);
    add_filter(&mut q, &mut n, options.to_time.is_some(), "occurred_at < ");
    let ghost a4 = with_filter(a3, o.to_time is Some, "occurred_at < "@);
    assert((q@, n as nat) == a4);
    add_filter(&mut q, &mut n, options.from_seq.is_some(), "seq >= ");
    let ghost a5 = with_filter(a4, o.from_seq is Some, "seq >= "@);
    assert((q@, n as nat) == a5);
    add_filter(&mut q, &mut n, options.to_seq.is_some(), "seq < ");
    let ghost a6 = with_filter(a5, o.to_seq is Some, "seq < "@);
    assert((q@, n as nat) == a6);
    add_filter(&mut q, &mut n, options.trace_id.is_some(), "trace_id = ");
    let ghost a7 = with_filter(a6, o.trace_id is Some, "trace_id = "@);
    assert((q@, n as nat) == a7);
    add_filter(&mut q, &mut n, options.command_id.is_some(), "command_id = ");
    let ghost a8 = with_filter(a7, o.command_id is Some, "command_id = "@);
    assert((q@, n as nat) == a8);
    add_filter(&mut q, &mut n, options.workflow_id.is_some(), "workflow_id = ");
    (q, n)
}

/// The SQL text of the query.
pub fn query_sql(options: &QueryOptions) -> (r: String)
    ensures
        r@ == spec_query_sql(*options),
{
    let (mut q, n) = query_filters(options);
    let order = if options.ascending {
        "ASC"
    } else {
        "DESC"
    };
    q.append(" ORDER BY occurred_at ");
    q.append(order);
    q.append(", seq ");
    q.append(order);
    if options.limit.is_some() {
        q.append(" LIMIT $");
        q.append(usize_text(n + 1).as_str());
    }
    q
}

/// The next sequence number of a stream when the caller expects its last
/// sequence to be `expected`: the one after the current, when they agree; 1
/// for a new stream when 0 was expected.
pub fn next_seq_checked(stream_key: &str, expected: i64, current: Option<i64>) -> (r: Result<
    i64,
    EventLogError,
>)
    requires
        current matches Some(c) ==> c < i64::MAX,
    ensures
        match current {
            Some(c) => if c == expected {
                r matches Ok(v) && v == c + 1
            } else {
                r == Err::<i64, EventLogError>(
                    EventLogError::ConcurrentModification { expected, actual: c },
                )
            },
            None => if expected == 0 {
                r == Ok::<i64, EventLogError>(1)
            } else {
                r matches Err(EventLogError::StreamNotFound(s)) && s@ == stream_key@
            },
        },
{
    match current {
        Some(c) => if c == expected {
            Ok(c + 1)
        } else {
            Err(EventLogError::ConcurrentModification { expected, actual: c })
        },
        None => if expected == 0 {
            Ok(1)
        } else {
            Err(EventLogError::StreamNotFound(owned(stream_key)))
        },
    }
}

/// Whether a database error code is a unique constraint violation (23505).
pub fn is_unique_violation(code: Option<&str>) -> (r: bool)
    ensures
        r == (code matches Some(c) && c@ == "23505"@),
{
    match code {
        Some(c) => str_eq(c, "23505"),
        None => false,
    }
}

/// A value bound to a numbered parameter of a query.
#[derive(Debug, Clone, PartialEq)]
pub enum BindValue {
    /// A UUID (tenant, trace, command, workflow)
    Id(Uuid),
    /// A text (stream key, event type)
    Text(String),
    /// A time (range bounds)
    Time(Timestamp),
    /// A number (sequence bounds, limit)
    Number(i64),
}

/// `values` with `v` added when `v` is given.
pub open spec fn push_some(values: Seq<BindValue>, v: Option<BindValue>) -> Seq<BindValue> {
    match v {
        Some(x) => values.push(x),
        None => values,
    }
}

/// The values bound to `$1, $2, ...` of `spec_query_sql(o)`, in order: the
/// tenant, then each filter that is present in the order stream, type, time
/// range, sequence range, trace, command, workflow, then the limit.
pub open spec fn spec_bindings(o: QueryOptions) -> Seq<BindValue> {
    let b1 = push_some(seq![BindValue::Id(o.tenant_id)], match o.stream_key {
        Some(k) => Some(BindValue::Text(k)),
        None => None,
    });
    let b2 = push_some(b1, match o.event_type {
        Some(t) => Some(BindValue::Text(t)),
        None => None,
    });
    let b3 = push_some(b2, match o.from_time {
        Some(t) => Some(BindValue::Time(t)),
        None => None,
    });
    let b4 = push_some(b3, match o.to_time {
        Some(t) => Some(BindValue::Time(t)),
        None => None,
    });
    let b5 = push_some(b4, match o.from_seq {
        Some(n) => Some(BindValue::Number(n)),
        None => None,
    });
    let b6 = push_some(b5, match o.to_seq {
        Some(n) => Some(BindValue::Number(n)),
        None => None,
    });
    let b7 = push_some(b6, match o.trace_id {
        Some(u) => Some(BindValue::Id(u)),
        None => None,
    });
    let b8 = push_some(b7, match o.command_id {
        Some(u) => Some(BindValue::Id(u)),
        None => None,
    });
    let b9 = push_some(b8, match o.workflow_id {
        Some(u) => Some(BindValue::Id(u)),
        None => None,
    });
    push_some(b9, match o.limit {
        Some(n) => Some(BindValue::Number(n)),
        None => None,
    })
}

/// Add `x` when it is given.
fn push_bind(values: &mut Vec<BindValue>, x: Option<BindValue>)
    ensures
        final(values)@ == push_some(old(values)@, x),
{
    match x {
        Some(b) => values.push(b),
        None => {},
    }
}

/// The values to bind to the query's parameters, in placeholder order; their
/// number is the highest placeholder of `query_sql`.
pub fn query_bindings(options: &QueryOptions) -> (r: Vec<BindValue>)
    ensures
        r@ == spec_bindings(*options),
        r@.len() == filtered(*options).1 + (if options.limit is Some {
            1int
        } else {
            0int
        }),
{
    let ghost o = *options;
    let mut v: Vec<BindValue> = Vec::new();
    v.push(BindValue::Id(options.tenant_id));
    assert(v@ =~= seq![BindValue::Id(o.tenant_id)]);
    push_bind(&mut v, match &options.stream_key {
        Some(k) => Some(BindValue::Text(k.clone())),
        None => None,
    });
    push_bind(&mut v, match &options.event_type {
        Some(t) => Some(BindValue::Text(t.clone())),
        None => None,
    });
    push_bind(&mut v, match options.from_time {
        Some(t) => Some(BindValue::Time(t)),
        None => None,
    });
    push_bind(&mut v, match options.to_time {
        Some(t) => Some(BindValue::Time(t)),
        None => None,
    });
    push_bind(&mut v, match options.from_seq {
        Some(n) => Some(BindValue::Number(n)),
        None => None,
    });
    push_bind(&mut v, match options.to_seq {
        Some(n) => Some(BindValue::Number(n)),
        None => None,
    });
    push_bind(&mut v, match options.trace_id {
        Some(u) => Some(BindValue::Id(u)),
        None => None,
    });
    push_bind(&mut v, match options.command_id {
        Some(u) => Some(BindValue::Id(u)),
        None => None,
    });
    push_bind(&mut v, match options.workflow_id {
        Some(u) => Some(BindValue::Id(u)),
        None => None,
    });
    push_bind(&mut v, match options.limit {
        Some(n) => Some(BindValue::Number(n)),
        None => None,
    });
    v
}

} // verus!
