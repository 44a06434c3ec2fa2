//! What is kept of a span while it is open, and what becomes of it when it closes.

use crate::model::{Span, SpanContext as Surroundings, Tags, Transaction, TransactionContext};
use crate::text::{decimal, decimal_text};
use vstd::prelude::*;

verus! {

/// The longest time that can be added up, in nanoseconds: that of `std::time::Duration`.
pub const MAX_DURATION_NANOS: u128 = 18446744073709551615999999999;

/// The type of every span and transaction.
pub const CUSTOM_TYPE: &'static str = "custom";

/// The trace that a span belongs to.
#[derive(Copy, Clone)]
pub struct TraceContext {
    pub trace_id: u128,
}

/// How a span's time was spent, in nanoseconds.
#[derive(Copy, Clone)]
pub struct SpanContext {
    /// Time spent outside the span since it was opened.
    pub idle: u128,
    /// Time spent inside the span.
    pub busy: u128,
    /// When the span was last opened, entered or exited, on a monotonic clock.
    pub instant: u128,
    /// When the span was first entered, in microseconds since the Unix epoch.
    pub first_entered_timestamp: Option<u64>,
}

/// The time from `from` to `to` on a monotonic clock; none, if the clock went back.
pub open spec fn elapsed(from: u128, to: u128) -> u128 {
    if from <= to {
        (to - from) as u128
    } else {
        0
    }
}

fn elapsed_nanos(from: u128, to: u128) -> (nanos: u128)
    ensures
        nanos == elapsed(from, to),
{
    if from <= to {
        to - from
    } else {
        0
    }
}

impl SpanContext {
    /// No time spent, as of `instant`.
    pub fn new(instant: u128) -> (context: SpanContext)
        ensures
            context == (SpanContext { idle: 0, busy: 0, instant, first_entered_timestamp: None }),
    {
        SpanContext { idle: 0, busy: 0, instant, first_entered_timestamp: None }
    }

    /// This context after the span is entered at `instant`, which is `timestamp` by the wall
    /// clock. The time up to `read`, when the clock is read once more, counts as idle.
    pub open spec fn entered(self, instant: u128, read: u128, timestamp: u64) -> SpanContext {
        SpanContext {
            idle: (self.idle + elapsed(self.instant, read)) as u128,
            busy: self.busy,
            instant,
            first_entered_timestamp: match self.first_entered_timestamp {
                Some(first) => Some(first),
                None => Some(timestamp),
            },
        }
    }

    /// This context after the span is exited at `instant`. The time up to `read`, when the clock
    /// is read once more, counts as busy.
    pub open spec fn exited(self, instant: u128, read: u128) -> SpanContext {
        SpanContext {
            idle: self.idle,
            busy: (self.busy + elapsed(self.instant, read)) as u128,
            instant,
            first_entered_timestamp: self.first_entered_timestamp,
        }
    }

    /// The span is entered.
    pub fn enter(&mut self, instant: u128, read: u128, timestamp: u64)
        requires
            old(self).idle + elapsed(old(self).instant, read) <= MAX_DURATION_NANOS,
        ensures
            *final(self) == old(self).entered(instant, read, timestamp),
    {
        self.idle = self.idle + elapsed_nanos(self.instant, read);
        self.instant = instant;
        if self.first_entered_timestamp.is_none() {
            self.first_entered_timestamp = Some(timestamp);
        }
    }

    /// The span is exited.
    pub fn exit(&mut self, instant: u128, read: u128)
        requires
            old(self).busy + elapsed(old(self).instant, read) <= MAX_DURATION_NANOS,
        ensures
            *final(self) == old(self).exited(instant, read),
    {
        self.busy = self.busy + elapsed_nanos(self.instant, read);
        self.instant = instant;
    }
}

/// What is reported of a span when it closes: a span within a transaction, or a transaction of its
/// own.
pub enum SpanRecord {
    Span(Span),
    Transaction(Transaction),
}

/// What is kept of a span from when it is opened.
pub struct OpenSpan {
    pub timing: SpanContext,
    pub trace: TraceContext,
    pub record: SpanRecord,
}

/// The span `id` with the name `name` was opened at `now` and `instant`, with a parent: it is a
/// span in the parent's trace, nested under the parent.
pub open spec fn is_child(
    open: OpenSpan,
    id: u64,
    name: Seq<char>,
    now: u64,
    instant: u128,
    parent_id: u64,
    parent_trace: TraceContext,
) -> bool {
    &&& open.timing == (SpanContext { idle: 0, busy: 0, instant, first_entered_timestamp: None })
    &&& open.trace == parent_trace
    &&& open.record matches SpanRecord::Span(span) && {
        &&& span.id@ == decimal(id as nat)
        &&& span.trace_id@ == decimal(parent_trace.trace_id as nat)
        &&& span.parent_id@ == decimal(parent_id as nat)
        &&& span.timestamp == now
        &&& span.name@ == name
        &&& span.span_type@ == CUSTOM_TYPE@
        &&& span.duration == 0
        &&& span.context is None
    }
}

/// An optional id as a document holds it: the numeral of the id, or nothing.
pub open spec fn holds_id(text: Option<String>, id: Option<u64>) -> bool {
    match (text, id) {
        (Some(text), Some(id)) => text@ == decimal(id as nat),
        (None, None) => true,
        _ => false,
    }
}

/// The span `id` with the name `name` was opened at `now` and `instant`, without a parent: it is a
/// transaction in the trace `trace`, nested under the span `parent_id` if there is one.
pub open spec fn is_root(
    open: OpenSpan,
    id: u64,
    name: Seq<char>,
    now: u64,
    instant: u128,
    trace: TraceContext,
    parent_id: Option<u64>,
) -> bool {
    &&& open.timing == (SpanContext { idle: 0, busy: 0, instant, first_entered_timestamp: None })
    &&& open.trace == trace
    &&& open.record matches SpanRecord::Transaction(transaction) && {
        &&& transaction.id@ == decimal(id as nat)
        &&& transaction.trace_id@ == decimal(trace.trace_id as nat)
        &&& holds_id(transaction.parent_id, parent_id)
        &&& transaction.timestamp == now
        &&& transaction.name matches Some(text) && text@ == name
        &&& transaction.transaction_type@ == CUSTOM_TYPE@
        &&& transaction.duration == 0
        &&& transaction.context is None
    }
}

/// Opens a span that has a parent.
pub fn open_child(
    id: u64,
    name: &str,
    now: u64,
    instant: u128,
    parent_id: u64,
    parent_trace: TraceContext,
) -> (open: OpenSpan)
    ensures
        is_child(open, id, name@, now, instant, parent_id, parent_trace),
{
    OpenSpan {
        timing: SpanContext::new(instant),
        trace: parent_trace,
        record: SpanRecord::Span(
            Span {
                id: decimal_text(id as u128),
                trace_id: decimal_text(parent_trace.trace_id),
                parent_id: decimal_text(parent_id as u128),
                timestamp: now,
                name: name.to_string(),
                span_type: CUSTOM_TYPE.to_string(),
                duration: 0,
                context: None,
            },
        ),
    }
}

/// Opens a span that has no parent, as a transaction in the trace `trace`.
///
/// With a `parent_id` it is a child transaction: it has its own id and latency, and is nested
/// under that span.
pub fn open_root(
    id: u64,
    name: &str,
    now: u64,
    instant: u128,
    trace: TraceContext,
    parent_id: Option<u64>,
) -> (open: OpenSpan)
    ensures
        is_root(open, id, name@, now, instant, trace, parent_id),
{
    OpenSpan {
        timing: SpanContext::new(instant),
        trace,
        record: SpanRecord::Transaction(
            Transaction {
                id: decimal_text(id as u128),
                trace_id: decimal_text(trace.trace_id),
                parent_id: match parent_id {
                    Some(parent_id) => Some(decimal_text(parent_id as u128)),
                    None => None,
                },
                timestamp: now,
                name: Some(name.to_string()),
                transaction_type: CUSTOM_TYPE.to_string(),
                duration: 0,
                context: None,
            },
        ),
    }
}

/// When the work of a span began: when it was first entered, or, if it never was, when it was
/// opened.
pub open spec fn began(first_entered_timestamp: Option<u64>, opened: u64) -> u64 {
    match first_entered_timestamp {
        Some(first) => first,
        None => opened,
    }
}

impl SpanRecord {
    /// When the span was opened, until it closes; from then on, when its work began.
    pub open spec fn spec_timestamp(self) -> u64 {
        match self {
            SpanRecord::Span(span) => span.timestamp,
            SpanRecord::Transaction(transaction) => transaction.timestamp,
        }
    }

    /// The id of the document.
    pub open spec fn id(self) -> Seq<char> {
        match self {
            SpanRecord::Span(span) => span.id@,
            SpanRecord::Transaction(transaction) => transaction.id@,
        }
    }

    /// The id of the trace that the document is in.
    pub open spec fn trace_id(self) -> Seq<char> {
        match self {
            SpanRecord::Span(span) => span.trace_id@,
            SpanRecord::Transaction(transaction) => transaction.trace_id@,
        }
    }

    /// The id of the document that this one is nested under.
    pub open spec fn parent_id(self) -> Option<Seq<char>> {
        match self {
            SpanRecord::Span(span) => Some(span.parent_id@),
            SpanRecord::Transaction(transaction) => match transaction.parent_id {
                Some(parent_id) => Some(parent_id@),
                None => None,
            },
        }
    }

    /// The record of a span that closes at `now`, with the tags `tags`.
    pub open spec fn closed(
        self,
        first_entered_timestamp: Option<u64>,
        now: u64,
        tags: Option<Tags>,
    ) -> SpanRecord {
        let timestamp = began(first_entered_timestamp, self.spec_timestamp());
        let duration = (now - timestamp) as u64;
        match self {
            SpanRecord::Span(span) => SpanRecord::Span(
                Span {
                    timestamp,
                    duration,
                    context: match tags {
                        Some(tags) => Some(Surroundings { tags: Some(tags) }),
                        None => span.context,
                    },
                    ..span
                },
            ),
            SpanRecord::Transaction(transaction) => SpanRecord::Transaction(
                Transaction {
                    timestamp,
                    duration,
                    context: match tags {
                        Some(tags) => Some(TransactionContext { tags: Some(tags) }),
                        None => transaction.context,
                    },
                    ..transaction
                },
            ),
        }
    }

    /// When the span was opened, until it closes; from then on, when its work began.
    pub fn timestamp(&self) -> (timestamp: u64)
        ensures
            timestamp == self.spec_timestamp(),
    {
        match self {
            SpanRecord::Span(span) => span.timestamp,
            SpanRecord::Transaction(transaction) => transaction.timestamp,
        }
    }

    /// Closes the record at `now`: its time is now when the work began, and its duration is the
    /// time since. Tags, if there are any, take the place of those it had.
    pub fn close(
        self,
        first_entered_timestamp: Option<u64>,
        now: u64,
        tags: Option<Tags>,
    ) -> (record: SpanRecord)
        requires
            began(first_entered_timestamp, self.spec_timestamp()) <= now,
        ensures
            record == self.closed(first_entered_timestamp, now, tags),
    {
        let timestamp: u64 = match first_entered_timestamp {
            Some(first) => first,
            None => self.timestamp(),
        };
        match self {
            SpanRecord::Span(mut span) => {
                span.timestamp = timestamp;
                span.duration = now - timestamp;
                if let Some(tags) = tags {
                    span.context = Some(Surroundings { tags: Some(tags) });
                }
                SpanRecord::Span(span)
            },
            SpanRecord::Transaction(mut transaction) => {
                transaction.timestamp = timestamp;
                transaction.duration = now - timestamp;
                if let Some(tags) = tags {
                    transaction.context = Some(TransactionContext { tags: Some(tags) });
                }
                SpanRecord::Transaction(transaction)
            },
        }
    }
}

} // verus!
