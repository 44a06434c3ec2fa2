//! What is reported of a span.

use crate::fields::{fields_of, Fields};
use crate::json::Json;
use crate::layer::{carries_record, is_drawn, law_new_traces_are_drawn, ApmLayer, Callsite};
use crate::model::{Batch, Error, Metadata, Span, Tags, Transaction};
use crate::outcomes::metadata::{comes_with, lemma_event_metadata_comes_with, Particulars};
use crate::outcomes::numerals::{is_numeral, law_decimal_is_the_numeral};
use crate::outcomes::tags::{any_kept, lemma_tagged_shows, show, show_if_any};
use crate::span::{open_child, open_root, OpenSpan, SpanContext, SpanRecord, TraceContext};
use crate::tags::tagged;
use crate::visitor::{RootLinkVisitor, ToVisited};
use vstd::prelude::*;

verus! {

/// Nothing was timed yet, as of `instant`.
pub open spec fn is_fresh(timing: SpanContext, instant: u128) -> bool {
    &&& timing.idle == 0
    &&& timing.busy == 0
    &&& timing.instant == instant
    &&& timing.first_entered_timestamp is None
}

/// `open` is a span with the given id and name in the trace of its parent, under its parent.
pub open spec fn is_span_of(
    open: OpenSpan,
    id: u64,
    name: Seq<char>,
    now: u64,
    instant: u128,
    parent_id: u64,
    trace: TraceContext,
) -> bool {
    &&& is_fresh(open.timing, instant)
    &&& open.trace.trace_id == trace.trace_id
    &&& open.record matches SpanRecord::Span(span) && {
        &&& is_numeral(span.id@, id as int)
        &&& is_numeral(span.trace_id@, trace.trace_id as int)
        &&& is_numeral(span.parent_id@, parent_id as int)
        &&& span.name@ == name
        &&& span.span_type@ == "custom"@
        &&& span.timestamp == now
        &&& span.duration == 0
        &&& span.context is None
    }
}

/// `open` is a transaction with the given id and name in the trace that is kept with it, under
/// the span `parent_id` if there is one.
pub open spec fn is_transaction_of(
    open: OpenSpan,
    id: u64,
    name: Seq<char>,
    now: u64,
    instant: u128,
    parent_id: Option<u64>,
) -> bool {
    &&& is_fresh(open.timing, instant)
    &&& open.record matches SpanRecord::Transaction(transaction) && {
        &&& is_numeral(transaction.id@, id as int)
        &&& is_numeral(transaction.trace_id@, open.trace.trace_id as int)
        &&& transaction.parent_id is Some <==> parent_id is Some
        &&& parent_id matches Some(parent_id) ==> is_numeral(
            transaction.parent_id->0@,
            parent_id as int,
        )
        &&& transaction.name matches Some(text) && text@ == name
        &&& transaction.transaction_type@ == "custom"@
        &&& transaction.timestamp == now
        &&& transaction.duration == 0
        &&& transaction.context is None
    }
}

/// A span that is opened with a parent is a span of its own id and name, in the parent's trace and
/// under the parent, whatever it is linked to. One without a parent is a transaction of its own id
/// and name, in the trace and under the span that it is linked to; the id of a trace that it is not
/// linked to is drawn.
pub proof fn law_opening_keeps_id_and_name<T, U: ToVisited>(
    layer: ApmLayer<T, U>,
    id: u64,
    name: &str,
    now: u64,
    instant: u128,
    parent: Option<(u64, TraceContext)>,
    link: RootLinkVisitor,
    open: OpenSpan,
)
    requires
        call_ensures(
            ApmLayer::<T, U>::on_new_span,
            (&layer, id, name, now, instant, parent, &link),
            open,
        ),
    ensures
        parent matches Some((parent_id, trace)) ==> is_span_of(
            open,
            id,
            name@,
            now,
            instant,
            parent_id,
            trace,
        ),
        parent is None ==> is_transaction_of(open, id, name@, now, instant, link.parent_id),
        parent is None ==> (link.trace_id matches Some(trace_id) ==> open.trace.trace_id
            == trace_id),
        parent is None && link.trace_id is None ==> is_drawn(open.trace.trace_id),
{
    law_decimal_is_the_numeral(id as nat);
    law_decimal_is_the_numeral(open.trace.trace_id as nat);
    if let Some((parent_id, trace)) = parent {
        law_decimal_is_the_numeral(parent_id as nat);
    } else if link.trace_id is None {
        law_new_traces_are_drawn(layer, id, name, now, instant, link, open);
    }
    if let Some(parent_id) = link.parent_id {
        law_decimal_is_the_numeral(parent_id as nat);
    }
}

/// What holds of spans that a layer opens holds of those that are opened by themselves.
pub proof fn law_documents_start_with_id_and_name(
    id: u64,
    name: &str,
    now: u64,
    instant: u128,
    parent_id: u64,
    trace: TraceContext,
    link: Option<u64>,
    open: OpenSpan,
)
    ensures
        call_ensures(open_child, (id, name, now, instant, parent_id, trace), open) ==> is_span_of(
            open,
            id,
            name@,
            now,
            instant,
            parent_id,
            trace,
        ),
        call_ensures(open_root, (id, name, now, instant, trace, link), open)
            ==> is_transaction_of(open, id, name@, now, instant, link) && open.trace.trace_id
            == trace.trace_id,
{
    law_decimal_is_the_numeral(id as nat);
    law_decimal_is_the_numeral(trace.trace_id as nat);
    law_decimal_is_the_numeral(parent_id as nat);
    if let Some(link) = link {
        law_decimal_is_the_numeral(link as nat);
    }
}

/// `after` is `before`, with the time at which the work began, the duration since, and a context
/// with what shows of `fields`, if anything does.
pub open spec fn is_span_closed(
    after: Span,
    before: Span,
    entered: Option<u64>,
    now: u64,
    fields: Map<Seq<char>, Json>,
) -> bool {
    &&& after.id@ == before.id@
    &&& after.trace_id@ == before.trace_id@
    &&& after.parent_id@ == before.parent_id@
    &&& after.name@ == before.name@
    &&& after.span_type@ == before.span_type@
    &&& entered matches Some(entered) ==> after.timestamp == entered
    &&& entered is None ==> after.timestamp == before.timestamp
    &&& after.timestamp <= now ==> after.duration == now - after.timestamp
    &&& any_kept(fields) ==> (after.context matches Some(context) && context.tags matches Some(tags)
        && show(fields_of(tags), fields))
    &&& !any_kept(fields) ==> after.context == before.context
}

/// `after` is `before`, with the time at which the work began, the duration since, and a context
/// with what shows of `fields`, if anything does.
pub open spec fn is_transaction_closed(
    after: Transaction,
    before: Transaction,
    entered: Option<u64>,
    now: u64,
    fields: Map<Seq<char>, Json>,
) -> bool {
    &&& after.id@ == before.id@
    &&& after.trace_id@ == before.trace_id@
    &&& after.parent_id == before.parent_id
    &&& after.name == before.name
    &&& after.transaction_type@ == before.transaction_type@
    &&& entered matches Some(entered) ==> after.timestamp == entered
    &&& entered is None ==> after.timestamp == before.timestamp
    &&& after.timestamp <= now ==> after.duration == now - after.timestamp
    &&& any_kept(fields) ==> (after.context matches Some(context) && context.tags matches Some(tags)
        && show(fields_of(tags), fields))
    &&& !any_kept(fields) ==> after.context == before.context
}

/// `batch` holds one document: what becomes of `record`.
pub open spec fn holds_closed(
    batch: Batch,
    record: SpanRecord,
    entered: Option<u64>,
    now: u64,
    fields: Map<Seq<char>, Json>,
) -> bool {
    &&& batch.error is None
    &&& match record {
        SpanRecord::Span(before) => batch.transaction is None && (batch.span matches Some(after)
            && is_span_closed(after, before, entered, now, fields)),
        SpanRecord::Transaction(before) => batch.span is None && (batch.transaction matches Some(
            after,
        ) && is_transaction_closed(after, before, entered, now, fields)),
    }
}

/// When `record` was opened.
pub open spec fn opened_at(record: SpanRecord) -> u64 {
    match record {
        SpanRecord::Span(span) => span.timestamp,
        SpanRecord::Transaction(transaction) => transaction.timestamp,
    }
}

/// What is told of a span that is closed.
pub open spec fn told_of(
    record: SpanRecord,
    timing: SpanContext,
    callsite: Callsite,
) -> Particulars {
    Particulars {
        callsite,
        timing,
        opened: Some(opened_at(record)),
        entered: timing.first_entered_timestamp,
    }
}

proof fn lemma_close_report<T, U: ToVisited>(
    layer: ApmLayer<T, U>,
    batch: Option<Batch>,
    timing: SpanContext,
    record: SpanRecord,
    now: u64,
    callsite: Callsite,
    fields: Map<Seq<char>, Json>,
)
    requires
        layer.is_close_report(batch, timing, Some(record), now, callsite, fields),
    ensures
        batch matches Some(batch) && {
            &&& holds_closed(batch, record, timing.first_entered_timestamp, now, fields)
            &&& comes_with(layer, batch.metadata, fields, told_of(record, timing, callsite))
        },
{
    let batch = batch->0;
    let entered = timing.first_entered_timestamp;
    let tags = choose|tags: Option<Tags>|
        tagged(tags, fields) && carries_record(batch, #[trigger] record.closed(entered, now, tags));
    lemma_tagged_shows(tags, fields);
    lemma_event_metadata_comes_with(
        layer,
        batch.metadata,
        fields,
        told_of(record, timing, callsite),
    );
}

/// A span that closes is reported exactly if a record was kept with it, whatever its level, its
/// timing and its fields: as one document, which is the record with its time and its tags. The
/// metadata tells of the span.
pub proof fn law_every_kept_record_is_reported<T, U: ToVisited>(
    layer: ApmLayer<T, U>,
    visited: Fields,
    timing: SpanContext,
    record: Option<SpanRecord>,
    now: u64,
    callsite: Callsite,
    batch: Option<Batch>,
)
    requires
        call_ensures(
            ApmLayer::<T, U>::report_close,
            (&layer, &visited, &timing, record, now, &callsite),
            batch,
        ),
    ensures
        batch is Some <==> record is Some,
        record matches Some(record) ==> {
            &&& batch is Some
            &&& holds_closed(
                batch->0,
                record,
                timing.first_entered_timestamp,
                now,
                fields_of(visited),
            )
            &&& comes_with(
                layer,
                batch->0.metadata,
                fields_of(visited),
                told_of(record, timing, callsite),
            )
        },
{
    if let Some(record) = record {
        lemma_close_report(layer, batch, timing, record, now, callsite, fields_of(visited));
    }
}

/// What holds of recorded fields holds of those that a visitor shows.
pub proof fn law_every_closed_span_is_reported<T, U: ToVisited>(
    layer: ApmLayer<T, U>,
    visitor: U,
    timing: SpanContext,
    record: Option<SpanRecord>,
    now: u64,
    callsite: Callsite,
    batch: Option<Batch>,
)
    requires
        call_ensures(
            ApmLayer::<T, U>::on_close,
            (&layer, &visitor, &timing, record, now, &callsite),
            batch,
        ),
    ensures
        batch is Some <==> record is Some,
        record matches Some(record) ==> exists|visited: Fields| #[trigger]
            call_ensures(U::to_visited, (&visitor,), &visited) && {
                &&& holds_closed(
                    batch->0,
                    record,
                    timing.first_entered_timestamp,
                    now,
                    fields_of(visited),
                )
                &&& comes_with(
                    layer,
                    batch->0.metadata,
                    fields_of(visited),
                    told_of(record, timing, callsite),
                )
            },
{
    let visited = choose|visited: Fields| #[trigger]
        call_ensures(U::to_visited, (&visitor,), &visited) && layer.is_close_report(
            batch,
            timing,
            record,
            now,
            callsite,
            fields_of(visited),
        );
    if let Some(record) = record {
        lemma_close_report(layer, batch, timing, record, now, callsite, fields_of(visited));
    }
}

/// From opening to closing, whatever the level: what is reported of a span has the id and the name
/// that it was opened with, and the id of the trace that was kept with it. It has the id of its
/// parent or, if it has none, of the span that it is linked to. It began when it was first entered
/// or, if it never was, when it was opened, and ended when it was closed.
pub proof fn law_a_span_is_reported_as_it_was_opened<T, U: ToVisited>(
    layer: ApmLayer<T, U>,
    id: u64,
    name: &str,
    opened: u64,
    instant: u128,
    parent: Option<(u64, TraceContext)>,
    link: RootLinkVisitor,
    open: OpenSpan,
    visitor: U,
    timing: SpanContext,
    closed: u64,
    callsite: Callsite,
    batch: Option<Batch>,
)
    requires
        call_ensures(
            ApmLayer::<T, U>::on_new_span,
            (&layer, id, name, opened, instant, parent, &link),
            open,
        ),
        call_ensures(
            ApmLayer::<T, U>::on_close,
            (&layer, &visitor, &timing, Some(open.record), closed, &callsite),
            batch,
        ),
    ensures
        batch is Some,
        batch->0.error is None,
        parent matches Some((parent_id, trace)) ==> {
            &&& batch->0.transaction is None
            &&& batch->0.span matches Some(span) && {
                &&& is_numeral(span.id@, id as int)
                &&& is_numeral(span.trace_id@, trace.trace_id as int)
                &&& is_numeral(span.parent_id@, parent_id as int)
                &&& span.name@ == name@
                &&& span.span_type@ == "custom"@
                &&& timing.first_entered_timestamp is None ==> span.timestamp == opened
                &&& timing.first_entered_timestamp matches Some(entered) ==> span.timestamp
                    == entered
                &&& span.timestamp <= closed ==> span.timestamp + span.duration == closed
            }
        },
        parent is None ==> {
            &&& batch->0.span is None
            &&& batch->0.transaction matches Some(transaction) && {
                &&& is_numeral(transaction.id@, id as int)
                &&& is_numeral(transaction.trace_id@, open.trace.trace_id as int)
                &&& link.trace_id matches Some(trace_id) ==> is_numeral(
                    transaction.trace_id@,
                    trace_id as int,
                )
                &&& link.parent_id is None ==> transaction.parent_id is None
                &&& link.parent_id matches Some(parent_id) ==> transaction.parent_id is Some
                    && is_numeral(transaction.parent_id->0@, parent_id as int)
                &&& transaction.name matches Some(text) && text@ == name@
                &&& transaction.transaction_type@ == "custom"@
                &&& timing.first_entered_timestamp is None ==> transaction.timestamp == opened
                &&& timing.first_entered_timestamp matches Some(entered) ==> transaction.timestamp
                    == entered
                &&& transaction.timestamp <= closed ==> transaction.timestamp
                    + transaction.duration == closed
            }
        },
{
    law_opening_keeps_id_and_name(layer, id, name, opened, instant, parent, link, open);
    law_every_closed_span_is_reported(
        layer,
        visitor,
        timing,
        Some(open.record),
        closed,
        callsite,
        batch,
    );
}

/// A record that is closed by itself is what is reported of it; until then it can be asked when it
/// was opened.
pub proof fn law_closing_a_record(
    record: SpanRecord,
    entered: Option<u64>,
    now: u64,
    tags: Option<Tags>,
    fields: Map<Seq<char>, Json>,
    closed: SpanRecord,
    timestamp: u64,
)
    ensures
        call_ensures(SpanRecord::timestamp, (&record,), timestamp) ==> timestamp == opened_at(
            record,
        ),
        call_ensures(SpanRecord::close, (record, entered, now, tags), closed) && show_if_any(
            tags,
            fields,
        ) ==> match (record, closed) {
            (SpanRecord::Span(before), SpanRecord::Span(after)) => is_span_closed(
                after,
                before,
                entered,
                now,
                fields,
            ) && (tags is Some ==> after.context->0.tags == tags),
            (SpanRecord::Transaction(before), SpanRecord::Transaction(after)) =>
            is_transaction_closed(after, before, entered, now, fields) && (tags is Some
                ==> after.context->0.tags == tags),
            _ => false,
        },
{
}

/// A batch is put together of its parts.
pub proof fn law_a_batch_holds_its_parts(
    metadata: Metadata,
    transaction: Option<Transaction>,
    span: Option<Span>,
    error: Option<Error>,
    batch: Batch,
)
    requires
        call_ensures(Batch::new, (metadata, transaction, span, error), batch),
    ensures
        batch.metadata == metadata,
        batch.transaction == transaction,
        batch.span == span,
        batch.error == error,
{
}

} // verus!
