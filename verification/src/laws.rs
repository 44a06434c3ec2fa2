//! What holds of the library as a whole.

use crate::config::{PARENT_ID_FIELD_NAME, TRACE_ID_FIELD_NAME};
use crate::fields::no_fields;
use crate::json::Json;
use crate::layer::{carries_record, is_error, is_opened, ApmLayer, Callsite, EventSpan};
use crate::model::{Batch, Error, Metadata, Tags, Transaction};
use crate::span::{
    began, elapsed, OpenSpan, SpanContext, SpanRecord, TraceContext, MAX_DURATION_NANOS,
};
use crate::tags::{are_tags_of, gives_tag, is_tag, tag_map, tag_name, tagged, LABELS_PREFIX};
use crate::text::{decimal, digit};
use crate::visitor::{RootLinkVisitor, ToVisited};
use vstd::prelude::*;
use vstd::set_lib::lemma_map_size;

verus! {

/// Different numbers have different numerals, so ids can be told apart by their text.
pub proof fn law_numerals_differ(a: nat, b: nat)
    ensures
        decimal(a) == decimal(b) <==> a == b,
    decreases a,
{
    if decimal(a) == decimal(b) {
        assert(decimal(a).last() == digit(a % 10));
        assert(decimal(b).last() == digit(b % 10));
        assert(a >= 10 ==> decimal(a / 10).len() > 0);
        assert(b >= 10 ==> decimal(b / 10).len() > 0);
        if a < 10 {
            assert(decimal(b).len() == 1);
        } else if b < 10 {
            assert(decimal(a).len() == 1);
        } else {
            assert(decimal(a).drop_last() =~= decimal(a / 10));
            assert(decimal(b).drop_last() =~= decimal(b / 10));
            law_numerals_differ(a / 10, b / 10);
        }
    }
}

/// The span `id` was opened, with a parent or without.
pub open spec fn was_opened(open: OpenSpan, id: u64) -> bool {
    exists|
        name: Seq<char>,
        now: u64,
        instant: u128,
        parent: Option<(u64, TraceContext)>,
        link: RootLinkVisitor,
    |
        is_opened(open, id, name, now, instant, parent, link)
}

/// A document holds the id of its span and of its trace.
pub proof fn law_documents_hold_their_ids(open: OpenSpan, id: u64)
    requires
        was_opened(open, id),
    ensures
        open.record.id() == decimal(id as nat),
        open.record.trace_id() == decimal(open.trace.trace_id as nat),
{
}

/// Closing a span changes nothing of its document but the time, the duration and the context: the
/// document ends at the time of closing, unless the clock went back, and holds the tags, if there
/// are any.
pub proof fn law_closing_keeps_the_rest(
    record: SpanRecord,
    first_entered_timestamp: Option<u64>,
    now: u64,
    tags: Option<Tags>,
)
    ensures
        ({
            let closed = record.closed(first_entered_timestamp, now, tags);
            let timestamp = began(first_entered_timestamp, record.spec_timestamp());
            &&& closed.id() == record.id()
            &&& closed.trace_id() == record.trace_id()
            &&& closed.parent_id() == record.parent_id()
            &&& closed.spec_timestamp() == timestamp
            &&& match (record, closed) {
                (SpanRecord::Span(before), SpanRecord::Span(after)) => {
                    &&& after.name == before.name
                    &&& after.span_type == before.span_type
                    &&& timestamp <= now ==> after.timestamp + after.duration == now
                    &&& tags is None ==> after.context == before.context
                    &&& tags is Some ==> after.context is Some && after.context->0.tags == tags
                },
                (SpanRecord::Transaction(before), SpanRecord::Transaction(after)) => {
                    &&& after.name == before.name
                    &&& after.transaction_type == before.transaction_type
                    &&& timestamp <= now ==> after.timestamp + after.duration == now
                    &&& tags is None ==> after.context == before.context
                    &&& tags is Some ==> after.context is Some && after.context->0.tags == tags
                },
                _ => false,
            }
        }),
{
}

/// A span that has a parent is reported as a span, and one that has none as a transaction.
pub proof fn law_parent_decides_the_kind(
    open: OpenSpan,
    id: u64,
    name: Seq<char>,
    now: u64,
    instant: u128,
    parent: Option<(u64, TraceContext)>,
    link: RootLinkVisitor,
    first_entered_timestamp: Option<u64>,
    closed_at: u64,
    tags: Option<Tags>,
)
    requires
        is_opened(open, id, name, now, instant, parent, link),
    ensures
        open.record.closed(first_entered_timestamp, closed_at, tags) is Span <==> parent is Some,
        open.record.closed(first_entered_timestamp, closed_at, tags) is Transaction
            <==> parent is None,
{
}

/// How a span was closed.
pub struct Closing {
    pub timing: SpanContext,
    pub now: u64,
    pub callsite: Callsite,
    pub visited: Map<Seq<char>, Json>,
}

/// `batch` is what `layer` reported of the span `open` when it was closed as `closing` says.
pub open spec fn was_reported<T, U: ToVisited>(
    layer: ApmLayer<T, U>,
    batch: Batch,
    open: OpenSpan,
    closing: Closing,
) -> bool {
    layer.is_close_report(
        Some(batch),
        closing.timing,
        Some(open.record),
        closing.now,
        closing.callsite,
        closing.visited,
    )
}

/// The tags of a transaction.
pub open spec fn transaction_tags(transaction: Transaction) -> Map<Seq<char>, Json> {
    match transaction.context {
        Some(context) => tag_map(context.tags),
        None => no_fields(),
    }
}

/// The tags of a document.
pub open spec fn document_tags(document: SpanRecord) -> Map<Seq<char>, Json> {
    match document {
        SpanRecord::Span(span) => match span.context {
            Some(context) => tag_map(context.tags),
            None => no_fields(),
        },
        SpanRecord::Transaction(transaction) => transaction_tags(transaction),
    }
}

/// What is reported of a span when it closes is one document. It holds the id that the span was
/// opened with, the id of the trace that is kept with the span while it is open, and the tags of
/// the fields that this span recorded, and of no others.
pub proof fn law_reports_are_of_their_span<T, U: ToVisited>(
    layer: ApmLayer<T, U>,
    open: OpenSpan,
    id: u64,
    closing: Closing,
    batch: Batch,
)
    requires
        was_opened(open, id),
        was_reported(layer, batch, open, closing),
    ensures
        exists|document: SpanRecord| #[trigger]
            carries_record(batch, document) && {
                &&& document.id() == decimal(id as nat)
                &&& document.trace_id() == decimal(open.trace.trace_id as nat)
                &&& document.parent_id() == open.record.parent_id()
                &&& are_tags_of(document_tags(document), closing.visited)
            },
{
    law_documents_hold_their_ids(open, id);
    let first_entered = closing.timing.first_entered_timestamp;
    let tags = choose|tags: Option<Tags>|
        tagged(tags, closing.visited) && carries_record(
            batch,
            #[trigger] open.record.closed(first_entered, closing.now, tags),
        );
    assert(carries_record(batch, open.record.closed(first_entered, closing.now, tags)));
}

/// A detached span that is stamped with the trace id and the span id of its trigger is reported as
/// a transaction of its own, in the trigger's trace and nested under the trigger. It is told apart
/// from the trigger by its id, and its linkage fields do not show among its tags, unless there are
/// fields of that name under `labels.`.
pub proof fn law_detached_span_is_linked<T, U: ToVisited>(
    layer: ApmLayer<T, U>,
    trigger: OpenSpan,
    trigger_id: u64,
    trigger_closing: Closing,
    trigger_batch: Batch,
    job: OpenSpan,
    job_id: u64,
    name: Seq<char>,
    now: u64,
    instant: u128,
    link: RootLinkVisitor,
    job_closing: Closing,
    job_batch: Batch,
)
    requires
        was_opened(trigger, trigger_id),
        was_reported(layer, trigger_batch, trigger, trigger_closing),
        link.trace_id == Some(trigger.trace.trace_id),
        link.parent_id == Some(trigger_id),
        is_opened(job, job_id, name, now, instant, None, link),
        was_reported(layer, job_batch, job, job_closing),
    ensures
        job_batch.span is None,
        job_batch.transaction matches Some(transaction) && {
            &&& exists|document: SpanRecord| #[trigger]
                carries_record(trigger_batch, document) && {
                    &&& transaction.trace_id@ == document.trace_id()
                    &&& transaction.parent_id matches Some(parent_id) && parent_id@
                        == document.id()
                    &&& transaction.id@ == document.id() <==> job_id == trigger_id
                }
            &&& transaction_tags(transaction).contains_key(TRACE_ID_FIELD_NAME@)
                ==> job_closing.visited.contains_key(LABELS_PREFIX@ + TRACE_ID_FIELD_NAME@)
            &&& transaction_tags(transaction).contains_key(PARENT_ID_FIELD_NAME@)
                ==> job_closing.visited.contains_key(LABELS_PREFIX@ + PARENT_ID_FIELD_NAME@)
        },
{
    law_reports_are_of_their_span(layer, trigger, trigger_id, trigger_closing, trigger_batch);
    law_numerals_differ(job_id as nat, trigger_id as nat);
    let tags = choose|tags: Option<Tags>|
        tagged(tags, job_closing.visited) && carries_record(
            job_batch,
            #[trigger] job.record.closed(
                job_closing.timing.first_entered_timestamp,
                job_closing.now,
                tags,
            ),
        );
    law_filtered_fields_do_not_leak(tag_map(tags), job_closing.visited, TRACE_ID_FIELD_NAME@);
    law_filtered_fields_do_not_leak(tag_map(tags), job_closing.visited, PARENT_ID_FIELD_NAME@);
}

/// The span `id` was opened with the span `parent_id` as its parent.
pub open spec fn was_opened_within(
    open: OpenSpan,
    id: u64,
    parent: OpenSpan,
    parent_id: u64,
) -> bool {
    exists|name: Seq<char>, now: u64, instant: u128, link: RootLinkVisitor|
        is_opened(open, id, name, now, instant, Some((parent_id, parent.trace)), link)
}

/// `spans` were opened one within the other: each but the first has the one before as its parent.
pub open spec fn is_nested(spans: Seq<OpenSpan>, ids: Seq<u64>) -> bool {
    &&& spans.len() == ids.len()
    &&& forall|i: int|
        0 < i < spans.len() ==> was_opened_within(
            #[trigger] spans[i],
            ids[i],
            spans[i - 1],
            ids[i - 1],
        )
}

/// All that is nested in a span, however deep and whatever its fields say of links, is in the trace
/// of that span, and each document is nested under the one of the span around it.
pub proof fn law_nested_spans_share_the_trace(spans: Seq<OpenSpan>, ids: Seq<u64>, i: int)
    requires
        is_nested(spans, ids),
        0 < i < spans.len(),
    ensures
        spans[i].trace == spans[0].trace,
        spans[i].record is Span,
        spans[i].record.trace_id() == decimal(spans[0].trace.trace_id as nat),
        spans[i].record.parent_id() == Some(decimal(ids[i - 1] as nat)),
    decreases i,
{
    if i > 1 {
        law_nested_spans_share_the_trace(spans, ids, i - 1);
    }
    assert(was_opened_within(spans[i], ids[i], spans[i - 1], ids[i - 1]));
}

/// An error is reported in the trace of the span that it happened in, and nested under that span.
pub proof fn law_errors_are_linked_to_their_span(
    error: Error,
    error_id: u128,
    callsite: Callsite,
    span: EventSpan,
    visited: Map<Seq<char>, Json>,
    tags: Option<Tags>,
    open: OpenSpan,
)
    requires
        was_opened(open, span.id),
        span.trace == open.trace,
        is_error(error, error_id, callsite, span, visited, tags),
    ensures
        error.trace_id matches Some(trace_id) && trace_id@ == open.record.trace_id(),
        error.parent_id matches Some(parent_id) && parent_id@ == open.record.id(),
{
    law_documents_hold_their_ids(open, span.id);
}

/// A field that is no tag leaves none behind under its own name: a tag of that name can only come
/// from a field that has it under `labels.`. So the message, the linkage fields and `custom.*`
/// fields do not show among the tags.
pub proof fn law_filtered_fields_do_not_leak(
    tags: Map<Seq<char>, Json>,
    fields: Map<Seq<char>, Json>,
    tag: Seq<char>,
)
    requires
        are_tags_of(tags, fields),
        !is_tag(tag),
    ensures
        tags.contains_key(tag) ==> fields.contains_key(LABELS_PREFIX@ + tag) && tags[tag]
            == fields[LABELS_PREFIX@ + tag],
{
    if tags.contains_key(tag) {
        let name = choose|name: Seq<char>| #[trigger]
            gives_tag(fields, name, tag) && tags[tag] == fields[name];
        assert(name =~= LABELS_PREFIX@ + name.skip(LABELS_PREFIX@.len() as int));
    }
}

/// Where no two fields are recorded as one tag, the tags are determined: every field that is a tag
/// shows under its tag with its own value, and nothing else shows. Of finitely many fields there
/// are then as many tags as there are fields that are one.
pub proof fn law_distinct_fields_keep_their_values(
    tags: Map<Seq<char>, Json>,
    fields: Map<Seq<char>, Json>,
)
    requires
        are_tags_of(tags, fields),
        forall|a: Seq<char>, b: Seq<char>|
            #![trigger fields.contains_key(a), fields.contains_key(b)]
            fields.contains_key(a) && is_tag(a) && fields.contains_key(b) && is_tag(b) && tag_name(
                a,
            ) == tag_name(b) ==> a == b,
    ensures
        forall|name: Seq<char>| #[trigger]
            fields.contains_key(name) && is_tag(name) ==> tags.contains_key(tag_name(name))
                && tags[tag_name(name)] == fields[name],
        forall|tag: Seq<char>| #[trigger]
            tags.contains_key(tag) ==> exists|name: Seq<char>| gives_tag(fields, name, tag),
        fields.dom().finite() ==> tags.dom().finite() && tags.dom().len() == fields.dom().filter(
            |name: Seq<char>| is_tag(name),
        ).len(),
{
    assert forall|name: Seq<char>| #[trigger] fields.contains_key(name) && is_tag(name) implies
        tags.contains_key(tag_name(name)) && tags[tag_name(name)] == fields[name] by {
        let tag = tag_name(name);
        assert(tags.contains_key(tag));
        let source = choose|source: Seq<char>| #[trigger]
            gives_tag(fields, source, tag) && tags[tag] == fields[source];
        assert(fields.contains_key(source));
    }
    if fields.dom().finite() {
        let kept = fields.dom().filter(|name: Seq<char>| is_tag(name));
        let named = |name: Seq<char>| tag_name(name);
        assert forall|tag: Seq<char>| tags.contains_key(tag) implies kept.map(named).contains(
            tag,
        ) by {
            let name = choose|name: Seq<char>| gives_tag(fields, name, tag);
            assert(kept.contains(name) && named(name) == tag);
        }
        assert(kept.map(named) =~= tags.dom());
        fields.dom().lemma_len_filter(|name: Seq<char>| is_tag(name));
        lemma_map_size(kept, tags.dom(), named);
    }
}

/// The name of a label that the layer adds by itself.
pub open spec fn is_diagnostic(name: Seq<char>) -> bool {
    ||| name == "level"@
    ||| name == "target"@
    ||| name == "timestamp"@
    ||| name == "first_entered_timestamp"@
    ||| name == "busy_ns"@
    ||| name == "idle_ns"@
}

/// The labels of a stream come with every batch, and no label does but these and the diagnostic
/// ones: what users record does not get among them.
pub proof fn law_stream_labels_are_kept<T, U: ToVisited>(
    layer: ApmLayer<T, U>,
    metadata: Metadata,
    visited: Map<Seq<char>, Json>,
    span_ctx: SpanContext,
    timestamp: Option<u64>,
    first_entered_timestamp: Option<u64>,
    callsite: Callsite,
    name: Seq<char>,
)
    requires
        layer.is_event_metadata(
            metadata,
            visited,
            span_ctx,
            timestamp,
            first_entered_timestamp,
            callsite,
        ),
        !is_diagnostic(name),
    ensures
        metadata.label_map().contains_key(name)
            <==> layer.stream_metadata().label_map().contains_key(name),
        metadata.label_map().contains_key(name) ==> metadata.label_map()[name]
            == layer.stream_metadata().label_map()[name],
{
}

/// A step in the life of a span.
pub enum Step {
    Enter { instant: u128, read: u128, timestamp: u64 },
    Exit { instant: u128, read: u128 },
}

impl Step {
    /// When the step was taken.
    pub open spec fn instant(self) -> u128 {
        match self {
            Step::Enter { instant, .. } => instant,
            Step::Exit { instant, .. } => instant,
        }
    }

    /// Up to when the time before the step was measured.
    pub open spec fn read(self) -> u128 {
        match self {
            Step::Enter { read, .. } => read,
            Step::Exit { read, .. } => read,
        }
    }
}

/// The timing of a span that was opened at `opened`, after `steps`.
pub open spec fn timing_after(opened: u128, steps: Seq<Step>) -> SpanContext
    decreases steps.len(),
{
    if steps.len() == 0 {
        SpanContext { idle: 0, busy: 0, instant: opened, first_entered_timestamp: None }
    } else {
        let before = timing_after(opened, steps.drop_last());
        match steps.last() {
            Step::Enter { instant, read, timestamp } => before.entered(instant, read, timestamp),
            Step::Exit { instant, read } => before.exited(instant, read),
        }
    }
}

/// The time before `step`, of a span whose timing was `before`, can be added up.
pub open spec fn step_fits(before: SpanContext, step: Step) -> bool {
    match step {
        Step::Enter { read, .. } => before.idle + elapsed(before.instant, read)
            <= MAX_DURATION_NANOS,
        Step::Exit { read, .. } => before.busy + elapsed(before.instant, read)
            <= MAX_DURATION_NANOS,
    }
}

/// At each of `steps` the time can be added up.
pub open spec fn steps_fit(opened: u128, steps: Seq<Step>) -> bool
    decreases steps.len(),
{
    steps.len() > 0 ==> steps_fit(opened, steps.drop_last()) && step_fits(
        timing_after(opened, steps.drop_last()),
        steps.last(),
    )
}

/// The instant of the last of `steps`, or else `opened`.
pub open spec fn last_instant(opened: u128, steps: Seq<Step>) -> u128 {
    if steps.len() == 0 {
        opened
    } else {
        steps.last().instant()
    }
}

/// The time measured before each of `steps`, added up.
pub open spec fn measured(opened: u128, steps: Seq<Step>) -> nat
    decreases steps.len(),
{
    if steps.len() == 0 {
        0
    } else {
        let before = steps.drop_last();
        measured(opened, before) + elapsed(last_instant(opened, before), steps.last().read()) as nat
    }
}

/// However a span is entered and exited, all the time that was measured is idle or busy time, and
/// none of it is both.
pub proof fn law_time_adds_up(opened: u128, steps: Seq<Step>)
    requires
        steps_fit(opened, steps),
    ensures
        timing_after(opened, steps).instant == last_instant(opened, steps),
        timing_after(opened, steps).idle + timing_after(opened, steps).busy == measured(
            opened,
            steps,
        ),
    decreases steps.len(),
{
    if steps.len() > 0 {
        law_time_adds_up(opened, steps.drop_last());
    }
}

/// The clock never went back: neither from one step to the next, nor from when a step was taken to
/// when the time before it was measured.
pub open spec fn is_steady(opened: u128, steps: Seq<Step>) -> bool
    decreases steps.len(),
{
    steps.len() > 0 ==> {
        &&& is_steady(opened, steps.drop_last())
        &&& last_instant(opened, steps.drop_last()) <= steps.last().instant()
        &&& steps.last().instant() <= steps.last().read()
    }
}

/// No time passed from when a step was taken to when the time before it was measured.
pub open spec fn is_prompt(steps: Seq<Step>) -> bool
    decreases steps.len(),
{
    steps.len() > 0 ==> is_prompt(steps.drop_last()) && steps.last().read()
        == steps.last().instant()
}

/// By a steady clock, the idle and the busy time together are no less than the time since the span
/// was opened, and exactly that if each step was measured at once.
pub proof fn law_no_time_is_lost(opened: u128, steps: Seq<Step>)
    requires
        steps_fit(opened, steps),
        is_steady(opened, steps),
    ensures
        opened <= last_instant(opened, steps),
        last_instant(opened, steps) - opened <= timing_after(opened, steps).idle + timing_after(
            opened,
            steps,
        ).busy,
        is_prompt(steps) ==> last_instant(opened, steps) - opened == timing_after(
            opened,
            steps,
        ).idle + timing_after(opened, steps).busy,
    decreases steps.len(),
{
    law_time_adds_up(opened, steps);
    if steps.len() > 0 {
        law_time_adds_up(opened, steps.drop_last());
        law_no_time_is_lost(opened, steps.drop_last());
    }
}

/// The timestamp of the first of `steps` that enters the span.
pub open spec fn first_entry(steps: Seq<Step>) -> Option<u64>
    decreases steps.len(),
{
    if steps.len() == 0 {
        None
    } else {
        match (first_entry(steps.drop_last()), steps.last()) {
            (Some(first), _) => Some(first),
            (None, Step::Enter { timestamp, .. }) => Some(timestamp),
            (None, Step::Exit { .. }) => None,
        }
    }
}

/// The first time that a span is entered is remembered, whatever comes after.
pub proof fn law_first_entry_is_remembered(opened: u128, steps: Seq<Step>)
    ensures
        timing_after(opened, steps).first_entered_timestamp == first_entry(steps),
    decreases steps.len(),
{
    if steps.len() > 0 {
        law_first_entry_is_remembered(opened, steps.drop_last());
    }
}

} // verus!
