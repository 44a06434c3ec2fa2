//! Which calls can be made.

use crate::config::{ClientSettings, Config};
use crate::current::{current_trace_id, trace_id_of};
use crate::fields::{fields_of, no_fields, Fields};
use crate::layer::{event_parent, reports, ApmLayer, Callsite, EventSpan, Level};
use crate::model::{Batch, Error, Metadata, Span, Tags, Transaction};
use crate::outcomes::spans::opened_at;
use crate::span::{
    open_child, open_root, SpanContext, SpanRecord, TraceContext, MAX_DURATION_NANOS,
};
use crate::tags::{entries_to_tags, fields_to_tags, visited_to_tags};
use crate::visitor::{ApmVisitor, RootLinkVisitor, ToVisited};
use crate::{new_layer, new_layer_with_sender};
use serde_json::Value;
use vstd::prelude::*;

verus! {

/// The clock did not go back from when the work of the span began to `now`.
pub open spec fn is_in_order(record: SpanRecord, entered: Option<u64>, now: u64) -> bool {
    match entered {
        Some(entered) => entered <= now,
        None => opened_at(record) <= now,
    }
}

/// Labels can tell the timing: it fits, or it is not asked for.
pub open spec fn can_tell<T, U>(layer: ApmLayer<T, U>, timing: SpanContext) -> bool {
    layer.has_timing_labels() ==> timing.busy <= u64::MAX && timing.idle <= u64::MAX
}

/// A span can be opened, whatever its name, its parent and its link.
pub proof fn law_any_span_can_be_opened<T, U: ToVisited>(
    layer: ApmLayer<T, U>,
    id: u64,
    name: &str,
    now: u64,
    instant: u128,
    parent: Option<(u64, TraceContext)>,
    link: RootLinkVisitor,
    parent_id: u64,
    trace: TraceContext,
)
    ensures
        call_requires(
            ApmLayer::<T, U>::on_new_span,
            (&layer, id, name, now, instant, parent, &link),
        ),
        call_requires(open_child, (id, name, now, instant, parent_id, trace)),
        call_requires(open_root, (id, name, now, instant, trace, link.parent_id)),
{
}

/// A span can be closed, whatever its level, its target and its fields, if the clock did not go back
/// and labels can tell the timing. One without a record can be closed in any case, and so can one
/// that recorded nothing, whatever its timing.
pub proof fn law_any_span_can_be_closed<T, U: ToVisited>(
    layer: ApmLayer<T, U>,
    visitor: U,
    visited: Fields,
    timing: SpanContext,
    record: SpanRecord,
    now: u64,
    callsite: Callsite,
    tags: Option<Tags>,
)
    ensures
        call_requires(
            ApmLayer::<T, U>::on_close,
            (&layer, &visitor, &timing, None, now, &callsite),
        ),
        call_requires(
            ApmLayer::<T, U>::report_close,
            (&layer, &visited, &timing, None, now, &callsite),
        ),
        is_in_order(record, timing.first_entered_timestamp, now) && can_tell(layer, timing) ==> {
            &&& call_requires(
                ApmLayer::<T, U>::on_close,
                (&layer, &visitor, &timing, Some(record), now, &callsite),
            )
            &&& call_requires(
                ApmLayer::<T, U>::report_close,
                (&layer, &visited, &timing, Some(record), now, &callsite),
            )
        },
        is_in_order(record, timing.first_entered_timestamp, now) && fields_of(visited)
            == no_fields() ==> call_requires(
            ApmLayer::<T, U>::report_close,
            (&layer, &visited, &timing, Some(record), now, &callsite),
        ),
        is_in_order(record, timing.first_entered_timestamp, now) ==> call_requires(
            SpanRecord::close,
            (record, timing.first_entered_timestamp, now, tags),
        ),
        call_requires(SpanRecord::timestamp, (&record,)),
{
}

/// An event can be reported, whatever its target and its fields, if labels can tell the timing of
/// its span; and one that is no error, or in no span, in any case.
pub proof fn law_any_event_can_be_reported<T, U: ToVisited>(
    layer: ApmLayer<T, U>,
    callsite: Callsite,
    span: Option<EventSpan>,
    visitor: U,
    visited: Fields,
)
    requires
        callsite.level != Level::Error || span is None || can_tell(layer, span->0.timing),
    ensures
        call_requires(ApmLayer::<T, U>::on_event, (&layer, &callsite, span, &visitor)),
        call_requires(ApmLayer::<T, U>::report_event, (&layer, &callsite, span, &visited)),
{
}

/// An error can be made of any event, its metadata if labels can tell the timing, and what else is
/// asked of an event in any case.
pub proof fn law_any_event_can_be_told<T, U: ToVisited>(
    layer: ApmLayer<T, U>,
    error_id: u128,
    callsite: Callsite,
    span: EventSpan,
    visitor: U,
    visited: Fields,
    tags: Option<Tags>,
    opened: Option<u64>,
    entered: Option<u64>,
    explicit: Option<u64>,
    is_root: bool,
    current: Option<u64>,
)
    ensures
        call_requires(
            ApmLayer::<T, U>::error_of,
            (error_id, &callsite, &span, &visited, tags),
        ),
        can_tell(layer, span.timing) ==> {
            &&& call_requires(
                ApmLayer::<T, U>::event_metadata,
                (&layer, &visited, &span.timing, opened, entered, &callsite),
            )
            &&& call_requires(
                ApmLayer::<T, U>::create_metadata,
                (&layer, &visitor, &span.timing, opened, entered, &callsite),
            )
        },
        call_requires(reports, (callsite.level,)),
        call_requires(Level::as_str, (&callsite.level,)),
        call_requires(event_parent, (explicit, is_root, current)),
{
}

/// Tags can be made of any fields.
pub proof fn law_any_fields_can_be_tagged<U: ToVisited>(
    visitor: U,
    visited: Fields,
    entries: Vec<(&String, &Value)>,
)
    ensures
        call_requires(visited_to_tags::<U>, (&visitor,)),
        call_requires(fields_to_tags, (&visited,)),
        call_requires(entries_to_tags, (&entries,)),
{
}

/// A span can be entered and exited at any time, as long as its idle or its busy time can be added
/// up.
pub proof fn law_a_span_can_be_entered_and_exited<T, U: ToVisited>(
    layer: ApmLayer<T, U>,
    timing: &mut SpanContext,
    instant: u128,
    read: u128,
    timestamp: u64,
)
    ensures
        old(timing).idle <= MAX_DURATION_NANOS && old(timing).idle + read - old(timing).instant
            <= MAX_DURATION_NANOS ==> {
            &&& call_requires(
                ApmLayer::<T, U>::on_enter,
                (&layer, timing, instant, read, timestamp),
            )
            &&& call_requires(SpanContext::enter, (timing, instant, read, timestamp))
        },
        old(timing).busy <= MAX_DURATION_NANOS && old(timing).busy + read - old(timing).instant
            <= MAX_DURATION_NANOS ==> {
            &&& call_requires(ApmLayer::<T, U>::on_exit, (&layer, timing, instant, read))
            &&& call_requires(SpanContext::exit, (timing, instant, read))
        },
        call_requires(SpanContext::new, (instant,)),
        MAX_DURATION_NANOS == 18446744073709551615 * 1000000000 + 999999999,
{
}

/// A layer can be made of any configuration, with a client or with what makes one, and can be asked
/// and told to tell the timing at any time.
pub proof fn law_a_layer_can_be_made_of_any_configuration<
    T,
    U: ToVisited,
    E,
    F: FnOnce(ClientSettings) -> Result<T, E>,
>(
    config: Config,
    service_name: String,
    agent_version: String,
    sender: T,
    connect: F,
    layer: &mut ApmLayer<T, U>,
    mutable_config: &mut Config,
)
    ensures
        call_requires(
            ApmLayer::<T, U>::new_with,
            (config, service_name, agent_version, sender),
        ),
        call_requires(
            new_layer_with_sender::<T, U>,
            (service_name, config, agent_version, sender),
        ),
        (forall|settings: ClientSettings| #[trigger] connect.requires((settings,))) ==> {
            &&& call_requires(
                ApmLayer::<T, U>::new::<E, F>,
                (config, service_name, agent_version, connect),
            )
            &&& call_requires(
                new_layer::<T, U, E, F>,
                (service_name, config, agent_version, connect),
            )
        },
        call_requires(
            ApmLayer::<T, U>::setup_metadata,
            (config, service_name, agent_version),
        ),
        call_requires(ApmLayer::<T, U>::with_timing_metadata_labels, (layer,)),
        call_requires(ApmLayer::<T, U>::client, (&*old(layer),)),
        call_requires(ApmLayer::<T, U>::timing_metadata_labels, (&*old(layer),)),
        call_requires(Config::new, (service_name,)),
        call_requires(Config::take_client_settings, (mutable_config,)),
{
}

/// Any value can be recorded under any name, and what was recorded can be shown at any time.
pub proof fn law_any_value_can_be_recorded(
    visitor: &mut ApmVisitor,
    link: &mut RootLinkVisitor,
    field: &str,
    value: Value,
    signed: i64,
    unsigned: u64,
    wide: u128,
    truth: bool,
    text: &str,
    formatted: String,
)
    ensures
        call_requires(ApmVisitor::default, ()),
        call_requires(ApmVisitor::to_visited, (&*old(visitor),)),
        call_requires(RootLinkVisitor::default, ()),
        call_requires(ApmVisitor::insert_value, (visitor, field, value)),
        call_requires(ApmVisitor::record_i64, (visitor, field, signed)),
        call_requires(ApmVisitor::record_u64, (visitor, field, unsigned)),
        call_requires(ApmVisitor::record_bool, (visitor, field, truth)),
        call_requires(ApmVisitor::record_str, (visitor, field, text)),
        call_requires(ApmVisitor::record_debug, (visitor, field, formatted)),
        call_requires(RootLinkVisitor::record_i64, (link, field, signed)),
        call_requires(RootLinkVisitor::record_u64, (link, field, unsigned)),
        call_requires(RootLinkVisitor::record_u128, (link, field, wide)),
        call_requires(RootLinkVisitor::record_bool, (link, field, truth)),
        call_requires(RootLinkVisitor::record_str, (link, field, text)),
        call_requires(RootLinkVisitor::record_debug, (link, field)),
{
}

/// The active trace can be asked for at any time, and a context for its trace.
pub proof fn law_the_trace_can_be_asked_for(context: Option<TraceContext>)
    ensures
        call_requires(current_trace_id, ()),
        call_requires(trace_id_of, (context,)),
{
}

/// A batch can be put together of any parts.
pub proof fn law_any_parts_make_a_batch(
    metadata: Metadata,
    transaction: Option<Transaction>,
    span: Option<Span>,
    error: Option<Error>,
)
    ensures
        call_requires(Batch::new, (metadata, transaction, span, error)),
{
}

} // verus!
