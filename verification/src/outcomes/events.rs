//! What is reported of an event.

use crate::fields::{fields_of, Fields};
use crate::json::{json_text, Json};
use crate::layer::{event_parent, is_drawn, is_error, reports, ApmLayer, Callsite, EventSpan, Level};
use crate::model::{Batch, Error, Tags};
use crate::outcomes::metadata::{
    comes_with, lemma_event_metadata_comes_with, level_text, Particulars,
};
use crate::outcomes::numerals::{is_numeral, law_decimal_is_the_numeral};
use crate::outcomes::tags::{any_kept, lemma_tagged_shows, show};
use crate::tags::tagged;
use crate::visitor::ToVisited;
use vstd::prelude::*;

verus! {

/// `error` is in the trace and under the span that it happened in. It has the target as its
/// culprit, and its log has the level and the message: the text of the field `message`, and of no
/// other field, or nothing if there is no such field.
pub open spec fn is_logged(
    error: Error,
    callsite: Callsite,
    span: EventSpan,
    fields: Map<Seq<char>, Json>,
) -> bool {
    &&& error.trace_id is Some
    &&& is_numeral(error.trace_id->0@, span.trace.trace_id as int)
    &&& error.parent_id is Some
    &&& is_numeral(error.parent_id->0@, span.id as int)
    &&& error.culprit is Some
    &&& error.culprit->0@ == callsite.target@
    &&& error.log is Some
    &&& error.log->0.level is Some
    &&& error.log->0.level->0@ == level_text(callsite.level)
    &&& fields.contains_key("message"@) ==> error.log->0.message@ == json_text(
        fields["message"@],
    )
    &&& !fields.contains_key("message"@) ==> error.log->0.message@.len() == 0
}

/// What shows of `fields`, if anything does, is the context of `error`, and there is none otherwise.
pub open spec fn is_tagged_with(error: Error, fields: Map<Seq<char>, Json>) -> bool {
    &&& any_kept(fields) ==> error.context is Some && error.context->0.tags is Some && show(
        fields_of(error.context->0.tags->0),
        fields,
    )
    &&& !any_kept(fields) ==> error.context is None
}

/// An error says where it happened and logs its message, under the id and with the tags that it is
/// given.
pub proof fn law_errors_log_the_message<T, U: ToVisited>(
    error_id: u128,
    callsite: Callsite,
    span: EventSpan,
    visited: Fields,
    tags: Option<Tags>,
    error: Error,
)
    requires
        call_ensures(
            ApmLayer::<T, U>::error_of,
            (error_id, &callsite, &span, &visited, tags),
            error,
        ),
    ensures
        is_numeral(error.id@, error_id as int),
        is_logged(error, callsite, span, fields_of(visited)),
        tags is None ==> error.context is None,
        tags is Some ==> error.context is Some && error.context->0.tags == tags,
{
    lemma_errors_are_logged(error, error_id, callsite, span, fields_of(visited), tags);
}

proof fn lemma_errors_are_logged(
    error: Error,
    error_id: u128,
    callsite: Callsite,
    span: EventSpan,
    fields: Map<Seq<char>, Json>,
    tags: Option<Tags>,
)
    requires
        is_error(error, error_id, callsite, span, fields, tags),
    ensures
        is_numeral(error.id@, error_id as int),
        is_logged(error, callsite, span, fields),
{
    law_decimal_is_the_numeral(error_id as nat);
    law_decimal_is_the_numeral(span.trace.trace_id as nat);
    law_decimal_is_the_numeral(span.id as nat);
}

/// What is told of an event: no point in time.
pub open spec fn told_of(span: EventSpan, callsite: Callsite) -> Particulars {
    Particulars { callsite, timing: span.timing, opened: None, entered: None }
}

/// `batch` holds one document: the error of an event in `span`, under an id that is drawn, with the
/// tags of its own fields.
pub open spec fn holds_error(
    batch: Batch,
    callsite: Callsite,
    span: EventSpan,
    fields: Map<Seq<char>, Json>,
) -> bool {
    &&& batch.transaction is None
    &&& batch.span is None
    &&& batch.error is Some
    &&& exists|error_id: u128| #[trigger]
        is_drawn(error_id) && is_numeral(batch.error->0.id@, error_id as int)
    &&& is_logged(batch.error->0, callsite, span, fields)
    &&& is_tagged_with(batch.error->0, fields)
}

proof fn lemma_event_report<T, U: ToVisited>(
    layer: ApmLayer<T, U>,
    batch: Option<Batch>,
    callsite: Callsite,
    span: Option<EventSpan>,
    fields: Map<Seq<char>, Json>,
)
    requires
        layer.is_event_report(batch, callsite, span, fields),
    ensures
        batch is Some <==> callsite.level == Level::Error && span is Some,
        batch is Some ==> holds_error(batch->0, callsite, span->0, fields) && comes_with(
            layer,
            batch->0.metadata,
            fields,
            told_of(span->0, callsite),
        ),
{
    if batch is Some {
        let error = batch->0.error->0;
        let (error_id, tags) = choose|error_id: u128, tags: Option<Tags>|
            is_drawn(error_id) && tagged(tags, fields) && #[trigger] is_error(
                error,
                error_id,
                callsite,
                span->0,
                fields,
                tags,
            );
        lemma_errors_are_logged(error, error_id, callsite, span->0, fields, tags);
        lemma_tagged_shows(tags, fields);
        lemma_event_metadata_comes_with(
            layer,
            batch->0.metadata,
            fields,
            told_of(span->0, callsite),
        );
    }
}

/// An event is reported exactly if it is an error in a span, whatever its fields: as one document,
/// its error, with its message and the tags of its own fields. The metadata tells of the event.
pub proof fn law_every_error_in_a_span_is_reported<T, U: ToVisited>(
    layer: ApmLayer<T, U>,
    callsite: Callsite,
    span: Option<EventSpan>,
    visited: Fields,
    batch: Option<Batch>,
)
    requires
        call_ensures(
            ApmLayer::<T, U>::report_event,
            (&layer, &callsite, span, &visited),
            batch,
        ),
    ensures
        batch is Some <==> callsite.level == Level::Error && span is Some,
        batch is Some ==> holds_error(batch->0, callsite, span->0, fields_of(visited))
            && comes_with(
            layer,
            batch->0.metadata,
            fields_of(visited),
            told_of(span->0, callsite),
        ),
{
    lemma_event_report(layer, batch, callsite, span, fields_of(visited));
}

/// What holds of recorded fields holds of those that a visitor shows.
pub proof fn law_every_error_event_is_reported<T, U: ToVisited>(
    layer: ApmLayer<T, U>,
    callsite: Callsite,
    span: Option<EventSpan>,
    visitor: U,
    batch: Option<Batch>,
)
    requires
        call_ensures(ApmLayer::<T, U>::on_event, (&layer, &callsite, span, &visitor), batch),
    ensures
        batch is Some <==> callsite.level == Level::Error && span is Some,
        batch is Some ==> exists|visited: Fields| #[trigger]
            call_ensures(U::to_visited, (&visitor,), &visited) && holds_error(
                batch->0,
                callsite,
                span->0,
                fields_of(visited),
            ) && comes_with(
                layer,
                batch->0.metadata,
                fields_of(visited),
                told_of(span->0, callsite),
            ),
{
    let visited = choose|visited: Fields| #[trigger]
        call_ensures(U::to_visited, (&visitor,), &visited) && layer.is_event_report(
            batch,
            callsite,
            span,
            fields_of(visited),
        );
    lemma_event_report(layer, batch, callsite, span, fields_of(visited));
}

/// Two errors whose fields agree on the message log the same message, whatever else was recorded,
/// and wherever they happened.
pub proof fn law_only_the_message_is_logged<T, U: ToVisited>(
    layer: ApmLayer<T, U>,
    callsites: (Callsite, Callsite),
    spans: (Option<EventSpan>, Option<EventSpan>),
    visited: (Fields, Fields),
    batches: (Batch, Batch),
)
    requires
        call_ensures(
            ApmLayer::<T, U>::report_event,
            (&layer, &callsites.0, spans.0, &visited.0),
            Some(batches.0),
        ),
        call_ensures(
            ApmLayer::<T, U>::report_event,
            (&layer, &callsites.1, spans.1, &visited.1),
            Some(batches.1),
        ),
        fields_of(visited.0).contains_key("message"@) <==> fields_of(visited.1).contains_key(
            "message"@,
        ),
        fields_of(visited.0).contains_key("message"@) ==> fields_of(visited.0)["message"@]
            == fields_of(visited.1)["message"@],
    ensures
        batches.0.error->0.log->0.message@ == batches.1.error->0.log->0.message@,
{
    law_every_error_in_a_span_is_reported(
        layer,
        callsites.0,
        spans.0,
        visited.0,
        Some(batches.0),
    );
    law_every_error_in_a_span_is_reported(
        layer,
        callsites.1,
        spans.1,
        visited.1,
        Some(batches.1),
    );
}

/// An event is reported at one level only, and belongs to the span it names, to none if it says
/// that it has none, and to the current one otherwise.
pub proof fn law_events_belong_to_one_span(
    level: Level,
    reported: bool,
    explicit: Option<u64>,
    is_root: bool,
    current: Option<u64>,
    parent: Option<u64>,
)
    ensures
        call_ensures(reports, (level,), reported) ==> (reported <==> level == Level::Error),
        call_ensures(event_parent, (explicit, is_root, current), parent) ==> {
            &&& explicit is Some ==> parent == explicit
            &&& explicit is None && is_root ==> parent is None
            &&& explicit is None && !is_root ==> parent == current
        },
{
}

} // verus!
