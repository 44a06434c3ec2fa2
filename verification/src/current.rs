//! The trace of the span that is active where this is asked.

use crate::span::TraceContext;
use tracing::dispatcher::Dispatch;
use tracing::Id;
use tracing_subscriber::registry::{LookupSpan, Registry, SpanRef};
use vstd::prelude::*;

verus! {

/// The id of a span.
#[verifier::external_type_specification]
#[verifier::external_body]
pub struct ExId(Id);

/// What hands spans and events to a subscriber.
#[verifier::external_type_specification]
#[verifier::external_body]
pub struct ExDispatch(Dispatch);

/// The subscriber that stores the data of spans.
#[verifier::external_type_specification]
#[verifier::external_body]
pub struct ExRegistry(Registry);

/// `Span::current` and its `id`: the id of the span that is active on this thread, if there is
/// one. Nothing is claimed of it.
#[verifier::external_body]
fn current_span_id() -> (id: Option<Id>) {
    tracing::Span::current().id()
}

/// The `Default` of `Dispatch`: the dispatcher that is in force on this thread. Nothing is claimed
/// of it.
#[verifier::external_body]
fn current_dispatch() -> (dispatch: Dispatch) {
    Dispatch::default()
}

/// `Dispatch::downcast_ref`: the registry that the dispatcher leads to, if there is one. Nothing is
/// claimed of it.
#[verifier::external_body]
fn registry_of(dispatch: &Dispatch) -> (registry: Option<&Registry>) {
    dispatch.downcast_ref::<Registry>()
}

/// A span that a registry knows, by a `tracing_subscriber` `SpanRef`.
#[verifier::external_body]
pub struct KnownSpan<'a> {
    inner: SpanRef<'a, Registry>,
}

/// `LookupSpan::span`: the span, if the registry knows it. Nothing is claimed of it.
#[verifier::external_body]
fn known_span<'a>(registry: &'a Registry, id: &Id) -> (span: Option<KnownSpan<'a>>) {
    match registry.span(id) {
        Some(inner) => Some(KnownSpan { inner }),
        None => None,
    }
}

/// `SpanRef::extensions` and `Extensions::get`: the trace context that was stored with the span, if
/// there is one. Nothing is claimed of it. The registry lets it wait while the span's data is being
/// written, and panics if a writer of it has panicked.
#[verifier::external_body]
fn stored_context(span: &KnownSpan<'_>) -> (context: Option<TraceContext>) {
    span.inner.extensions().get::<TraceContext>().copied()
}

/// `id` is what the thread may say of its active span.
pub closed spec fn is_active(id: Option<Id>) -> bool {
    call_ensures(current_span_id, (), id)
}

/// `dispatch` is what the thread may say of the dispatcher in force.
pub closed spec fn is_in_force(dispatch: Dispatch) -> bool {
    call_ensures(current_dispatch, (), dispatch)
}

/// `registry` is what `dispatch` may lead to.
pub closed spec fn leads_to(dispatch: Dispatch, registry: Option<&Registry>) -> bool {
    call_ensures(registry_of, (&dispatch,), registry)
}

/// `span` is what `registry` may know of the span `id`.
pub closed spec fn is_known(registry: Registry, id: Id, span: Option<KnownSpan<'_>>) -> bool {
    call_ensures(known_span, (&registry, &id), span)
}

/// `context` is what may be stored with `span`.
pub closed spec fn is_stored(span: KnownSpan<'_>, context: Option<TraceContext>) -> bool {
    call_ensures(stored_context, (&span,), context)
}

/// `context` is what `registry` may hold with the span `id`: what is stored with it, or nothing if
/// the registry does not know the span.
pub open spec fn is_held(registry: Registry, id: Id, context: Option<TraceContext>) -> bool {
    exists|span: Option<KnownSpan<'_>>| #[trigger]
        is_known(registry, id, span) && match span {
            Some(span) => is_stored(span, context),
            None => context is None,
        }
}

/// `context` is what `dispatch` may lead to for the span `id`: what its registry holds with the
/// span, or nothing if it has no registry.
pub open spec fn is_reached(dispatch: Dispatch, id: Id, context: Option<TraceContext>) -> bool {
    exists|registry: Option<&Registry>| #[trigger]
        leads_to(dispatch, registry) && match registry {
            Some(registry) => is_held(*registry, id, context),
            None => context is None,
        }
}

/// `context` is what may be found with the active span: what the dispatcher in force leads to for
/// that span, or nothing if no span is active.
pub open spec fn is_active_context(context: Option<TraceContext>) -> bool {
    exists|id: Option<Id>| #[trigger]
        is_active(id) && match id {
            Some(id) => exists|dispatch: Dispatch| #[trigger]
                is_in_force(dispatch) && is_reached(dispatch, id, context),
            None => context is None,
        }
}

/// The id of the trace that `context` is of, if there is one.
pub fn trace_id_of(context: Option<TraceContext>) -> (trace_id: Option<u128>)
    ensures
        trace_id == match context {
            Some(context) => Some(context.trace_id),
            None => None,
        },
{
    match context {
        Some(context) => Some(context.trace_id),
        None => None,
    }
}

/// The id of the trace that the active span belongs to, or `None` if no span is active, no registry
/// is in force, or the span has no trace context.
///
/// It waits while the data that the registry stores with the span is being written, so it is not to
/// be asked by who is writing it; and it panics if a writer of that data has panicked.
///
/// Use this to splice a *detached* future onto the trace in flight: read the id before spawning,
/// then record it as the field [`TRACE_ID_FIELD_NAME`](crate::config::TRACE_ID_FIELD_NAME) of a
/// span without a parent, along with the id of the active span as
/// [`PARENT_ID_FIELD_NAME`](crate::config::PARENT_ID_FIELD_NAME). The spawned work then becomes its
/// own transaction, yet stays linked.
pub fn current_trace_id() -> (trace_id: Option<u128>)
    ensures
        exists|context: Option<TraceContext>| #[trigger]
            is_active_context(context) && trace_id == match context {
                Some(context) => Some(context.trace_id),
                None => None,
            },
{
    let active = current_span_id();
    assert(is_active(active));
    let context = match active {
        Some(id) => {
            let dispatch = current_dispatch();
            assert(is_in_force(dispatch));
            let registry = registry_of(&dispatch);
            assert(leads_to(dispatch, registry));
            let context = match registry {
                Some(registry) => {
                    let span = known_span(registry, &id);
                    assert(is_known(*registry, id, span));
                    match span {
                        Some(span) => stored_context(&span),
                        None => None,
                    }
                },
                None => None,
            };
            assert(is_reached(dispatch, id, context));
            context
        },
        None => None,
    };
    assert(is_active_context(context));
    trace_id_of(context)
}

/// Each step on the way to a trace context is one outside call.
proof fn lemma_steps_are_calls(
    active: Option<Id>,
    dispatch: Dispatch,
    registry: Registry,
    reached: Option<&Registry>,
    id: Id,
    span: KnownSpan<'_>,
    known: Option<KnownSpan<'_>>,
    context: Option<TraceContext>,
)
    ensures
        is_active(active) ==> call_ensures(current_span_id, (), active),
        is_in_force(dispatch) ==> call_ensures(current_dispatch, (), dispatch),
        leads_to(dispatch, reached) ==> call_ensures(registry_of, (&dispatch,), reached),
        is_known(registry, id, known) ==> call_ensures(known_span, (&registry, &id), known),
        is_stored(span, context) ==> call_ensures(stored_context, (&span,), context),
{
}

/// There is a trace id only if a span is active, a dispatcher in force leads to a registry, that
/// registry knows the span, and a trace context is stored with it; it is then that of the context.
/// There is none only if one of these steps gave nothing.
pub proof fn law_the_trace_is_that_of_the_active_span(trace_id: Option<u128>)
    requires
        call_ensures(current_trace_id, (), trace_id),
    ensures
        trace_id matches Some(trace_id) ==> exists|
            id: Id,
            dispatch: Dispatch,
            registry: Registry,
            span: KnownSpan<'_>,
            context: TraceContext,
        |
            {
                &&& #[trigger] is_active(Some(id))
                &&& #[trigger] is_in_force(dispatch)
                &&& #[trigger] leads_to(dispatch, Some(&registry))
                &&& #[trigger] is_known(registry, id, Some(span))
                &&& #[trigger] is_stored(span, Some(context))
                &&& context.trace_id == trace_id
            },
        trace_id is None ==> {
            ||| is_active(None)
            ||| exists|id: Id, dispatch: Dispatch|
                {
                    &&& #[trigger] is_active(Some(id))
                    &&& #[trigger] is_in_force(dispatch)
                    &&& leads_to(dispatch, None)
                }
            ||| exists|id: Id, dispatch: Dispatch, registry: Registry|
                {
                    &&& is_active(Some(id))
                    &&& is_in_force(dispatch)
                    &&& #[trigger] leads_to(dispatch, Some(&registry))
                    &&& #[trigger] is_known(registry, id, None)
                }
            ||| exists|id: Id, dispatch: Dispatch, registry: Registry, span: KnownSpan<'_>|
                {
                    &&& is_active(Some(id))
                    &&& is_in_force(dispatch)
                    &&& #[trigger] leads_to(dispatch, Some(&registry))
                    &&& #[trigger] is_known(registry, id, Some(span))
                    &&& is_stored(span, None)
                }
        },
{
    let context = choose|context: Option<TraceContext>| #[trigger]
        is_active_context(context) && trace_id == match context {
            Some(context) => Some(context.trace_id),
            None => None,
        };
    let active = choose|id: Option<Id>| #[trigger]
        is_active(id) && match id {
            Some(id) => exists|dispatch: Dispatch| #[trigger]
                is_in_force(dispatch) && is_reached(dispatch, id, context),
            None => context is None,
        };
    if let Some(id) = active {
        let dispatch = choose|dispatch: Dispatch| #[trigger]
            is_in_force(dispatch) && is_reached(dispatch, id, context);
        let reached = choose|registry: Option<&Registry>| #[trigger]
            leads_to(dispatch, registry) && match registry {
                Some(registry) => is_held(*registry, id, context),
                None => context is None,
            };
        if let Some(registry) = reached {
            let known = choose|span: Option<KnownSpan<'_>>| #[trigger]
                is_known(*registry, id, span) && match span {
                    Some(span) => is_stored(span, context),
                    None => context is None,
                };
            assert(leads_to(dispatch, Some(registry)));
            if let Some(span) = known {
                assert(is_stored(span, context));
                lemma_steps_are_calls(
                    active,
                    dispatch,
                    *registry,
                    reached,
                    id,
                    span,
                    known,
                    context,
                );
            }
        }
    }
}

/// The trace id of a context is the one that it holds, whatever the number.
pub proof fn law_a_context_has_its_trace_id(context: Option<TraceContext>, trace_id: Option<u128>)
    requires
        call_ensures(trace_id_of, (context,), trace_id),
    ensures
        trace_id is Some <==> context is Some,
        context is Some ==> trace_id->0 == context->0.trace_id,
{
}

} // verus!
