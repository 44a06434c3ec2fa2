//! The layer: what it reports of spans and events.

use crate::config::{ClientSettings, Config};
use crate::fields::{
    fields_of, get_field, has_no_fields, insert_field, new_fields, no_fields, Fields,
};
use crate::json::{
    json_optional_u64, json_str, json_text, json_to_string, json_u128, optional_integer, Json,
};
use crate::model::{Agent, Batch, Error, Log, Metadata, Service, Tags, TransactionContext};
use crate::span::{
    began, elapsed, is_child, is_root, open_child, open_root, OpenSpan, SpanContext, SpanRecord,
    TraceContext, MAX_DURATION_NANOS,
};
use crate::tags::{fields_to_tags, tagged, MESSAGE_FIELD_NAME};
use crate::text::{decimal, decimal_text};
use crate::visitor::{shows, RootLinkVisitor, ToVisited};
use std::marker::PhantomData;
use vstd::prelude::*;

verus! {

/// The name of the agent, where the configuration names none.
pub const AGENT_NAME: &'static str = "tracing-elastic-apm";

/// How grave an event is, or how fine a span.
#[derive(Copy, Clone, PartialEq, Eq, Structural)]
pub enum Level {
    Trace,
    Debug,
    Info,
    Warn,
    Error,
}

impl Level {
    /// The name of the level.
    pub open spec fn name(self) -> Seq<char> {
        match self {
            Level::Trace => "TRACE"@,
            Level::Debug => "DEBUG"@,
            Level::Info => "INFO"@,
            Level::Warn => "WARN"@,
            Level::Error => "ERROR"@,
        }
    }

    /// The name of the level.
    pub fn as_str(&self) -> (name: &'static str)
        ensures
            name@ == self.name(),
    {
        match self {
            Level::Trace => "TRACE",
            Level::Debug => "DEBUG",
            Level::Info => "INFO",
            Level::Warn => "WARN",
            Level::Error => "ERROR",
        }
    }
}

/// Where in the code a span or an event comes from.
pub struct Callsite {
    pub level: Level,
    pub target: String,
}

/// The span that an event happened in.
pub struct EventSpan {
    pub id: u64,
    pub trace: TraceContext,
    pub timing: SpanContext,
}

/// `rand::random`: any number. Nothing is claimed of it. It panics if the system's source of
/// randomness fails while the generator of the thread is seeded or seeded anew.
#[verifier::external_body]
fn random_u128() -> (number: u128) {
    rand::random()
}

/// `number` is one that may be drawn at random.
pub closed spec fn is_drawn(number: u128) -> bool {
    call_ensures(random_u128, (), number)
}

/// `open` is what is kept of the span `id`, opened with the name `name` at `now` and `instant`.
///
/// With a parent it is a span in the parent's trace. Without one it is a transaction, in the trace
/// and under the span that it is linked to; if it is linked to no trace, in one whose id is drawn.
pub open spec fn is_opened(
    open: OpenSpan,
    id: u64,
    name: Seq<char>,
    now: u64,
    instant: u128,
    parent: Option<(u64, TraceContext)>,
    link: RootLinkVisitor,
) -> bool {
    match parent {
        Some((parent_id, trace)) => is_child(open, id, name, now, instant, parent_id, trace),
        None => {
            &&& is_root(open, id, name, now, instant, open.trace, link.parent_id)
            &&& match link.trace_id {
                Some(trace_id) => open.trace.trace_id == trace_id,
                None => is_drawn(open.trace.trace_id),
            }
        },
    }
}

/// The metadata that a configuration asks for.
pub open spec fn is_metadata_of(
    metadata: Metadata,
    config: Config,
    service_name: String,
    agent_version: String,
) -> bool {
    &&& metadata.service.name == service_name
    &&& match config.service {
        Some(service) => {
            &&& metadata.service.id == service.id
            &&& metadata.service.version == service.version
            &&& metadata.service.environment == service.environment
            &&& metadata.service.language == service.language
            &&& metadata.service.runtime == service.runtime
            &&& metadata.service.framework == service.framework
            &&& metadata.service.node == service.node
            &&& match service.agent {
                Some(agent) => metadata.service.agent == agent,
                None => is_default_agent(metadata.service.agent, agent_version),
            }
        },
        None => {
            &&& metadata.service.id is None
            &&& metadata.service.version is None
            &&& metadata.service.environment is None
            &&& metadata.service.language is None
            &&& metadata.service.runtime is None
            &&& metadata.service.framework is None
            &&& metadata.service.node is None
            &&& is_default_agent(metadata.service.agent, agent_version)
        },
    }
    &&& metadata.process == config.process
    &&& metadata.system == config.system
    &&& metadata.user == config.user
    &&& metadata.cloud == config.cloud
    &&& metadata.network == config.network
    &&& metadata.labels == config.labels
}

/// The agent, where the configuration names none.
pub open spec fn is_default_agent(agent: Agent, agent_version: String) -> bool {
    &&& agent.name@ == AGENT_NAME@
    &&& agent.version == agent_version
    &&& agent.ephemeral_id is None
    &&& agent.activation_method is None
}

/// The timing of a span, as labels tell it.
pub struct Timing {
    pub timestamp: Option<u64>,
    pub first_entered_timestamp: Option<u64>,
    pub busy: u128,
    pub idle: u128,
}

/// `labels` with the diagnostic ones added: the level and the target, and the timing if it is
/// asked for.
pub open spec fn with_diagnostics(
    labels: Map<Seq<char>, Json>,
    callsite: Callsite,
    timing: Option<Timing>,
) -> Map<Seq<char>, Json> {
    let labels = labels.insert("level"@, Json::Text(callsite.level.name())).insert(
        "target"@,
        Json::Text(callsite.target@),
    );
    match timing {
        Some(timing) => labels.insert("timestamp"@, optional_integer(timing.timestamp)).insert(
            "first_entered_timestamp"@,
            optional_integer(timing.first_entered_timestamp),
        ).insert("busy_ns"@, Json::Integer(timing.busy as int)).insert(
            "idle_ns"@,
            Json::Integer(timing.idle as int),
        ),
        None => labels,
    }
}

/// The message among the recorded fields, as JSON text; empty, if there is none.
pub open spec fn message_text(visited: Map<Seq<char>, Json>) -> Seq<char> {
    if visited.contains_key(MESSAGE_FIELD_NAME@) {
        json_text(visited[MESSAGE_FIELD_NAME@])
    } else {
        Seq::empty()
    }
}

/// `text` is there and holds `chars`.
pub open spec fn holds_text(text: Option<String>, chars: Seq<char>) -> bool {
    text matches Some(text) && text@ == chars
}

/// `error` is what is reported, under the id `error_id` and with the tags `tags`, of an event in
/// `span` that recorded `visited`.
pub open spec fn is_error(
    error: Error,
    error_id: u128,
    callsite: Callsite,
    span: EventSpan,
    visited: Map<Seq<char>, Json>,
    tags: Option<Tags>,
) -> bool {
    &&& error.id@ == decimal(error_id as nat)
    &&& holds_text(error.trace_id, decimal(span.trace.trace_id as nat))
    &&& holds_text(error.parent_id, decimal(span.id as nat))
    &&& holds_text(error.culprit, callsite.target@)
    &&& error.context == match tags {
        Some(tags) => Some(TransactionContext { tags: Some(tags) }),
        None => None,
    }
    &&& error.log matches Some(log) && {
        &&& holds_text(log.level, callsite.level.name())
        &&& log.message@ == message_text(visited)
    }
}

/// `batch` holds `record` and no other document.
pub open spec fn carries_record(batch: Batch, record: SpanRecord) -> bool {
    &&& batch.error is None
    &&& match record {
        SpanRecord::Span(span) => batch.span == Some(span) && batch.transaction is None,
        SpanRecord::Transaction(transaction) => batch.span is None && batch.transaction == Some(
            transaction,
        ),
    }
}

/// Only errors are reported.
pub fn reports(level: Level) -> (reported: bool)
    ensures
        reported == (level == Level::Error),
{
    level == Level::Error
}

/// The span that an event happened in: the one it names, none if it says that it has none, and the
/// current one otherwise.
pub fn event_parent(explicit: Option<u64>, is_root: bool, current: Option<u64>) -> (parent: Option<
    u64,
>)
    ensures
        parent == if explicit is Some {
            explicit
        } else if is_root {
            None
        } else {
            current
        },
{
    if explicit.is_some() {
        explicit
    } else if is_root {
        None
    } else {
        current
    }
}

/// The trace that a span without a parent belongs to: the one it is linked to, or else a new one,
/// whose id is drawn.
fn root_trace(link: &RootLinkVisitor) -> (trace: TraceContext)
    ensures
        match link.trace_id {
            Some(trace_id) => trace.trace_id == trace_id,
            None => is_drawn(trace.trace_id),
        },
{
    TraceContext {
        trace_id: match link.trace_id {
            Some(trace_id) => trace_id,
            None => random_u128(),
        },
    }
}

/// Telemetry capability that publishes events and spans to Elastic APM.
///
/// What `T` is the layer leaves open: it keeps it for whoever sends the batches. `U` is the type of
/// the visitors.
pub struct ApmLayer<T, U> {
    client: T,
    metadata: Metadata,
    timing_metadata_labels: bool,
    _phantom: PhantomData<U>,
}

impl<T, U> ApmLayer<T, U> {
    /// The metadata that every batch comes with.
    pub closed spec fn stream_metadata(&self) -> Metadata {
        self.metadata
    }

    /// Labels tell the timing of spans.
    pub closed spec fn has_timing_labels(&self) -> bool {
        self.timing_metadata_labels
    }

    /// What sends the batches.
    pub closed spec fn sender(&self) -> T {
        self.client
    }

    /// What sends the batches.
    pub fn client(&self) -> (client: &T)
        ensures
            *client == self.sender(),
    {
        &self.client
    }

    /// Whether labels tell the timing of spans.
    pub fn timing_metadata_labels(&self) -> (enabled: bool)
        ensures
            enabled == self.has_timing_labels(),
    {
        self.timing_metadata_labels
    }
}

impl<T, U: ToVisited> ApmLayer<T, U> {
    /// Makes a layer whose client is made by `connect`, of what the configuration says of it.
    pub fn new<E, F: FnOnce(ClientSettings) -> Result<T, E>>(
        config: Config,
        service_name: String,
        agent_version: String,
        connect: F,
    ) -> (layer: Result<ApmLayer<T, U>, E>)
        requires
            connect.requires((config.settings(),)),
        ensures
            match layer {
                Ok(layer) => {
                    &&& connect.ensures((config.settings(),), Ok(layer.sender()))
                    &&& is_metadata_of(
                        layer.stream_metadata(),
                        config,
                        service_name,
                        agent_version,
                    )
                    &&& !layer.has_timing_labels()
                },
                Err(error) => connect.ensures((config.settings(),), Err(error)),
            },
    {
        let mut config = config;
        let settings = config.take_client_settings();
        let metadata = Self::setup_metadata(config, service_name, agent_version);
        match connect(settings) {
            Ok(client) => Ok(
                ApmLayer { client, metadata, timing_metadata_labels: false, _phantom: PhantomData },
            ),
            Err(error) => Err(error),
        }
    }

    /// Makes a layer with a client that is already there.
    pub fn new_with(
        config: Config,
        service_name: String,
        agent_version: String,
        sender: T,
    ) -> (layer: ApmLayer<T, U>)
        ensures
            layer.sender() == sender,
            is_metadata_of(layer.stream_metadata(), config, service_name, agent_version),
            !layer.has_timing_labels(),
    {
        let metadata = Self::setup_metadata(config, service_name, agent_version);
        ApmLayer { client: sender, metadata, timing_metadata_labels: false, _phantom: PhantomData }
    }

    /// Lets labels tell the timing of spans from now on.
    pub fn with_timing_metadata_labels(&mut self)
        ensures
            final(self).has_timing_labels(),
            final(self).sender() == old(self).sender(),
            final(self).stream_metadata() == old(self).stream_metadata(),
    {
        self.timing_metadata_labels = true;
    }

    /// Makes the metadata that a configuration asks for.
    pub fn setup_metadata(
        config: Config,
        service_name: String,
        agent_version: String,
    ) -> (metadata: Metadata)
        ensures
            is_metadata_of(metadata, config, service_name, agent_version),
    {
        let default_agent = Agent {
            name: AGENT_NAME.to_string(),
            version: agent_version,
            ephemeral_id: None,
            activation_method: None,
        };
        let service = match config.service {
            Some(service) => Service {
                name: service_name,
                id: service.id,
                version: service.version,
                environment: service.environment,
                language: service.language,
                runtime: service.runtime,
                framework: service.framework,
                agent: match service.agent {
                    Some(agent) => agent,
                    None => default_agent,
                },
                node: service.node,
            },
            None => Service {
                name: service_name,
                id: None,
                version: None,
                environment: None,
                language: None,
                runtime: None,
                framework: None,
                agent: default_agent,
                node: None,
            },
        };
        Metadata {
            service,
            process: config.process,
            system: config.system,
            user: config.user,
            cloud: config.cloud,
            network: config.network,
            labels: config.labels,
        }
    }

    /// The timing in labels, if there is any, fits JSON numbers.
    pub open spec fn labels_fit(
        &self,
        visited: Map<Seq<char>, Json>,
        span_ctx: SpanContext,
    ) -> bool {
        self.has_timing_labels() && visited != no_fields() ==> span_ctx.busy <= u64::MAX
            && span_ctx.idle <= u64::MAX
    }

    /// `metadata` comes with an event or a span that recorded `visited`: the metadata of the
    /// stream, to whose labels diagnostic ones are added if anything was recorded.
    pub open spec fn is_event_metadata(
        &self,
        metadata: Metadata,
        visited: Map<Seq<char>, Json>,
        span_ctx: SpanContext,
        timestamp: Option<u64>,
        first_entered_timestamp: Option<u64>,
        callsite: Callsite,
    ) -> bool {
        let stream = self.stream_metadata();
        &&& metadata.same_origin(stream)
        &&& metadata.labels is Some <==> stream.labels is Some || visited != no_fields()
        &&& metadata.label_map() == if visited == no_fields() {
            stream.label_map()
        } else {
            with_diagnostics(
                stream.label_map(),
                callsite,
                if self.has_timing_labels() {
                    Some(
                        Timing {
                            timestamp,
                            first_entered_timestamp,
                            busy: span_ctx.busy,
                            idle: span_ctx.idle,
                        },
                    )
                } else {
                    None
                },
            )
        }
    }

    /// Whatever `visitor` shows, the timing in labels fits JSON numbers.
    pub open spec fn labels_fit_all(&self, visitor: U, span_ctx: SpanContext) -> bool {
        forall|visited: Fields| #[trigger]
            shows(visitor, visited) ==> self.labels_fit(fields_of(visited), span_ctx)
    }

    /// Makes the metadata that comes with an event or a span whose fields `visitor` shows.
    pub fn create_metadata(
        &self,
        visitor: &U,
        span_ctx: &SpanContext,
        timestamp: Option<u64>,
        first_entered_timestamp: Option<u64>,
        callsite: &Callsite,
    ) -> (metadata: Metadata)
        requires
            self.labels_fit_all(*visitor, *span_ctx),
        ensures
            exists|visited: Fields| #[trigger]
                shows(*visitor, visited) && self.is_event_metadata(
                    metadata,
                    fields_of(visited),
                    *span_ctx,
                    timestamp,
                    first_entered_timestamp,
                    *callsite,
                ),
    {
        let visited = visitor.to_visited();
        assert(shows(*visitor, *visited));
        self.event_metadata(visited, span_ctx, timestamp, first_entered_timestamp, callsite)
    }

    /// Makes the metadata that comes with an event or a span that recorded `visited`.
    ///
    /// What users recorded goes into the tags of the document itself; the labels here are those of
    /// the whole stream, and the diagnostic level, target and timing.
    pub fn event_metadata(
        &self,
        visited: &Fields,
        span_ctx: &SpanContext,
        timestamp: Option<u64>,
        first_entered_timestamp: Option<u64>,
        callsite: &Callsite,
    ) -> (metadata: Metadata)
        requires
            self.labels_fit(fields_of(*visited), *span_ctx),
        ensures
            self.is_event_metadata(
                metadata,
                fields_of(*visited),
                *span_ctx,
                timestamp,
                first_entered_timestamp,
                *callsite,
            ),
    {
        let mut metadata = self.metadata.clone();
        if !has_no_fields(visited) {
            let mut labels = match metadata.labels {
                Some(labels) => labels,
                None => new_fields(),
            };
            insert_field(&mut labels, "level".to_string(), json_str(callsite.level.as_str()));
            insert_field(&mut labels, "target".to_string(), json_str(callsite.target.as_str()));
            if self.timing_metadata_labels {
                insert_field(&mut labels, "timestamp".to_string(), json_optional_u64(timestamp));
                insert_field(
                    &mut labels,
                    "first_entered_timestamp".to_string(),
                    json_optional_u64(first_entered_timestamp),
                );
                insert_field(&mut labels, "busy_ns".to_string(), json_u128(span_ctx.busy));
                insert_field(&mut labels, "idle_ns".to_string(), json_u128(span_ctx.idle));
            }
            metadata.labels = Some(labels);
        }
        metadata
    }

    /// A span is opened: `id` and `name` are its own, `now` is the time in microseconds since the
    /// Unix epoch, `instant` the time on a monotonic clock, and `link` what its fields say of a
    /// link, which only counts if it has no parent.
    pub fn on_new_span(
        &self,
        id: u64,
        name: &str,
        now: u64,
        instant: u128,
        parent: Option<(u64, TraceContext)>,
        link: &RootLinkVisitor,
    ) -> (open: OpenSpan)
        ensures
            is_opened(open, id, name@, now, instant, parent, *link),
    {
        match parent {
            Some((parent_id, trace)) => open_child(id, name, now, instant, parent_id, trace),
            None => open_root(id, name, now, instant, root_trace(link), link.parent_id),
        }
    }

    /// A span is entered.
    pub fn on_enter(&self, span_ctx: &mut SpanContext, instant: u128, read: u128, timestamp: u64)
        requires
            old(span_ctx).idle + elapsed(old(span_ctx).instant, read) <= MAX_DURATION_NANOS,
        ensures
            *final(span_ctx) == old(span_ctx).entered(instant, read, timestamp),
    {
        span_ctx.enter(instant, read, timestamp);
    }

    /// A span is exited.
    pub fn on_exit(&self, span_ctx: &mut SpanContext, instant: u128, read: u128)
        requires
            old(span_ctx).busy + elapsed(old(span_ctx).instant, read) <= MAX_DURATION_NANOS,
        ensures
            *final(span_ctx) == old(span_ctx).exited(instant, read),
    {
        span_ctx.exit(instant, read);
    }

    /// What is reported, under the id `error_id`, of an event in `span`.
    pub fn error_of(
        error_id: u128,
        callsite: &Callsite,
        span: &EventSpan,
        visited: &Fields,
        tags: Option<Tags>,
    ) -> (error: Error)
        ensures
            is_error(error, error_id, *callsite, *span, fields_of(*visited), tags),
    {
        Error {
            id: decimal_text(error_id),
            trace_id: Some(decimal_text(span.trace.trace_id)),
            parent_id: Some(decimal_text(span.id as u128)),
            culprit: Some(callsite.target.clone()),
            context: match tags {
                Some(tags) => Some(TransactionContext { tags: Some(tags) }),
                None => None,
            },
            log: Some(
                Log {
                    level: Some(callsite.level.as_str().to_string()),
                    message: match get_field(visited, MESSAGE_FIELD_NAME) {
                        Some(message) => json_to_string(message),
                        None => String::new(),
                    },
                },
            ),
        }
    }

    /// `batch` is what is reported of an event in `span`, if there is one, that recorded `visited`:
    /// an error in a span, and nothing else, is reported, under an id that is drawn.
    pub open spec fn is_event_report(
        &self,
        batch: Option<Batch>,
        callsite: Callsite,
        span: Option<EventSpan>,
        visited: Map<Seq<char>, Json>,
    ) -> bool {
        &&& batch is Some <==> callsite.level == Level::Error && span is Some
        &&& batch matches Some(batch) ==> {
            &&& self.is_event_metadata(
                batch.metadata,
                visited,
                span->0.timing,
                None,
                None,
                callsite,
            )
            &&& batch.transaction is None
            &&& batch.span is None
            &&& batch.error matches Some(error) && exists|error_id: u128, tags: Option<Tags>|
                is_drawn(error_id) && tagged(tags, visited) && #[trigger] is_error(
                    error,
                    error_id,
                    callsite,
                    span->0,
                    visited,
                    tags,
                )
        }
    }

    /// An event happened, in `span` if there is one, whose fields `visitor` shows.
    pub fn on_event(
        &self,
        callsite: &Callsite,
        span: Option<EventSpan>,
        visitor: &U,
    ) -> (batch: Option<Batch>)
        requires
            callsite.level == Level::Error && span is Some ==> self.labels_fit_all(
                *visitor,
                span->0.timing,
            ),
        ensures
            exists|visited: Fields| #[trigger]
                shows(*visitor, visited) && self.is_event_report(
                    batch,
                    *callsite,
                    span,
                    fields_of(visited),
                ),
    {
        let visited = visitor.to_visited();
        assert(shows(*visitor, *visited));
        self.report_event(callsite, span, visited)
    }

    /// Makes what is reported of an event in `span`, if there is one, that recorded `visited`.
    pub fn report_event(
        &self,
        callsite: &Callsite,
        span: Option<EventSpan>,
        visited: &Fields,
    ) -> (batch: Option<Batch>)
        requires
            callsite.level == Level::Error && span is Some ==> self.labels_fit(
                fields_of(*visited),
                span->0.timing,
            ),
        ensures
            self.is_event_report(batch, *callsite, span, fields_of(*visited)),
    {
        if !reports(callsite.level) {
            return None;
        }
        match span {
            Some(span) => {
                let tags = fields_to_tags(visited);
                let error_id: u128 = random_u128();
                let error = Self::error_of(error_id, callsite, &span, visited, tags);
                let metadata = self.event_metadata(visited, &span.timing, None, None, callsite);
                Some(Batch::new(metadata, None, None, Some(error)))
            },
            None => None,
        }
    }

    /// `batch` is what is reported of a span that closes at `now` and recorded `visited`: its
    /// record, closed, with its tags.
    pub open spec fn is_close_report(
        &self,
        batch: Option<Batch>,
        span_ctx: SpanContext,
        record: Option<SpanRecord>,
        now: u64,
        callsite: Callsite,
        visited: Map<Seq<char>, Json>,
    ) -> bool {
        &&& batch is Some <==> record is Some
        &&& batch matches Some(batch) ==> {
            &&& self.is_event_metadata(
                batch.metadata,
                visited,
                span_ctx,
                Some(record->0.spec_timestamp()),
                span_ctx.first_entered_timestamp,
                callsite,
            )
            &&& exists|tags: Option<Tags>|
                tagged(tags, visited) && carries_record(
                    batch,
                    #[trigger] record->0.closed(span_ctx.first_entered_timestamp, now, tags),
                )
        }
    }

    /// A span whose fields `visitor` shows closes at `now`.
    pub fn on_close(
        &self,
        visitor: &U,
        span_ctx: &SpanContext,
        record: Option<SpanRecord>,
        now: u64,
        callsite: &Callsite,
    ) -> (batch: Option<Batch>)
        requires
            record matches Some(record) ==> began(
                span_ctx.first_entered_timestamp,
                record.spec_timestamp(),
            ) <= now && self.labels_fit_all(*visitor, *span_ctx),
        ensures
            exists|visited: Fields| #[trigger]
                shows(*visitor, visited) && self.is_close_report(
                    batch,
                    *span_ctx,
                    record,
                    now,
                    *callsite,
                    fields_of(visited),
                ),
    {
        let visited = visitor.to_visited();
        assert(shows(*visitor, *visited));
        self.report_close(visited, span_ctx, record, now, callsite)
    }

    /// Makes what is reported of a span that closes at `now` and recorded `visited`.
    pub fn report_close(
        &self,
        visited: &Fields,
        span_ctx: &SpanContext,
        record: Option<SpanRecord>,
        now: u64,
        callsite: &Callsite,
    ) -> (batch: Option<Batch>)
        requires
            record matches Some(record) ==> began(
                span_ctx.first_entered_timestamp,
                record.spec_timestamp(),
            ) <= now && self.labels_fit(fields_of(*visited), *span_ctx),
        ensures
            self.is_close_report(batch, *span_ctx, record, now, *callsite, fields_of(*visited)),
    {
        match record {
            Some(record) => {
                let tags = fields_to_tags(visited);
                let metadata = self.event_metadata(
                    visited,
                    span_ctx,
                    Some(record.timestamp()),
                    span_ctx.first_entered_timestamp,
                    callsite,
                );
                match record.close(span_ctx.first_entered_timestamp, now, tags) {
                    SpanRecord::Span(span) => Some(Batch::new(metadata, None, Some(span), None)),
                    SpanRecord::Transaction(transaction) => Some(
                        Batch::new(metadata, Some(transaction), None, None),
                    ),
                }
            },
            None => None,
        }
    }
}

/// A number that is drawn comes of an outside call.
proof fn lemma_drawing_is_a_call(number: u128)
    ensures
        is_drawn(number) ==> call_ensures(random_u128, (), number),
{
}

/// A span that has no parent and is linked to no trace starts a trace whose id is drawn, and is not
/// made of anything else.
pub proof fn law_new_traces_are_drawn<T, U: ToVisited>(
    layer: ApmLayer<T, U>,
    id: u64,
    name: &str,
    now: u64,
    instant: u128,
    link: RootLinkVisitor,
    open: OpenSpan,
)
    requires
        call_ensures(
            ApmLayer::<T, U>::on_new_span,
            (&layer, id, name, now, instant, None, &link),
            open,
        ),
        link.trace_id is None,
    ensures
        is_drawn(open.trace.trace_id),
{
    lemma_drawing_is_a_call(open.trace.trace_id);
}

} // verus!
