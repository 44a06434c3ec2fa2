//! What a configuration asks for, and the metadata that documents come with.

use crate::config::{ClientSettings, Config};
use crate::fields::{fields_of, no_fields, Fields};
use crate::json::Json;
use crate::layer::{ApmLayer, Callsite, EventSpan, Level};
use crate::model::{Batch, Metadata, Tags};
use crate::span::{SpanContext, SpanRecord};
use crate::visitor::ToVisited;
use crate::{new_layer, new_layer_with_sender};
use vstd::prelude::*;

verus! {

/// The label `name`, if it is there.
pub open spec fn label(labels: Option<Tags>, name: Seq<char>) -> Option<Json> {
    match labels {
        Some(labels) => if fields_of(labels).contains_key(name) {
            Some(fields_of(labels)[name])
        } else {
            None
        },
        None => None,
    }
}

/// The name that a level goes by.
pub open spec fn level_text(level: Level) -> Seq<char> {
    match level {
        Level::Trace => "TRACE"@,
        Level::Debug => "DEBUG"@,
        Level::Info => "INFO"@,
        Level::Warn => "WARN"@,
        Level::Error => "ERROR"@,
    }
}

/// A point in time as a label tells it.
pub open spec fn told(timestamp: Option<u64>) -> Json {
    match timestamp {
        Some(timestamp) => Json::Integer(timestamp as int),
        None => Json::Null,
    }
}

/// Something was recorded.
pub open spec fn is_recorded(fields: Map<Seq<char>, Json>) -> bool {
    exists|name: Seq<char>| fields.contains_key(name)
}

/// What labels can tell of a span or an event.
pub struct Particulars {
    pub callsite: Callsite,
    pub timing: SpanContext,
    pub opened: Option<u64>,
    pub entered: Option<u64>,
}

/// `metadata` is that of `stream`, but for the labels.
pub open spec fn is_of_stream(metadata: Metadata, stream: Metadata) -> bool {
    &&& metadata.service == stream.service
    &&& metadata.process == stream.process
    &&& metadata.system == stream.system
    &&& metadata.user == stream.user
    &&& metadata.cloud == stream.cloud
    &&& metadata.network == stream.network
}

/// `labels` are those of `stream`. If something was recorded, they also tell the level and the
/// target, and, if `timed`, when the span was opened and first entered and how long it was busy
/// and idle; these take the place of labels of the same names.
pub open spec fn tell(
    labels: Option<Tags>,
    stream: Option<Tags>,
    recorded: bool,
    timed: bool,
    particulars: Particulars,
) -> bool {
    &&& labels is Some <==> stream is Some || recorded
    &&& recorded ==> {
        &&& label(labels, "level"@) == Some(Json::Text(level_text(particulars.callsite.level)))
        &&& label(labels, "target"@) == Some(Json::Text(particulars.callsite.target@))
    }
    &&& recorded && timed ==> {
        &&& label(labels, "timestamp"@) == Some(told(particulars.opened))
        &&& label(labels, "first_entered_timestamp"@) == Some(told(particulars.entered))
        &&& label(labels, "busy_ns"@) == Some(Json::Integer(particulars.timing.busy as int))
        &&& label(labels, "idle_ns"@) == Some(Json::Integer(particulars.timing.idle as int))
    }
    &&& forall|name: Seq<char>|
        !(recorded && (name == "level"@ || name == "target"@)) && !(recorded && timed && (name
            == "timestamp"@ || name == "first_entered_timestamp"@ || name == "busy_ns"@ || name
            == "idle_ns"@)) ==> #[trigger] label(labels, name) == label(stream, name)
}

/// `metadata` comes with a span or an event that recorded `fields`.
pub open spec fn comes_with<T, U: ToVisited>(
    layer: ApmLayer<T, U>,
    metadata: Metadata,
    fields: Map<Seq<char>, Json>,
    particulars: Particulars,
) -> bool {
    &&& is_of_stream(metadata, layer.stream_metadata())
    &&& tell(
        metadata.labels,
        layer.stream_metadata().labels,
        is_recorded(fields),
        layer.has_timing_labels(),
        particulars,
    )
}

/// What is said of metadata in terms of names holds of the metadata that is made.
pub proof fn lemma_event_metadata_comes_with<T, U: ToVisited>(
    layer: ApmLayer<T, U>,
    metadata: Metadata,
    fields: Map<Seq<char>, Json>,
    particulars: Particulars,
)
    requires
        layer.is_event_metadata(
            metadata,
            fields,
            particulars.timing,
            particulars.opened,
            particulars.entered,
            particulars.callsite,
        ),
    ensures
        comes_with(layer, metadata, fields, particulars),
{
    reveal_strlit("level");
    reveal_strlit("target");
    reveal_strlit("timestamp");
    reveal_strlit("first_entered_timestamp");
    reveal_strlit("busy_ns");
    reveal_strlit("idle_ns");
    assert("busy_ns"@[0] != "idle_ns"@[0]);
    assert("level"@.len() == 5 && "target"@.len() == 6 && "busy_ns"@.len() == 7);
    assert("timestamp"@.len() == 9 && "first_entered_timestamp"@.len() == 23);
    if !is_recorded(fields) {
        assert(fields =~= no_fields());
    }
    let stream = layer.stream_metadata();
    lemma_label_is_in_the_map(metadata);
    lemma_label_is_in_the_map(stream);
    assert(is_recorded(fields) <==> fields != no_fields());
    assert(metadata.labels is Some <==> stream.labels is Some || is_recorded(fields));
}

/// A label is looked up in the map of labels.
proof fn lemma_label_is_in_the_map(metadata: Metadata)
    ensures
        forall|name: Seq<char>| #[trigger]
            label(metadata.labels, name) == if metadata.label_map().contains_key(name) {
                Some(metadata.label_map()[name])
            } else {
                None
            },
{
}

/// The metadata that is made for a span or an event comes with what it recorded.
pub proof fn law_metadata_tells_where_and_when<T, U: ToVisited>(
    layer: ApmLayer<T, U>,
    visited: Fields,
    particulars: Particulars,
    metadata: Metadata,
)
    requires
        call_ensures(
            ApmLayer::<T, U>::event_metadata,
            (
                &layer,
                &visited,
                &particulars.timing,
                particulars.opened,
                particulars.entered,
                &particulars.callsite,
            ),
            metadata,
        ),
    ensures
        comes_with(layer, metadata, fields_of(visited), particulars),
{
    lemma_event_metadata_comes_with(layer, metadata, fields_of(visited), particulars);
}

/// What holds of recorded fields holds of those that a visitor shows.
pub proof fn law_metadata_tells_of_a_visitor<T, U: ToVisited>(
    layer: ApmLayer<T, U>,
    visitor: U,
    particulars: Particulars,
    metadata: Metadata,
)
    requires
        call_ensures(
            ApmLayer::<T, U>::create_metadata,
            (
                &layer,
                &visitor,
                &particulars.timing,
                particulars.opened,
                particulars.entered,
                &particulars.callsite,
            ),
            metadata,
        ),
    ensures
        exists|visited: Fields| #[trigger]
            call_ensures(U::to_visited, (&visitor,), &visited) && comes_with(
                layer,
                metadata,
                fields_of(visited),
                particulars,
            ),
{
    let visited = choose|visited: Fields| #[trigger]
        call_ensures(U::to_visited, (&visitor,), &visited) && layer.is_event_metadata(
            metadata,
            fields_of(visited),
            particulars.timing,
            particulars.opened,
            particulars.entered,
            particulars.callsite,
        );
    lemma_event_metadata_comes_with(layer, metadata, fields_of(visited), particulars);
}

/// Every level has its name, in capitals.
pub proof fn law_levels_go_by_their_names(level: Level, name: &'static str)
    requires
        call_ensures(Level::as_str, (&level,), name),
    ensures
        name@ == level_text(level),
{
}

/// What a configuration says of the service, and of what it runs on and for, is in `metadata`; an
/// agent that it does not name is this package.
pub open spec fn is_asked_for(
    metadata: Metadata,
    config: Config,
    service_name: String,
    agent_version: String,
) -> bool {
    &&& metadata.service.name@ == service_name@
    &&& config.service matches Some(service) ==> {
        &&& metadata.service.id == service.id
        &&& metadata.service.version == service.version
        &&& metadata.service.environment == service.environment
        &&& metadata.service.language == service.language
        &&& metadata.service.runtime == service.runtime
        &&& metadata.service.framework == service.framework
        &&& metadata.service.node == service.node
    }
    &&& config.service is None ==> {
        &&& metadata.service.id is None
        &&& metadata.service.version is None
        &&& metadata.service.environment is None
        &&& metadata.service.language is None
        &&& metadata.service.runtime is None
        &&& metadata.service.framework is None
        &&& metadata.service.node is None
    }
    &&& match config.service {
        Some(service) => service.agent matches Some(agent) ==> metadata.service.agent == agent,
        None => true,
    }
    &&& (config.service is None || config.service->0.agent is None) ==> {
        &&& metadata.service.agent.name@ == "tracing-elastic-apm"@
        &&& metadata.service.agent.version@ == agent_version@
        &&& metadata.service.agent.ephemeral_id is None
        &&& metadata.service.agent.activation_method is None
    }
    &&& metadata.process == config.process
    &&& metadata.system == config.system
    &&& metadata.user == config.user
    &&& metadata.cloud == config.cloud
    &&& metadata.network == config.network
}

/// The metadata of a stream is what the configuration asks for, with its labels.
pub proof fn law_metadata_is_what_is_asked_for<T, U: ToVisited>(
    config: Config,
    service_name: String,
    agent_version: String,
    metadata: Metadata,
)
    requires
        call_ensures(
            ApmLayer::<T, U>::setup_metadata,
            (config, service_name, agent_version),
            metadata,
        ),
    ensures
        is_asked_for(metadata, config, service_name, agent_version),
        metadata.labels == config.labels,
{
}

/// `batch` may be reported by `layer`, of a span that closes or of an event.
pub open spec fn may_report<T, U: ToVisited>(layer: ApmLayer<T, U>, batch: Batch) -> bool {
    ||| exists|
        visited: Fields,
        timing: SpanContext,
        record: Option<SpanRecord>,
        now: u64,
        callsite: Callsite,
    |
        call_ensures(
            ApmLayer::<T, U>::report_close,
            (&layer, &visited, &timing, record, now, &callsite),
            Some(batch),
        )
    ||| exists|
        visitor: U,
        timing: SpanContext,
        record: Option<SpanRecord>,
        now: u64,
        callsite: Callsite,
    |
        call_ensures(
            ApmLayer::<T, U>::on_close,
            (&layer, &visitor, &timing, record, now, &callsite),
            Some(batch),
        )
    ||| exists|callsite: Callsite, span: Option<EventSpan>, visited: Fields|
        call_ensures(
            ApmLayer::<T, U>::report_event,
            (&layer, &callsite, span, &visited),
            Some(batch),
        )
    ||| exists|callsite: Callsite, span: Option<EventSpan>, visitor: U|
        call_ensures(ApmLayer::<T, U>::on_event, (&layer, &callsite, span, &visitor), Some(batch))
}

/// The name of a label that is added to those of the stream.
pub open spec fn is_added(name: Seq<char>, timed: bool) -> bool {
    ||| name == "level"@
    ||| name == "target"@
    ||| timed && (name == "timestamp"@ || name == "first_entered_timestamp"@ || name == "busy_ns"@
        || name == "idle_ns"@)
}

/// Every batch that `layer` may report comes with what `config` asks for, and, but for the labels
/// that are added, with its labels.
pub open spec fn reports_for<T, U: ToVisited>(
    layer: ApmLayer<T, U>,
    timed: bool,
    config: Config,
    service_name: String,
    agent_version: String,
) -> bool {
    forall|batch: Batch| #[trigger]
        may_report(layer, batch) ==> {
            &&& is_asked_for(batch.metadata, config, service_name, agent_version)
            &&& forall|name: Seq<char>|
                !is_added(name, timed) ==> #[trigger] label(batch.metadata.labels, name) == label(
                    config.labels,
                    name,
                )
        }
}

/// What a layer may report comes with the metadata of its stream.
proof fn lemma_reports_are_of_the_stream<T, U: ToVisited>(layer: ApmLayer<T, U>, batch: Batch)
    requires
        may_report(layer, batch),
    ensures
        is_of_stream(batch.metadata, layer.stream_metadata()),
        forall|name: Seq<char>|
            !is_added(name, layer.has_timing_labels()) ==> #[trigger] label(
                batch.metadata.labels,
                name,
            ) == label(layer.stream_metadata().labels, name),
{
    assert forall|
        fields: Map<Seq<char>, Json>,
        timing: SpanContext,
        opened: Option<u64>,
        entered: Option<u64>,
        callsite: Callsite,
    | #[trigger]
        layer.is_event_metadata(
            batch.metadata,
            fields,
            timing,
            opened,
            entered,
            callsite,
        ) implies comes_with(
        layer,
        batch.metadata,
        fields,
        Particulars { callsite, timing, opened, entered },
    ) by {
        let particulars = Particulars { callsite, timing, opened, entered };
        lemma_event_metadata_comes_with(layer, batch.metadata, fields, particulars);
    }
}

/// A layer that is made with a client keeps it, tells no timing, and reports for the configuration
/// that it is made of.
pub proof fn law_a_layer_reports_for_its_configuration<T, U: ToVisited>(
    config: Config,
    service_name: String,
    agent_version: String,
    sender: T,
    layer: ApmLayer<T, U>,
)
    requires
        ({
            ||| call_ensures(
                ApmLayer::<T, U>::new_with,
                (config, service_name, agent_version, sender),
                layer,
            )
            ||| call_ensures(
                new_layer_with_sender::<T, U>,
                (service_name, config, agent_version, sender),
                layer,
            )
        }),
    ensures
        layer.sender() == sender,
        !layer.has_timing_labels(),
        is_asked_for(layer.stream_metadata(), config, service_name, agent_version),
        layer.stream_metadata().labels == config.labels,
        reports_for(layer, false, config, service_name, agent_version),
        forall|batch: Batch| #[trigger]
            may_report(layer, batch) ==> {
                &&& batch.metadata.process == config.process
                &&& batch.metadata.system == config.system
                &&& batch.metadata.user == config.user
                &&& batch.metadata.cloud == config.cloud
                &&& batch.metadata.network == config.network
                &&& batch.metadata.service.name@ == service_name@
            },
{
    assert forall|batch: Batch| #[trigger] may_report(layer, batch) implies is_of_stream(
        batch.metadata,
        layer.stream_metadata(),
    ) && forall|name: Seq<char>|
        !is_added(name, false) ==> #[trigger] label(batch.metadata.labels, name) == label(
            config.labels,
            name,
        ) by {
        lemma_reports_are_of_the_stream(layer, batch);
    }
}

/// A layer that makes its client asks for one by what the configuration says of the server, all of
/// it. If there is a client, the layer keeps it, tells no timing, and reports for the configuration;
/// if not, there is no layer, and the error is the client's.
pub proof fn law_a_layer_connects_as_configured<
    T,
    U: ToVisited,
    E,
    F: FnOnce(ClientSettings) -> Result<T, E>,
>(
    config: Config,
    service_name: String,
    agent_version: String,
    connect: F,
    made: Result<ApmLayer<T, U>, E>,
)
    requires
        ({
            ||| call_ensures(
                ApmLayer::<T, U>::new::<E, F>,
                (config, service_name, agent_version, connect),
                made,
            )
            ||| call_ensures(
                new_layer::<T, U, E, F>,
                (service_name, config, agent_version, connect),
                made,
            )
        }),
    ensures
        ({
            let settings = ClientSettings {
                apm_address: config.apm_address,
                authorization: config.authorization,
                allow_invalid_certs: config.allow_invalid_certs,
                root_cert_path: config.root_cert_path,
            };
            match made {
                Ok(layer) => {
                    &&& connect.ensures((settings,), Ok(layer.sender()))
                    &&& !layer.has_timing_labels()
                    &&& is_asked_for(layer.stream_metadata(), config, service_name, agent_version)
                    &&& layer.stream_metadata().labels == config.labels
                    &&& reports_for(layer, false, config, service_name, agent_version)
                },
                Err(error) => connect.ensures((settings,), Err(error)),
            }
        }),
{
    if let Ok(layer) = made {
        assert forall|batch: Batch| #[trigger] may_report(layer, batch) implies is_of_stream(
            batch.metadata,
            layer.stream_metadata(),
        ) && forall|name: Seq<char>|
            !is_added(name, false) ==> #[trigger] label(batch.metadata.labels, name) == label(
                config.labels,
                name,
            ) by {
            lemma_reports_are_of_the_stream(layer, batch);
        }
    }
}

/// Once labels are to tell the timing, they do, and nothing else about the layer has changed: it
/// still reports for the configuration that it was made of.
pub proof fn law_timing_labels_change_nothing_else<T, U: ToVisited>(
    layer: &mut ApmLayer<T, U>,
    config: Config,
    service_name: String,
    agent_version: String,
    sender: T,
)
    requires
        call_ensures(ApmLayer::<T, U>::with_timing_metadata_labels, (layer,), ()),
        call_ensures(
            ApmLayer::<T, U>::new_with,
            (config, service_name, agent_version, sender),
            *layer,
        ),
    ensures
        final(layer).has_timing_labels(),
        final(layer).sender() == sender,
        final(layer).stream_metadata() == old(layer).stream_metadata(),
        reports_for(*final(layer), true, config, service_name, agent_version),
{
    assert forall|batch: Batch| #[trigger] may_report(*final(layer), batch) implies is_of_stream(
        batch.metadata,
        layer.stream_metadata(),
    ) && forall|name: Seq<char>|
        !is_added(name, true) ==> #[trigger] label(batch.metadata.labels, name) == label(
            config.labels,
            name,
        ) by {
        lemma_reports_are_of_the_stream(*final(layer), batch);
    }
}

/// Labels are to tell the timing from then on, whatever the layer was before, and its client and
/// the metadata of its stream stay.
pub proof fn law_timing_labels_can_be_turned_on<T, U: ToVisited>(layer: &mut ApmLayer<T, U>)
    requires
        call_ensures(ApmLayer::<T, U>::with_timing_metadata_labels, (layer,), ()),
    ensures
        final(layer).has_timing_labels(),
        final(layer).sender() == old(layer).sender(),
        final(layer).stream_metadata() == old(layer).stream_metadata(),
{
}

/// What is asked of a layer is answered by what it is.
pub proof fn law_a_layer_can_be_asked<T, U>(layer: ApmLayer<T, U>, client: &T, enabled: bool)
    ensures
        call_ensures(ApmLayer::<T, U>::client, (&layer,), client) ==> *client == layer.sender(),
        call_ensures(ApmLayer::<T, U>::timing_metadata_labels, (&layer,), enabled) ==> enabled
            == layer.has_timing_labels(),
{
}

/// A configuration starts out with the address of the server alone; taking what a client needs
/// takes all of it, and leaves behind all but the secrets.
pub proof fn law_a_configuration_hands_out_what_it_holds(
    apm_address: String,
    new: Config,
    config: &mut Config,
    settings: ClientSettings,
)
    ensures
        call_ensures(Config::new, (apm_address,), new) ==> {
            &&& new.apm_address@ == apm_address@
            &&& new.authorization is None
            &&& !new.allow_invalid_certs
            &&& new.root_cert_path is None
            &&& new.service is None
            &&& new.process is None
            &&& new.system is None
            &&& new.user is None
            &&& new.cloud is None
            &&& new.network is None
            &&& new.labels is None
        },
        call_ensures(Config::take_client_settings, (config,), settings) ==> {
            &&& settings.apm_address@ == old(config).apm_address@
            &&& settings.authorization == old(config).authorization
            &&& settings.allow_invalid_certs == old(config).allow_invalid_certs
            &&& settings.root_cert_path == old(config).root_cert_path
            &&& final(config).apm_address == old(config).apm_address
            &&& final(config).authorization is None
            &&& final(config).allow_invalid_certs == old(config).allow_invalid_certs
            &&& final(config).root_cert_path is None
            &&& final(config).service == old(config).service
            &&& final(config).process == old(config).process
            &&& final(config).system == old(config).system
            &&& final(config).user == old(config).user
            &&& final(config).cloud == old(config).cloud
            &&& final(config).network == old(config).network
            &&& final(config).labels == old(config).labels
        },
{
}

} // verus!
