use fxhash::FxHashMap;
use serde_json::Value;
use tracing_elastic_apm::config::{Authorization, ClientSettings, Config, Service};
use tracing_elastic_apm::layer::{event_parent, reports, Callsite, EventSpan, Level};
use tracing_elastic_apm::model::{Agent, Language, Process};
use tracing_elastic_apm::span::{SpanContext, SpanRecord, TraceContext};
use tracing_elastic_apm::visitor::RootLinkVisitor;
use tracing_elastic_apm::{
    current_trace_id, new_layer, new_layer_with_sender, ApmLayer, ApmVisitor,
    ToVisited,
};

type TestLayer = ApmLayer<&'static str, ApmVisitor>;

fn layer_of(config: Config) -> TestLayer {
    new_layer_with_sender("scheduler".to_string(), config, "1.2.3".to_string(), "sender")
}

fn layer() -> TestLayer {
    layer_of(Config::new("http://localhost:8200".to_string()))
}

fn labelled_layer() -> TestLayer {
    let mut labels = FxHashMap::default();
    labels.insert("project".to_string(), Value::from("apm"));
    labels.insert("level".to_string(), Value::from("static"));
    let mut config = Config::new("http://localhost:8200".to_string());
    config.labels = Some(labels);
    layer_of(config)
}

fn callsite(level: Level) -> Callsite {
    Callsite {
        level,
        target: "my_crate::jobs".to_string(),
    }
}

fn event_span() -> EventSpan {
    EventSpan {
        id: 4,
        trace: TraceContext { trace_id: 99 },
        timing: SpanContext {
            idle: 20,
            busy: 30,
            instant: 50,
            first_entered_timestamp: Some(5),
        },
    }
}

#[test]
fn metadata_without_service_settings() {
    let metadata = TestLayer::setup_metadata(
        Config::new("http://localhost:8200".to_string()),
        "scheduler".to_string(),
        "1.2.3".to_string(),
    );
    assert_eq!(metadata.service.name, "scheduler");
    assert_eq!(metadata.service.id, None);
    assert_eq!(metadata.service.version, None);
    assert_eq!(metadata.service.environment, None);
    assert!(metadata.service.language.is_none());
    assert_eq!(metadata.service.agent.name, "tracing-elastic-apm");
    assert_eq!(metadata.service.agent.version, "1.2.3");
    assert_eq!(metadata.service.agent.ephemeral_id, None);
    assert_eq!(metadata.service.agent.activation_method, None);
    assert!(metadata.process.is_none());
    assert!(metadata.labels.is_none());
}

#[test]
fn metadata_with_service_settings() {
    let mut config = Config::new("http://localhost:8200".to_string());
    config.process = Some(Process {
        pid: 17,
        ppid: None,
        title: Some("scheduler".to_string()),
    });
    config.service = Some(Service {
        id: Some("id".to_string()),
        version: Some("2".to_string()),
        environment: Some("production".to_string()),
        language: Some(Language {
            name: "rust".to_string(),
            version: None,
        }),
        runtime: None,
        framework: None,
        agent: Some(Agent {
            name: "mine".to_string(),
            version: "0".to_string(),
            ephemeral_id: None,
            activation_method: Some("manual".to_string()),
        }),
        node: None,
    });
    let metadata =
        TestLayer::setup_metadata(config, "scheduler".to_string(), "1.2.3".to_string());
    assert_eq!(metadata.service.id.as_deref(), Some("id"));
    assert_eq!(metadata.service.version.as_deref(), Some("2"));
    assert_eq!(metadata.service.environment.as_deref(), Some("production"));
    assert_eq!(metadata.service.language.expect("language").name, "rust");
    assert_eq!(metadata.service.agent.name, "mine");
    assert_eq!(metadata.service.agent.version, "0");
    assert_eq!(metadata.process.expect("process").pid, 17);
}

#[test]
fn client_is_made_of_its_settings() {
    let mut config = Config::new("http://localhost:8200".to_string());
    config.authorization = Some(Authorization::SecretToken("token".to_string()));
    config.allow_invalid_certs = true;
    config.root_cert_path = Some("ca.pem".to_string());
    let layer: Result<ApmLayer<ClientSettings, ApmVisitor>, String> = new_layer(
        "scheduler".to_string(),
        config,
        "1.2.3".to_string(),
        |settings: ClientSettings| Ok(settings),
    );
    let layer = layer.expect("layer");
    let settings = layer.client();
    assert_eq!(settings.apm_address, "http://localhost:8200");
    assert!(matches!(
        &settings.authorization,
        Some(Authorization::SecretToken(token)) if token == "token"
    ));
    assert!(settings.allow_invalid_certs);
    assert_eq!(settings.root_cert_path.as_deref(), Some("ca.pem"));
    assert!(!layer.timing_metadata_labels());
}

#[test]
fn failure_to_connect_is_handed_on() {
    let layer: Result<ApmLayer<(), ApmVisitor>, String> = new_layer(
        "scheduler".to_string(),
        Config::new("http://localhost:8200".to_string()),
        "1.2.3".to_string(),
        |_: ClientSettings| Err("no server".to_string()),
    );
    assert_eq!(layer.err().as_deref(), Some("no server"));
}

#[test]
fn taking_the_client_settings_leaves_the_rest() {
    let mut config = Config::new("address".to_string());
    config.authorization = Some(Authorization::ApiKey {
        id: "id".to_string(),
        key: "key".to_string(),
    });
    config.root_cert_path = Some("ca.pem".to_string());
    let settings = config.take_client_settings();
    assert!(matches!(settings.authorization, Some(Authorization::ApiKey { .. })));
    assert_eq!(settings.apm_address, "address");
    assert!(!settings.allow_invalid_certs);
    assert_eq!(config.apm_address, "address");
    assert!(config.authorization.is_none());
    assert!(config.root_cert_path.is_none());
}

#[test]
fn levels_have_names() {
    assert_eq!(Level::Trace.as_str(), "TRACE");
    assert_eq!(Level::Debug.as_str(), "DEBUG");
    assert_eq!(Level::Info.as_str(), "INFO");
    assert_eq!(Level::Warn.as_str(), "WARN");
    assert_eq!(Level::Error.as_str(), "ERROR");
    assert_eq!(Level::Error.as_str(), tracing::Level::ERROR.to_string());
    assert_eq!(Level::Trace.as_str(), tracing::Level::TRACE.to_string());
}

#[test]
fn only_errors_are_reported() {
    assert!(reports(Level::Error));
    assert!(!reports(Level::Warn));
    assert!(!reports(Level::Trace));
}

#[test]
fn parent_of_an_event() {
    assert_eq!(event_parent(Some(1), false, Some(2)), Some(1));
    assert_eq!(event_parent(Some(1), true, Some(2)), Some(1));
    assert_eq!(event_parent(None, true, Some(2)), None);
    assert_eq!(event_parent(None, false, Some(2)), Some(2));
    assert_eq!(event_parent(None, false, None), None);
}

#[test]
fn nothing_recorded_leaves_the_metadata() {
    let mut layer = labelled_layer();
    layer.with_timing_metadata_labels();
    let metadata = layer.create_metadata(
        &ApmVisitor::default(),
        &SpanContext::new(0),
        Some(1),
        None,
        &callsite(Level::Info),
    );
    let labels = metadata.labels.expect("labels");
    assert_eq!(labels.len(), 2);
    assert_eq!(labels.get("level"), Some(&Value::from("static")));

    let metadata = self::layer().create_metadata(
        &ApmVisitor::default(),
        &SpanContext::new(0),
        None,
        None,
        &callsite(Level::Info),
    );
    assert!(metadata.labels.is_none());
}

#[test]
fn diagnostic_labels_join_those_of_the_stream() {
    let layer = labelled_layer();
    let mut visitor = ApmVisitor::default();
    visitor.record_str("labels.job_id", "j1");
    let metadata = layer.create_metadata(
        &visitor,
        &SpanContext::new(0),
        Some(1),
        None,
        &callsite(Level::Warn),
    );
    assert_eq!(metadata.service.name, "scheduler");
    let labels = metadata.labels.expect("labels");
    assert_eq!(labels.get("project"), Some(&Value::from("apm")));
    assert_eq!(labels.get("level"), Some(&Value::from("WARN")));
    assert_eq!(labels.get("target"), Some(&Value::from("my_crate::jobs")));
    // What users record goes into the tags.
    assert_eq!(labels.len(), 3);
}

#[test]
fn timing_labels_are_added_on_demand() {
    let mut layer = layer();
    layer.with_timing_metadata_labels();
    assert!(layer.timing_metadata_labels());
    assert_eq!(layer.client(), &"sender");
    let mut visitor = ApmVisitor::default();
    visitor.record_bool("retry", true);
    let timing = SpanContext {
        idle: 20,
        busy: u64::MAX as u128,
        instant: 50,
        first_entered_timestamp: None,
    };
    let metadata =
        layer.create_metadata(&visitor, &timing, Some(1_000), None, &callsite(Level::Info));
    let labels = metadata.labels.expect("labels");
    assert_eq!(labels.get("timestamp"), Some(&Value::from(1_000)));
    assert_eq!(labels.get("first_entered_timestamp"), Some(&Value::Null));
    assert_eq!(labels.get("busy_ns"), Some(&Value::from(u64::MAX)));
    assert_eq!(labels.get("idle_ns"), Some(&Value::from(20)));
    assert_eq!(labels.len(), 6);
}

#[test]
fn error_in_a_span_is_reported() {
    let layer = layer();
    let mut visitor = ApmVisitor::default();
    visitor.record_debug("message", "it \"broke\"".to_string());
    visitor.record_u64("labels.attempt", 2);
    let batch = layer
        .on_event(&callsite(Level::Error), Some(event_span()), &visitor)
        .expect("batch");
    assert!(batch.span.is_none());
    assert!(batch.transaction.is_none());
    let labels = batch.metadata.labels.expect("labels");
    assert_eq!(labels.get("level"), Some(&Value::from("ERROR")));
    assert_eq!(labels.len(), 2);

    let error = batch.error.expect("error");
    assert!(error.id.parse::<u128>().is_ok());
    assert_eq!(error.trace_id.as_deref(), Some("99"));
    assert_eq!(error.parent_id.as_deref(), Some("4"));
    assert_eq!(error.culprit.as_deref(), Some("my_crate::jobs"));
    let tags = error.context.expect("context").tags.expect("tags");
    assert_eq!(tags.get("attempt"), Some(&Value::from(2)));
    assert_eq!(tags.len(), 1);
    let log = error.log.expect("log");
    assert_eq!(log.level.as_deref(), Some("ERROR"));
    // The message is JSON text, with its quotes.
    assert_eq!(log.message, "\"it \\\"broke\\\"\"");
}

#[test]
fn error_of_an_event_without_fields() {
    let error = TestLayer::error_of(
        7,
        &callsite(Level::Error),
        &event_span(),
        ApmVisitor::default().to_visited(),
        None,
    );
    assert_eq!(error.id, "7");
    assert!(error.context.is_none());
    assert_eq!(error.log.expect("log").message, "");
}

#[test]
fn event_timing_labels_have_no_timestamps() {
    let mut layer = layer();
    layer.with_timing_metadata_labels();
    let mut visitor = ApmVisitor::default();
    visitor.record_str("message", "broken");
    let batch = layer
        .on_event(&callsite(Level::Error), Some(event_span()), &visitor)
        .expect("batch");
    let labels = batch.metadata.labels.expect("labels");
    assert_eq!(labels.get("timestamp"), Some(&Value::Null));
    assert_eq!(labels.get("first_entered_timestamp"), Some(&Value::Null));
    assert_eq!(labels.get("busy_ns"), Some(&Value::from(30)));
    assert_eq!(labels.get("idle_ns"), Some(&Value::from(20)));
    assert!(batch.error.expect("error").context.is_none());
}

#[test]
fn other_events_are_not_reported() {
    let layer = layer();
    let visitor = ApmVisitor::default();
    assert!(layer.on_event(&callsite(Level::Warn), Some(event_span()), &visitor).is_none());
    assert!(layer.on_event(&callsite(Level::Error), None, &visitor).is_none());
}

#[test]
fn closed_span_is_reported_as_a_span() {
    let layer = layer();
    let mut visitor = ApmVisitor::default();
    visitor.record_str("team", "core");
    let parent = Some((1, TraceContext { trace_id: 5 }));
    let mut open =
        layer.on_new_span(2, "child", 1_000, 0, parent, &RootLinkVisitor::default());
    layer.on_enter(&mut open.timing, 10, 10, 1_100);
    layer.on_exit(&mut open.timing, 30, 30);
    assert_eq!(open.timing.idle, 10);
    assert_eq!(open.timing.busy, 20);
    let batch = layer
        .on_close(&visitor, &open.timing, Some(open.record), 1_400, &callsite(Level::Info))
        .expect("batch");
    assert!(batch.transaction.is_none());
    assert!(batch.error.is_none());
    let span = batch.span.expect("span");
    assert_eq!(span.id, "2");
    assert_eq!(span.trace_id, "5");
    assert_eq!(span.parent_id, "1");
    assert_eq!(span.timestamp, 1_100);
    assert_eq!(span.duration, 300);
    let tags = span.context.expect("context").tags.expect("tags");
    assert_eq!(tags.get("team"), Some(&Value::from("core")));
}

#[test]
fn closed_root_is_reported_as_a_transaction() {
    let mut layer = layer();
    layer.with_timing_metadata_labels();
    let mut visitor = ApmVisitor::default();
    visitor.record_str("message", "no tag");
    let mut open = layer.on_new_span(2, "root", 1_000, 0, None, &RootLinkVisitor::default());
    layer.on_enter(&mut open.timing, 10, 10, 1_100);
    let batch = layer
        .on_close(&visitor, &open.timing, Some(open.record), 1_400, &callsite(Level::Info))
        .expect("batch");
    let labels = batch.metadata.labels.expect("labels");
    // The time of opening, though the transaction counts from the first entry.
    assert_eq!(labels.get("timestamp"), Some(&Value::from(1_000)));
    assert_eq!(labels.get("first_entered_timestamp"), Some(&Value::from(1_100)));
    assert!(batch.span.is_none());
    let transaction = batch.transaction.expect("transaction");
    assert_eq!(transaction.timestamp, 1_100);
    assert_eq!(transaction.duration, 300);
    assert_eq!(transaction.name.as_deref(), Some("root"));
    assert!(transaction.context.is_none());
}

#[test]
fn close_without_a_record_reports_nothing() {
    let batch = layer().on_close(
        &ApmVisitor::default(),
        &SpanContext::new(0),
        None,
        0,
        &callsite(Level::Info),
    );
    assert!(batch.is_none());
}

#[test]
fn link_counts_only_without_a_parent() {
    let layer = layer();
    let link = RootLinkVisitor {
        trace_id: Some(77),
        parent_id: Some(8),
    };
    let parent = Some((1, TraceContext { trace_id: 5 }));
    let child = layer.on_new_span(2, "child", 1, 0, parent, &link);
    assert_eq!(child.trace.trace_id, 5);
    assert!(matches!(child.record, SpanRecord::Span(_)));
    let root = layer.on_new_span(3, "root", 1, 0, None, &link);
    assert_eq!(root.trace.trace_id, 77);
    match root.record {
        SpanRecord::Transaction(transaction) => {
            assert_eq!(transaction.trace_id, "77");
            assert_eq!(transaction.parent_id.as_deref(), Some("8"));
        }
        SpanRecord::Span(_) => panic!("a span without a parent is a transaction"),
    }
}

#[test]
fn unlinked_roots_start_new_traces() {
    let layer = layer();
    let link = RootLinkVisitor::default();
    let a = layer.on_new_span(1, "a", 1, 0, None, &link);
    let b = layer.on_new_span(2, "b", 1, 0, None, &link);
    // Ids are drawn from all of `u128`.
    assert_ne!(a.trace.trace_id, b.trace.trace_id);
}

#[test]
fn no_span_is_active_without_a_subscriber() {
    assert_eq!(current_trace_id(), None);
}
