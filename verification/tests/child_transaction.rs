//! A detached span linked to its trigger as a *child transaction* (own id/latency, same trace,
//! nested under the trigger) rather than a child span or a detached root.
//!
//! Mirrors the scheduler shape: an "rpc" span is the in-flight trigger; the "job_task" is spawned
//! detached but stamped with the trigger's trace id + span id so APM still links it.

use std::fmt::Debug;
use std::sync::{Arc, Mutex, OnceLock};

use serde_json::Value;
use tracing::callsite::{Callsite as SpanCallsite, Identifier};
use tracing::field::{Field, FieldSet, Visit};
use tracing::metadata::Kind;
use tracing::span::Attributes;
use tracing::subscriber::Interest;
use tracing::{Id, Metadata, Span, Subscriber};
use tracing_elastic_apm::config::Config;
use tracing_elastic_apm::layer::{Callsite, Level};
use tracing_elastic_apm::model::Transaction;
use tracing_elastic_apm::span::{OpenSpan, TraceContext};
use tracing_elastic_apm::visitor::RootLinkVisitor;
use tracing_elastic_apm::{
    current_trace_id, new_layer_with_sender, ApmLayer, ApmVisitor, Batch,
};
use tracing_subscriber::layer::{Context, Layer, SubscriberExt};
use tracing_subscriber::registry;
use tracing_subscriber::registry::LookupSpan;

type Collected = Arc<Mutex<Vec<Batch>>>;

/// Hands each recorded field to both visitors.
#[derive(Default)]
struct Recorder {
    fields: ApmVisitor,
    link: RootLinkVisitor,
}

impl Visit for Recorder {
    fn record_u64(&mut self, field: &Field, value: u64) {
        self.fields.record_u64(field.name(), value);
        self.link.record_u64(field.name(), value);
    }

    fn record_u128(&mut self, field: &Field, value: u128) {
        self.record_debug(field, &value);
        self.link.record_u128(field.name(), value);
    }

    fn record_str(&mut self, field: &Field, value: &str) {
        self.fields.record_str(field.name(), value);
        self.link.record_str(field.name(), value);
    }

    fn record_debug(&mut self, field: &Field, value: &dyn Debug) {
        self.fields.record_debug(field.name(), format!("{:?}", value));
        self.link.record_debug(field.name());
    }
}

/// Drives the library from a registry, and collects the batches.
struct Driver(ApmLayer<Collected, ApmVisitor>);

impl<S> Layer<S> for Driver
where
    S: Subscriber + for<'lookup> LookupSpan<'lookup>,
{
    fn on_new_span(&self, attrs: &Attributes<'_>, id: &Id, ctx: Context<'_, S>) {
        let span = ctx.span(id).expect("span");
        let mut recorder = Recorder::default();
        attrs.record(&mut recorder);
        let parent = span.parent().map(|parent| {
            let trace = *parent.extensions().get::<TraceContext>().expect("context");
            (parent.id().into_u64(), trace)
        });
        let open = self.0.on_new_span(
            id.into_u64(),
            span.name(),
            1_000,
            0,
            parent,
            &recorder.link,
        );
        let mut extensions = span.extensions_mut();
        extensions.insert(open.trace);
        extensions.insert(open);
        extensions.insert(recorder.fields);
    }

    fn on_close(&self, id: Id, ctx: Context<'_, S>) {
        let span = ctx.span(&id).expect("span");
        let mut extensions = span.extensions_mut();
        let open = extensions.remove::<OpenSpan>().expect("open span");
        let fields = extensions.remove::<ApmVisitor>().expect("fields");
        let callsite = Callsite {
            level: Level::Info,
            target: span.metadata().target().to_string(),
        };
        let batch = self.0.on_close(
            &fields,
            &open.timing,
            Some(open.record),
            2_000,
            &callsite,
        );
        self.0.client().lock().unwrap().push(batch.expect("batch"));
    }
}

/// What a span is declared by.
struct Declaration(OnceLock<Metadata<'static>>);

impl SpanCallsite for Declaration {
    fn set_interest(&self, _interest: Interest) {}

    fn metadata(&self) -> &Metadata<'_> {
        self.0.get().expect("metadata")
    }
}

fn declare(
    name: &'static str,
    fields: &'static [&'static str],
) -> &'static Metadata<'static> {
    let declaration: &'static Declaration = Box::leak(Box::new(Declaration(OnceLock::new())));
    declaration.0.get_or_init(|| {
        Metadata::new(
            name,
            "scheduler",
            tracing::Level::INFO,
            None,
            None,
            None,
            FieldSet::new(fields, Identifier(declaration)),
            Kind::SPAN,
        )
    })
}

fn plain_span(name: &'static str) -> Span {
    let meta = declare(name, &[]);
    let values: [(&Field, Option<&dyn tracing::Value>); 0] = [];
    Span::new(meta, &meta.fields().value_set(&values))
}

/// A span without a parent, stamped with a trace id and a parent id.
fn detached_span(name: &'static str, trace_id: u128, parent_id: u64, job_id: &str) -> Span {
    let meta = declare(name, &["trace_id", "parent_id", "labels.job_id"]);
    let trace_field = meta.fields().field("trace_id").unwrap();
    let parent_field = meta.fields().field("parent_id").unwrap();
    let job_field = meta.fields().field("labels.job_id").unwrap();
    let values: [(&Field, Option<&dyn tracing::Value>); 3] = [
        (&trace_field, Some(&trace_id)),
        (&parent_field, Some(&parent_id)),
        (&job_field, Some(&job_id)),
    ];
    Span::new_root(meta, &meta.fields().value_set(&values))
}

fn driver(collected: Collected) -> Driver {
    Driver(new_layer_with_sender(
        "scheduler".to_string(),
        Config::new("http://localhost:8200".to_string()),
        "0.1.0".to_string(),
        collected,
    ))
}

#[test]
fn detached_span_becomes_linked_child_transaction() {
    let collected: Collected = Arc::new(Mutex::new(Vec::new()));
    let subscriber = registry().with(driver(collected.clone()));
    let _guard = tracing::subscriber::set_default(subscriber);

    // The in-flight trigger (e.g. the RPC handler span). Root => Transaction.
    let rpc = plain_span("rpc");
    let (trace_id, rpc_id) = {
        let _entered = rpc.enter();
        // Caller-side reads, done *before* spawning the detached future.
        let trace_id = current_trace_id().expect("trace id while rpc is current");
        let rpc_id = rpc.id().expect("rpc has an id").into_u64();
        (trace_id, rpc_id)
    };

    // The detached, long-lived job: its own root so it does NOT keep `rpc` open, but stamped to
    // link back to it.
    {
        let _job = detached_span("job_task", trace_id, rpc_id, "job-123");
    } // dropped here -> on_close emits the job transaction

    drop(rpc); // emits the rpc transaction

    let batches = collected.lock().unwrap();
    let transactions: Vec<&Transaction> = batches
        .iter()
        .filter_map(|b| b.transaction.as_ref())
        .collect();

    let job = transactions
        .iter()
        .find(|t| t.name.as_deref() == Some("job_task"))
        .expect("job_task transaction emitted");
    let rpc_txn = transactions
        .iter()
        .find(|t| t.name.as_deref() == Some("rpc"))
        .expect("rpc transaction emitted");

    // It is its OWN transaction, not a span...
    assert_ne!(job.id, rpc_txn.id);
    // ...sharing the trigger's trace...
    assert_eq!(job.trace_id, rpc_txn.trace_id);
    assert_eq!(job.trace_id, trace_id.to_string());
    // ...nested under the trigger via parent_id.
    assert_eq!(job.parent_id, Some(rpc_id.to_string()));
    assert_eq!(job.parent_id.as_ref(), Some(&rpc_txn.id));

    // Structural linkage fields must NOT leak into labels/tags.
    let tags = job.context.as_ref().expect("context").tags.as_ref().expect("tags");
    assert!(tags.get("trace_id").is_none());
    assert!(tags.get("parent_id").is_none());
    assert_eq!(tags["job_id"], Value::from("job-123"));
}

#[test]
fn active_trace_is_that_of_the_innermost_span() {
    let collected: Collected = Arc::new(Mutex::new(Vec::new()));
    let subscriber = registry().with(driver(collected.clone()));
    let _guard = tracing::subscriber::set_default(subscriber);

    assert_eq!(current_trace_id(), None);
    let outer = detached_span("outer", 77, 5, "job-1");
    {
        let _outer = outer.enter();
        assert_eq!(current_trace_id(), Some(77));
        let inner = plain_span("inner");
        let _inner = inner.enter();
        assert_eq!(current_trace_id(), Some(77));
    }
    assert_eq!(current_trace_id(), None);
    drop(outer);

    let batches = collected.lock().unwrap();
    let inner = batches[0].span.as_ref().expect("the inner span closes first");
    let outer = batches[1].transaction.as_ref().expect("the outer span is a transaction");
    assert_eq!(inner.trace_id, "77");
    assert_eq!(inner.parent_id, outer.id);
}

#[test]
fn no_trace_is_active_in_a_span_without_context() {
    let _guard = tracing::subscriber::set_default(registry());
    let span = plain_span("plain");
    let _entered = span.enter();
    assert!(span.id().is_some());
    assert_eq!(current_trace_id(), None);
}
