use fxhash::FxHashMap;
use serde_json::Value;
use tracing_elastic_apm::model::{Span, Transaction};
use tracing_elastic_apm::span::{
    open_child, open_root, OpenSpan, SpanContext, SpanRecord, TraceContext, MAX_DURATION_NANOS,
};

fn span_of(open: OpenSpan) -> Span {
    match open.record {
        SpanRecord::Span(span) => span,
        SpanRecord::Transaction(_) => panic!("a span with a parent is no transaction"),
    }
}

fn transaction_of(open: OpenSpan) -> Transaction {
    match open.record {
        SpanRecord::Transaction(transaction) => transaction,
        SpanRecord::Span(_) => panic!("a span without a parent is a transaction"),
    }
}

#[test]
fn child_is_a_span_in_the_trace_of_its_parent() {
    let trace = TraceContext { trace_id: u128::MAX };
    let open = open_child(12, "work", 1_000, 55, 9, trace);
    assert_eq!(open.trace.trace_id, u128::MAX);
    assert_eq!(open.timing.instant, 55);
    assert_eq!(open.timing.idle, 0);
    assert_eq!(open.timing.busy, 0);
    assert_eq!(open.timing.first_entered_timestamp, None);
    let span = span_of(open);
    assert_eq!(span.id, "12");
    assert_eq!(span.trace_id, "340282366920938463463374607431768211455");
    assert_eq!(span.parent_id, "9");
    assert_eq!(span.timestamp, 1_000);
    assert_eq!(span.name, "work");
    assert_eq!(span.span_type, "custom");
    assert_eq!(span.duration, 0);
    assert!(span.context.is_none());
}

#[test]
fn root_is_a_transaction() {
    let open = open_root(u64::MAX, "work", 1_000, 55, TraceContext { trace_id: 0 }, None);
    assert_eq!(open.trace.trace_id, 0);
    let transaction = transaction_of(open);
    assert_eq!(transaction.id, "18446744073709551615");
    assert_eq!(transaction.trace_id, "0");
    assert_eq!(transaction.parent_id, None);
    assert_eq!(transaction.timestamp, 1_000);
    assert_eq!(transaction.name.as_deref(), Some("work"));
    assert_eq!(transaction.transaction_type, "custom");
    assert_eq!(transaction.duration, 0);
    assert!(transaction.context.is_none());
}

#[test]
fn linked_root_is_nested_under_a_span() {
    let open = open_root(2, "job", 1, 0, TraceContext { trace_id: 10 }, Some(1));
    assert_eq!(transaction_of(open).parent_id.as_deref(), Some("1"));
}

#[test]
fn ids_are_written_as_numerals() {
    for id in [0, 1, 9, 10, 11, 99, 100, 101, 1_234_567_890, 9_876_543_210, u64::MAX] {
        let open = open_root(id, "root", 1, 0, TraceContext { trace_id: id as u128 }, None);
        let transaction = transaction_of(open);
        assert_eq!(transaction.id, id.to_string());
        assert_eq!(transaction.trace_id, id.to_string());
    }
}

#[test]
fn nested_spans_share_the_trace() {
    let root = open_root(1, "root", 1, 0, TraceContext { trace_id: 42 }, None);
    let child = open_child(2, "child", 2, 1, 1, root.trace);
    let grandchild = open_child(3, "grandchild", 3, 2, 2, child.trace);
    assert_eq!(grandchild.trace.trace_id, 42);
    let span = span_of(grandchild);
    assert_eq!(span.trace_id, "42");
    assert_eq!(span.parent_id, "2");
}

#[test]
fn idle_and_busy_time_add_up() {
    let mut timing = SpanContext::new(100);
    timing.enter(110, 110, 7);
    timing.exit(140, 140);
    timing.enter(145, 145, 8);
    timing.exit(150, 150);
    assert_eq!(timing.idle, 10 + 5);
    assert_eq!(timing.busy, 30 + 5);
    assert_eq!(timing.idle + timing.busy, 150 - 100);
    assert_eq!(timing.instant, 150);
}

#[test]
fn time_is_measured_up_to_the_second_reading() {
    let mut timing = SpanContext::new(100);
    timing.enter(110, 112, 7);
    assert_eq!(timing.idle, 12);
    assert_eq!(timing.instant, 110);
    timing.exit(120, 121);
    assert_eq!(timing.busy, 11);
    assert_eq!(timing.instant, 120);
}

#[test]
fn a_clock_that_goes_back_adds_no_time() {
    let mut timing = SpanContext::new(100);
    timing.enter(90, 90, 7);
    assert_eq!(timing.idle, 0);
    assert_eq!(timing.instant, 90);
}

#[test]
fn first_entry_is_remembered() {
    let mut timing = SpanContext::new(0);
    timing.exit(1, 1);
    assert_eq!(timing.first_entered_timestamp, None);
    timing.enter(2, 2, 500);
    timing.exit(3, 3);
    timing.enter(4, 4, 600);
    assert_eq!(timing.first_entered_timestamp, Some(500));
}

#[test]
fn longest_duration_is_that_of_std() {
    assert_eq!(MAX_DURATION_NANOS, std::time::Duration::MAX.as_nanos());
}

#[test]
fn closing_counts_from_the_first_entry() {
    let open = open_root(1, "root", 1_000, 0, TraceContext { trace_id: 1 }, None);
    let record = open.record.close(Some(1_200), 1_500, None);
    assert_eq!(record.timestamp(), 1_200);
    match record {
        SpanRecord::Transaction(transaction) => {
            assert_eq!(transaction.duration, 300);
            assert_eq!(transaction.id, "1");
            assert!(transaction.context.is_none());
        }
        SpanRecord::Span(_) => panic!("a transaction stays one"),
    }
}

#[test]
fn closing_counts_from_the_opening_if_never_entered() {
    let mut tags = FxHashMap::default();
    tags.insert("team".to_string(), Value::from("core"));
    let open = open_child(2, "child", 1_000, 0, 1, TraceContext { trace_id: 1 });
    match open.record.close(None, 1_500, Some(tags)) {
        SpanRecord::Span(span) => {
            assert_eq!(span.timestamp, 1_000);
            assert_eq!(span.duration, 500);
            let tags = span.context.expect("context").tags.expect("tags");
            assert_eq!(tags.get("team"), Some(&Value::from("core")));
        }
        SpanRecord::Transaction(_) => panic!("a span stays one"),
    }
}

#[test]
fn closing_keeps_the_rest() {
    let open = open_root(7, "job", 1_000, 0, TraceContext { trace_id: 42 }, Some(3));
    let mut tags = FxHashMap::default();
    tags.insert("team".to_string(), Value::from("core"));
    let closed = open.record.close(Some(1_100), 1_400, Some(tags));
    // Without tags the context stays as it was.
    match closed.close(None, 1_500, None) {
        SpanRecord::Transaction(transaction) => {
            assert_eq!(transaction.id, "7");
            assert_eq!(transaction.trace_id, "42");
            assert_eq!(transaction.parent_id.as_deref(), Some("3"));
            assert_eq!(transaction.name.as_deref(), Some("job"));
            assert_eq!(transaction.transaction_type, "custom");
            assert_eq!(transaction.timestamp, 1_100);
            assert_eq!(transaction.duration, 400);
            let tags = transaction.context.expect("context").tags.expect("tags");
            assert_eq!(tags.get("team"), Some(&Value::from("core")));
        }
        SpanRecord::Span(_) => panic!("a transaction stays one"),
    }
}
