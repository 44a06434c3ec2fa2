use serde_json::Value;
use tracing_elastic_apm::config::{PARENT_ID_FIELD_NAME, TRACE_ID_FIELD_NAME};
use tracing_elastic_apm::visitor::RootLinkVisitor;
use tracing_elastic_apm::{ApmVisitor, ToVisited};

#[test]
fn visitor_records_every_kind_of_value() {
    let mut visitor = ApmVisitor::default();
    assert!(visitor.to_visited().is_empty());

    visitor.record_i64("i64", -3);
    visitor.record_i64("min", i64::MIN);
    visitor.record_u64("u64", u64::MAX);
    visitor.record_bool("bool", true);
    visitor.record_str("str", "text");
    visitor.record_debug("debug", format!("{:?}", Some(1)));
    visitor.insert_value("value", Value::Null);

    let visited = visitor.to_visited();
    assert_eq!(visited.get("i64"), Some(&Value::from(-3)));
    assert_eq!(visited.get("min"), Some(&Value::from(i64::MIN)));
    assert_eq!(visited.get("u64"), Some(&Value::from(u64::MAX)));
    assert_eq!(visited.get("bool"), Some(&Value::from(true)));
    assert_eq!(visited.get("str"), Some(&Value::from("text")));
    assert_eq!(visited.get("debug"), Some(&Value::from("Some(1)")));
    assert_eq!(visited.get("value"), Some(&Value::Null));
    assert_eq!(visited.len(), 7);
}

#[test]
fn the_last_value_recorded_under_a_name_stays() {
    let mut visitor = ApmVisitor::default();
    visitor.record_str("field", "first");
    visitor.record_bool("other", false);
    visitor.record_i64("field", 2);
    assert_eq!(visitor.to_visited().get("field"), Some(&Value::from(2)));
    assert_eq!(visitor.to_visited().get("other"), Some(&Value::from(false)));
    assert_eq!(visitor.to_visited().len(), 2);
}

#[test]
fn link_is_made_of_the_linkage_fields() {
    let mut link = RootLinkVisitor::default();
    link.record_u128(TRACE_ID_FIELD_NAME, u128::MAX);
    link.record_u64(PARENT_ID_FIELD_NAME, 7);
    assert_eq!(link.trace_id, Some(u128::MAX));
    assert_eq!(link.parent_id, Some(7));
    assert_eq!(TRACE_ID_FIELD_NAME, "trace_id");
    assert_eq!(PARENT_ID_FIELD_NAME, "parent_id");
}

#[test]
fn link_ignores_other_fields_and_types() {
    let mut link = RootLinkVisitor::default();
    link.record_u128("parent_id", 1);
    link.record_u64("trace_id", 1);
    link.record_u128("trace", 1);
    link.record_u64("labels.parent_id", 1);
    link.record_i64("parent_id", 1);
    link.record_bool("trace_id", true);
    link.record_str("trace_id", "1");
    link.record_debug("parent_id");
    assert_eq!(link.trace_id, None);
    assert_eq!(link.parent_id, None);
}
