use fxhash::FxHashMap;
use serde_json::Value;
use tracing_elastic_apm::tags::{entries_to_tags, visited_to_tags};
use tracing_elastic_apm::{ApmVisitor, ToVisited};

struct TestVisited(FxHashMap<String, Value>);

impl ToVisited for TestVisited {
    fn to_visited(&self) -> &FxHashMap<String, Value> {
        &self.0
    }
}

fn visited(pairs: &[(&str, Value)]) -> TestVisited {
    TestVisited(
        pairs
            .iter()
            .map(|(k, v)| (k.to_string(), v.clone()))
            .collect(),
    )
}

fn nested() -> Value {
    let mut object = serde_json::Map::new();
    object.insert("nested".to_string(), Value::from(true));
    Value::Object(object)
}

#[test]
fn strips_labels_prefix_and_keeps_unprefixed_keys() {
    let tags = visited_to_tags(&visited(&[
        ("labels.pipeline_id", Value::from("abc")),
        ("team", Value::from("core")),
    ]))
    .expect("tags should be present");

    // `labels.pipeline_id` -> `pipeline_id` so the APM UI shows `labels.pipeline_id`.
    assert_eq!(tags.get("pipeline_id"), Some(&Value::from("abc")));
    assert!(!tags.contains_key("labels.pipeline_id"));
    // Unprefixed keys pass through verbatim.
    assert_eq!(tags.get("team"), Some(&Value::from("core")));
    assert_eq!(tags.len(), 2);
}

#[test]
fn drops_message_and_custom_fields() {
    let tags = visited_to_tags(&visited(&[
        ("labels.job_id", Value::from("j1")),
        ("message", Value::from("hello")),
        ("custom.payload", nested()),
    ]))
    .expect("tags should be present");

    assert_eq!(tags.get("job_id"), Some(&Value::from("j1")));
    assert!(!tags.contains_key("message"));
    assert!(!tags.contains_key("custom.payload"));
    assert!(!tags.contains_key("payload"));
    assert_eq!(tags.len(), 1);
}

#[test]
fn empty_visitor_yields_no_tags() {
    assert!(visited_to_tags(&visited(&[])).is_none());
}

#[test]
fn only_filtered_fields_yields_no_tags() {
    let only_filtered = visited(&[("message", Value::from("hi")), ("custom.x", Value::from("y"))]);
    assert!(visited_to_tags(&only_filtered).is_none());
}

#[test]
fn linkage_fields_are_no_tags() {
    let linked = visited(&[
        ("trace_id", Value::from("77")),
        ("parent_id", Value::from(5)),
    ]);
    assert!(visited_to_tags(&linked).is_none());
}

#[test]
fn filtered_names_show_only_from_under_labels() {
    let tags = visited_to_tags(&visited(&[
        ("trace_id", Value::from("77")),
        ("labels.trace_id", Value::from("mine")),
        ("labels.custom.x", Value::from(1)),
    ]))
    .expect("tags should be present");

    assert_eq!(tags.get("trace_id"), Some(&Value::from("mine")));
    assert_eq!(tags.get("custom.x"), Some(&Value::from(1)));
    assert_eq!(tags.len(), 2);
}

#[test]
fn names_that_only_resemble_the_filtered_ones_are_tags() {
    let tags = visited_to_tags(&visited(&[
        ("messages", Value::from(1)),
        ("custom", Value::from(2)),
        ("labels", Value::from(3)),
        ("labels.", Value::from(4)),
        ("my.labels.x", Value::from(5)),
        ("labels.labels.x", Value::from(6)),
    ]))
    .expect("tags should be present");

    assert_eq!(tags.get("messages"), Some(&Value::from(1)));
    assert_eq!(tags.get("custom"), Some(&Value::from(2)));
    assert_eq!(tags.get("labels"), Some(&Value::from(3)));
    assert_eq!(tags.get(""), Some(&Value::from(4)));
    assert_eq!(tags.get("my.labels.x"), Some(&Value::from(5)));
    assert_eq!(tags.get("labels.x"), Some(&Value::from(6)));
    assert_eq!(tags.len(), 6);
}

#[test]
fn names_are_told_apart_by_characters() {
    let tags = visited_to_tags(&visited(&[
        ("labels.größe", Value::from(1)),
        ("läbels.x", Value::from(2)),
        ("сustom.x", Value::from(3)),
        ("messagé", Value::from(4)),
        ("custom.größe", Value::from(5)),
    ]))
    .expect("tags should be present");

    assert_eq!(tags.get("größe"), Some(&Value::from(1)));
    assert_eq!(tags.get("läbels.x"), Some(&Value::from(2)));
    assert_eq!(tags.get("сustom.x"), Some(&Value::from(3)));
    assert_eq!(tags.get("messagé"), Some(&Value::from(4)));
    assert_eq!(tags.len(), 4);
}

#[test]
fn distinct_fields_give_as_many_tags() {
    let mut fields: Vec<(String, Value)> = Vec::new();
    for i in 0..50 {
        fields.push((format!("labels.a{}", i), Value::from(i)));
        fields.push((format!("b{}", i), Value::from(i)));
        fields.push((format!("custom.c{}", i), Value::from(i)));
    }
    let tags = visited_to_tags(&TestVisited(fields.into_iter().collect())).expect("tags");
    assert_eq!(tags.len(), 100);
    for i in 0..50 {
        assert_eq!(tags.get(&format!("a{}", i)), Some(&Value::from(i)));
        assert_eq!(tags.get(&format!("b{}", i)), Some(&Value::from(i)));
    }
}

#[test]
fn values_of_every_kind_pass_through() {
    let tags = visited_to_tags(&visited(&[
        ("object", nested()),
        ("float", Value::from(1.5)),
        ("null", Value::Null),
    ]))
    .expect("tags should be present");

    assert_eq!(tags.get("object"), Some(&nested()));
    assert_eq!(tags.get("float"), Some(&Value::from(1.5)));
    assert_eq!(tags.get("null"), Some(&Value::Null));
}

#[test]
fn one_of_two_fields_for_one_tag_counts() {
    let tags = visited_to_tags(&visited(&[
        ("team", Value::from("a")),
        ("labels.team", Value::from("b")),
    ]))
    .expect("tags should be present");

    let team = tags.get("team").expect("the tag should be present");
    assert!(team == &Value::from("a") || team == &Value::from("b"));
    assert_eq!(tags.len(), 1);
}

#[test]
fn the_later_of_two_fields_for_one_tag_counts() {
    let plain = "team".to_string();
    let prefixed = "labels.team".to_string();
    let (a, b) = (Value::from("a"), Value::from("b"));

    let tags = entries_to_tags(&vec![(&plain, &a), (&prefixed, &b)]).expect("tags");
    assert_eq!(tags.get("team"), Some(&b));
    let tags = entries_to_tags(&vec![(&prefixed, &b), (&plain, &a)]).expect("tags");
    assert_eq!(tags.get("team"), Some(&a));
    assert!(entries_to_tags(&vec![]).is_none());
}

#[test]
fn recorded_fields_become_tags() {
    let mut visitor = ApmVisitor::default();
    visitor.record_u64("labels.count", 3);
    visitor.record_u64("labels.count", 4);
    let tags = visited_to_tags(&visitor).expect("tags should be present");
    assert_eq!(tags.get("count"), Some(&Value::from(4)));
    assert_eq!(tags.len(), 1);
}
