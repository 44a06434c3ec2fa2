//! Per-event tags, built from the visited fields.
//!
//! Elastic indexes the `context.tags` of a transaction, a span or an error as the `labels.*` of
//! that one document, so what users record belongs there, and not in the labels of the metadata,
//! which are those of the whole stream.

use crate::config::{PARENT_ID_FIELD_NAME, TRACE_ID_FIELD_NAME};
use crate::fields::{
    fields_of, has_no_fields, insert_field, lemma_listed_fields_are_finite, lists, new_fields,
    no_fields, walk_fields, Fields,
};
use crate::json::{json_of, Json};
use crate::model::Tags;
use crate::text::{same_text, starts_with, strip_prefix};
use crate::visitor::{shows, ToVisited};
use serde_json::Value;
use vstd::prelude::*;

verus! {

/// The field that holds an event's message.
pub const MESSAGE_FIELD_NAME: &'static str = "message";

/// Fields under this prefix carry nested data, which is not valid as a flat label.
pub const CUSTOM_PREFIX: &'static str = "custom.";

/// Fields under this prefix are labels by name; the tag goes without it.
pub const LABELS_PREFIX: &'static str = "labels.";

/// The field `name` is recorded as a tag.
///
/// The message goes to the error log, the linkage fields to the transaction itself, and `custom.*`
/// fields are dropped.
pub open spec fn is_tag(name: Seq<char>) -> bool {
    &&& name != MESSAGE_FIELD_NAME@
    &&& name != TRACE_ID_FIELD_NAME@
    &&& name != PARENT_ID_FIELD_NAME@
    &&& !CUSTOM_PREFIX@.is_prefix_of(name)
}

/// The tag that the field `name` is recorded as: a leading `labels.` is stripped, so that the tag
/// shows under the same name as in the logs.
pub open spec fn tag_name(name: Seq<char>) -> Seq<char> {
    if LABELS_PREFIX@.is_prefix_of(name) {
        name.skip(LABELS_PREFIX@.len() as int)
    } else {
        name
    }
}

/// The field `name` of `fields` is recorded as the tag `tag`.
pub open spec fn gives_tag(fields: Map<Seq<char>, Json>, name: Seq<char>, tag: Seq<char>) -> bool {
    fields.contains_key(name) && is_tag(name) && tag_name(name) == tag
}

/// Some field of `fields` is recorded as a tag.
pub open spec fn has_tags(fields: Map<Seq<char>, Json>) -> bool {
    exists|name: Seq<char>| #[trigger] fields.contains_key(name) && is_tag(name)
}

/// `tags` are the tags of `fields`: a tag for each field that is recorded as one, and no other,
/// with the value of a field that is recorded as it.
///
/// Two fields can be recorded as one tag, such as `team` and `labels.team`; it then has the value
/// of either.
pub open spec fn are_tags_of(tags: Map<Seq<char>, Json>, fields: Map<Seq<char>, Json>) -> bool {
    &&& forall|name: Seq<char>| #[trigger]
        fields.contains_key(name) && is_tag(name) ==> tags.contains_key(tag_name(name))
    &&& forall|tag: Seq<char>| #[trigger]
        tags.contains_key(tag) ==> exists|name: Seq<char>| #[trigger]
            gives_tag(fields, name, tag) && tags[tag] == fields[name]
}

/// The tags of fields that come in the order of `entries`: where two are recorded as one tag, the
/// later one counts.
pub open spec fn tags_in_order(entries: Seq<(&String, &Value)>) -> Map<Seq<char>, Json>
    decreases entries.len(),
{
    if entries.len() == 0 {
        no_fields()
    } else {
        let earlier = tags_in_order(entries.drop_last());
        let (name, value) = entries.last();
        if is_tag(name@) {
            earlier.insert(tag_name(name@), json_of(*value))
        } else {
            earlier
        }
    }
}

/// Optional tags, where `None` stands for none.
pub open spec fn tag_map(tags: Option<Tags>) -> Map<Seq<char>, Json> {
    match tags {
        Some(tags) => fields_of(tags),
        None => no_fields(),
    }
}

/// `tags` is what becomes of `fields`, which are finitely many: their tags, or `None` if none of
/// them is one.
pub open spec fn tagged(tags: Option<Tags>, fields: Map<Seq<char>, Json>) -> bool {
    &&& fields.dom().finite()
    &&& tags is Some <==> has_tags(fields)
    &&& are_tags_of(tag_map(tags), fields)
}

/// Decides whether the field `name` is recorded as a tag.
fn is_tag_field(name: &str) -> (kept: bool)
    ensures
        kept == is_tag(name@),
{
    !same_text(name, MESSAGE_FIELD_NAME) && !same_text(name, TRACE_ID_FIELD_NAME) && !same_text(
        name,
        PARENT_ID_FIELD_NAME,
    ) && !starts_with(name, CUSTOM_PREFIX)
}

/// The tag that the field `name` is recorded as.
fn tag_of_field(name: &str) -> (tag: String)
    ensures
        tag@ == tag_name(name@),
{
    match strip_prefix(name, LABELS_PREFIX) {
        Some(rest) => rest.to_string(),
        None => name.to_string(),
    }
}

/// Builds the tags of fields that come in the order of `entries`; `None` when there are none.
pub fn entries_to_tags(entries: &Vec<(&String, &Value)>) -> (tags: Option<Tags>)
    ensures
        tags is Some <==> tags_in_order(entries@) != no_fields(),
        tag_map(tags) == tags_in_order(entries@),
{
    let mut tags = new_fields();
    let mut i: usize = 0;
    while i < entries.len()
        invariant
            i <= entries@.len(),
            fields_of(tags) == tags_in_order(entries@.take(i as int)),
        decreases entries@.len() - i,
    {
        let (name, value) = entries[i];
        assert(entries@.take(i + 1).drop_last() == entries@.take(i as int));
        if is_tag_field(name.as_str()) {
            insert_field(&mut tags, tag_of_field(name.as_str()), value.clone());
        }
        i += 1;
    }
    assert(entries@.take(i as int) == entries@);
    if has_no_fields(&tags) {
        None
    } else {
        Some(tags)
    }
}

/// Builds the tags of `visited`; `None` when none of them is a tag.
pub fn fields_to_tags(visited: &Fields) -> (tags: Option<Tags>)
    ensures
        tagged(tags, fields_of(*visited)),
{
    let entries = walk_fields(visited);
    proof {
        lemma_listed_fields_are_finite(entries@, fields_of(*visited));
        lemma_tags_in_order(entries@, fields_of(*visited));
    }
    entries_to_tags(&entries)
}

/// Builds the tags of the fields that `visitor` shows; `None` when none of them is a tag.
pub fn visited_to_tags<U: ToVisited>(visitor: &U) -> (tags: Option<Tags>)
    ensures
        exists|visited: Fields| #[trigger]
            shows(*visitor, visited) && tagged(tags, fields_of(visited)),
{
    let visited = visitor.to_visited();
    assert(shows(*visitor, *visited));
    fields_to_tags(visited)
}

/// Whatever the order in which fields come, their tags are tags of these fields.
pub proof fn lemma_tags_in_order(entries: Seq<(&String, &Value)>, fields: Map<Seq<char>, Json>)
    requires
        lists(entries, fields),
    ensures
        are_tags_of(tags_in_order(entries), fields),
        tags_in_order(entries) != no_fields() <==> has_tags(fields),
{
    lemma_tags_of_entries(entries);
    let tags = tags_in_order(entries);
    assert forall|name: Seq<char>| #[trigger] fields.contains_key(name) && is_tag(name) implies
        tags.contains_key(tag_name(name)) by {
        let i = choose|i: int| 0 <= i < entries.len() && (#[trigger] entries[i]).0@ == name;
        assert(tags.contains_key(tag_name(entries[i].0@)));
    }
    assert forall|tag: Seq<char>| #[trigger] tags.contains_key(tag) implies exists|name: Seq<char>|
     #[trigger] gives_tag(fields, name, tag) && tags[tag] == fields[name] by {
        let i = choose|i: int|
            0 <= i < entries.len() && is_tag((#[trigger] entries[i]).0@) && tag_name(entries[i].0@)
                == tag && tags[tag] == json_of(*entries[i].1);
        assert(gives_tag(fields, entries[i].0@, tag));
    }
    if has_tags(fields) {
        let name = choose|name: Seq<char>| #[trigger] fields.contains_key(name) && is_tag(name);
        assert(tags.contains_key(tag_name(name)));
    }
    if tags != no_fields() {
        if forall|tag: Seq<char>| !tags.contains_key(tag) {
            assert(tags =~= no_fields());
        }
        let tag = choose|tag: Seq<char>| tags.contains_key(tag);
        let name = choose|name: Seq<char>| #[trigger]
            gives_tag(fields, name, tag) && tags[tag] == fields[name];
        assert(fields.contains_key(name) && is_tag(name));
    }
}

/// Each entry that is a tag gives one, and each tag has the value of an entry that gives it.
proof fn lemma_tags_of_entries(entries: Seq<(&String, &Value)>)
    ensures
        forall|i: int|
            0 <= i < entries.len() && is_tag((#[trigger] entries[i]).0@) ==> tags_in_order(
                entries,
            ).contains_key(tag_name(entries[i].0@)),
        forall|tag: Seq<char>| #[trigger]
            tags_in_order(entries).contains_key(tag) ==> exists|i: int|
                0 <= i < entries.len() && is_tag((#[trigger] entries[i]).0@) && tag_name(
                    entries[i].0@,
                ) == tag && tags_in_order(entries)[tag] == json_of(*entries[i].1),
    decreases entries.len(),
{
    if entries.len() > 0 {
        let earlier = entries.drop_last();
        let last = entries.len() - 1;
        lemma_tags_of_entries(earlier);
        assert(forall|i: int| 0 <= i < last ==> earlier[i] == #[trigger] entries[i]);
        assert forall|tag: Seq<char>| #[trigger]
            tags_in_order(entries).contains_key(tag) implies exists|i: int|
            0 <= i < entries.len() && is_tag((#[trigger] entries[i]).0@) && tag_name(entries[i].0@)
                == tag && tags_in_order(entries)[tag] == json_of(*entries[i].1) by {
            if is_tag(entries[last].0@) && tag_name(entries[last].0@) == tag {
                assert(tags_in_order(entries)[tag] == json_of(*entries[last].1));
            } else {
                assert(tags_in_order(earlier).contains_key(tag));
                let i = choose|i: int|
                    0 <= i < earlier.len() && is_tag((#[trigger] earlier[i]).0@) && tag_name(
                        earlier[i].0@,
                    ) == tag && tags_in_order(earlier)[tag] == json_of(*earlier[i].1);
                assert(entries[i] == earlier[i]);
            }
        }
    }
}

} // verus!
