//! Which recorded fields show among the tags, and with which values.

use crate::fields::{fields_of, no_fields, Fields};
use crate::json::{json_of, Json};
use crate::model::Tags;
use crate::tags::{
    entries_to_tags, fields_to_tags, gives_tag, is_tag, tag_map, tag_name, tagged,
    tags_in_order, visited_to_tags,
};
use crate::visitor::ToVisited;
use serde_json::Value;
use vstd::prelude::*;

verus! {

/// The field `name` is neither the message, nor a linkage field, nor custom data.
pub open spec fn is_kept(name: Seq<char>) -> bool {
    &&& name != "message"@
    &&& name != "trace_id"@
    &&& name != "parent_id"@
    &&& !"custom."@.is_prefix_of(name)
}

/// The field `name` shows as the tag `tag`: it has that name after `labels.`, or it has that name,
/// is kept and does not begin with `labels.`.
pub open spec fn shows_as(name: Seq<char>, tag: Seq<char>) -> bool {
    ||| name == "labels."@ + tag
    ||| name == tag && is_kept(name) && !"labels."@.is_prefix_of(name)
}

/// Some of `fields` is kept.
pub open spec fn any_kept(fields: Map<Seq<char>, Json>) -> bool {
    exists|name: Seq<char>| #[trigger] fields.contains_key(name) && is_kept(name)
}

/// `tags` are what shows of `fields`: each field that is kept has a tag, each tag is there for a
/// field that shows as it, and has the value of such a field.
pub open spec fn show(tags: Map<Seq<char>, Json>, fields: Map<Seq<char>, Json>) -> bool {
    &&& forall|name: Seq<char>, tag: Seq<char>| #[trigger]
        fields.contains_key(name) && #[trigger] shows_as(name, tag) ==> tags.contains_key(tag)
    &&& forall|name: Seq<char>| #[trigger]
        fields.contains_key(name) && is_kept(name) && !"labels."@.is_prefix_of(name)
            ==> tags.contains_key(name)
    &&& forall|tag: Seq<char>|
        fields.contains_key(#[trigger] ("labels."@ + tag)) ==> tags.contains_key(tag)
    &&& forall|tag: Seq<char>| #[trigger]
        tags.contains_key(tag) ==> exists|name: Seq<char>| #[trigger]
            fields.contains_key(name) && shows_as(name, tag) && tags[tag] == fields[name]
}

/// `tags` are what shows of `fields`, and are there if any field is kept.
pub open spec fn show_if_any(tags: Option<Tags>, fields: Map<Seq<char>, Json>) -> bool {
    match tags {
        Some(tags) => any_kept(fields) && show(fields_of(tags), fields),
        None => !any_kept(fields),
    }
}

/// A field shows as its tag, and as no other.
proof fn lemma_shows_as(name: Seq<char>, tag: Seq<char>)
    ensures
        is_kept(name) <==> is_tag(name),
        shows_as(name, tag) <==> is_tag(name) && tag_name(name) == tag,
{
    reveal_strlit("message");
    reveal_strlit("trace_id");
    reveal_strlit("parent_id");
    reveal_strlit("custom.");
    reveal_strlit("labels.");
    if "labels."@.is_prefix_of(name) {
        assert("labels."@[0] == name.subrange(0, "labels."@.len() as int)[0]);
        if "custom."@.is_prefix_of(name) {
            assert("custom."@[0] == name.subrange(0, "custom."@.len() as int)[0]);
        }
        assert(name =~= "labels."@ + name.skip("labels."@.len() as int));
    }
    assert(("labels."@ + tag).skip("labels."@.len() as int) =~= tag);
    assert("labels."@.is_prefix_of("labels."@ + tag));
}

/// What is said of tags in terms of names holds of the tags that are made.
pub proof fn lemma_tagged_shows(tags: Option<Tags>, fields: Map<Seq<char>, Json>)
    requires
        tagged(tags, fields),
    ensures
        show_if_any(tags, fields),
{
    assert forall|name: Seq<char>| is_kept(name) == #[trigger] is_tag(name) by {
        lemma_shows_as(name, name);
    }
    assert forall|name: Seq<char>, tag: Seq<char>| #[trigger]
        fields.contains_key(name) && #[trigger] shows_as(name, tag) implies tag_map(
        tags,
    ).contains_key(tag) by {
        lemma_shows_as(name, tag);
    }
    assert forall|tag: Seq<char>| #[trigger] tag_map(tags).contains_key(tag) implies exists|
        name: Seq<char>,
    | #[trigger]
        fields.contains_key(name) && shows_as(name, tag) && tag_map(tags)[tag] == fields[name] by {
        let name = choose|name: Seq<char>| #[trigger]
            gives_tag(fields, name, tag) && tag_map(tags)[tag] == fields[name];
        lemma_shows_as(name, tag);
        assert(fields.contains_key(name));
    }
    assert forall|name: Seq<char>| #[trigger]
        fields.contains_key(name) && is_kept(name) && !"labels."@.is_prefix_of(
            name,
        ) implies tag_map(tags).contains_key(name) by {
        assert(shows_as(name, name));
    }
    assert forall|tag: Seq<char>|
        fields.contains_key(#[trigger] ("labels."@ + tag)) implies tag_map(tags).contains_key(
        tag,
    ) by {
        assert(shows_as("labels."@ + tag, tag));
    }
}

/// Of recorded fields, each shows among the tags unless it is the message, a linkage field or
/// custom data, under its name without a leading `labels.`, and nothing else shows. There are no
/// tags at all only if no field is left.
pub proof fn law_every_kept_field_shows(visited: Fields, tags: Option<Tags>)
    requires
        call_ensures(fields_to_tags, (&visited,), tags),
    ensures
        show_if_any(tags, fields_of(visited)),
{
    lemma_tagged_shows(tags, fields_of(visited));
}

/// What holds of the tags of recorded fields holds of those of the fields that a visitor shows.
pub proof fn law_every_kept_field_of_a_visitor_shows<U: ToVisited>(visitor: U, tags: Option<Tags>)
    requires
        call_ensures(visited_to_tags::<U>, (&visitor,), tags),
    ensures
        exists|visited: Fields| #[trigger]
            call_ensures(U::to_visited, (&visitor,), &visited) && show_if_any(
                tags,
                fields_of(visited),
            ),
{
    let visited = choose|visited: Fields| #[trigger]
        call_ensures(U::to_visited, (&visitor,), &visited) && tagged(tags, fields_of(visited));
    lemma_tagged_shows(tags, fields_of(visited));
}

/// The last of `entries` that shows as `tag` is the one at `i`.
pub open spec fn is_last_source(entries: Seq<(&String, &Value)>, tag: Seq<char>, i: int) -> bool {
    &&& 0 <= i < entries.len()
    &&& shows_as(entries[i].0@, tag)
    &&& forall|j: int| i < j < entries.len() ==> !shows_as((#[trigger] entries[j]).0@, tag)
}

proof fn lemma_tags_in_order_are_the_last(entries: Seq<(&String, &Value)>, tag: Seq<char>)
    ensures
        tags_in_order(entries).contains_key(tag) <==> exists|i: int|
            0 <= i < entries.len() && shows_as((#[trigger] entries[i]).0@, tag),
        forall|i: int| #[trigger]
            is_last_source(entries, tag, i) ==> tags_in_order(entries)[tag] == json_of(
                *entries[i].1,
            ),
    decreases entries.len(),
{
    if entries.len() > 0 {
        let earlier = entries.drop_last();
        let last = entries.len() - 1;
        lemma_tags_in_order_are_the_last(earlier, tag);
        lemma_shows_as(entries[last].0@, tag);
        assert(forall|i: int| 0 <= i < last ==> earlier[i] == #[trigger] entries[i]);
        if shows_as(entries[last].0@, tag) {
            assert(forall|i: int| #[trigger] is_last_source(entries, tag, i) ==> i == last);
        } else {
            assert forall|i: int| #[trigger]
                is_last_source(entries, tag, i) implies tags_in_order(entries)[tag] == json_of(
                *entries[i].1,
            ) by {
                assert(is_last_source(earlier, tag, i));
            }
            if tags_in_order(earlier).contains_key(tag) {
                let i = choose|i: int|
                    0 <= i < earlier.len() && shows_as((#[trigger] earlier[i]).0@, tag);
                assert(entries[i] == earlier[i]);
            }
        }
    }
}

/// Of fields that come in an order, a tag has the value of the last field that shows as it, is there
/// if any field does, and there are no tags only if no field is kept.
pub proof fn law_the_last_field_counts(
    entries: Vec<(&String, &Value)>,
    tags: Option<Tags>,
    tag: Seq<char>,
)
    requires
        call_ensures(entries_to_tags, (&entries,), tags),
    ensures
        tags is Some <==> exists|i: int|
            0 <= i < entries@.len() && is_kept((#[trigger] entries@[i]).0@),
        tags matches Some(tags) ==> (fields_of(tags).contains_key(tag) <==> exists|i: int|
            0 <= i < entries@.len() && shows_as((#[trigger] entries@[i]).0@, tag)),
        tags matches Some(tags) ==> forall|i: int| #[trigger]
            is_last_source(entries@, tag, i) ==> fields_of(tags)[tag] == json_of(*entries@[i].1),
{
    lemma_tags_in_order_are_the_last(entries@, tag);
    let made = tags_in_order(entries@);
    if made != no_fields() {
        if forall|t: Seq<char>| !made.contains_key(t) {
            assert(made =~= no_fields());
        }
        let t = choose|t: Seq<char>| made.contains_key(t);
        lemma_tags_in_order_are_the_last(entries@, t);
        let i = choose|i: int| 0 <= i < entries@.len() && shows_as((#[trigger] entries@[i]).0@, t);
        lemma_shows_as(entries@[i].0@, t);
    }
    if exists|i: int| 0 <= i < entries@.len() && is_kept((#[trigger] entries@[i]).0@) {
        let i = choose|i: int| 0 <= i < entries@.len() && is_kept((#[trigger] entries@[i]).0@);
        let t = tag_name(entries@[i].0@);
        lemma_shows_as(entries@[i].0@, t);
        lemma_tags_in_order_are_the_last(entries@, t);
        assert(made.contains_key(t));
    }
}

} // verus!
