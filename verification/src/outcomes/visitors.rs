//! What visitors record.

use crate::fields::{fields_of, Fields};
use crate::json::{json_of, Json};
use crate::visitor::{ApmVisitor, RootLinkVisitor, ToVisited};
use serde_json::Value;
use vstd::prelude::*;

verus! {

/// A visitor that has recorded nothing shows nothing.
pub proof fn law_a_new_visitor_shows_nothing(visitor: ApmVisitor, shown: &Fields, name: Seq<char>)
    requires
        call_ensures(ApmVisitor::default, (), visitor),
        call_ensures(ApmVisitor::to_visited, (&visitor,), shown),
    ensures
        !fields_of(*shown).contains_key(name),
{
}

/// After `value` was recorded under `field`, it shows under that name, and every other name shows
/// what it did before.
pub open spec fn is_recorded_under(
    before: Map<Seq<char>, Json>,
    after: Map<Seq<char>, Json>,
    field: Seq<char>,
    value: Json,
) -> bool {
    &&& after.contains_key(field)
    &&& after[field] == value
    &&& forall|name: Seq<char>|
        name != field ==> (#[trigger] after.contains_key(name) <==> before.contains_key(name))
    &&& forall|name: Seq<char>| #[trigger]
        before.contains_key(name) && name != field ==> after[name] == before[name]
}

/// Whatever kind of value is recorded under a name, it is what a visitor shows under that name from
/// then on: an integer as that integer, a truth value as that, and text, also that of a value of
/// any other kind, as that text.
pub proof fn law_what_is_recorded_shows(
    visitor: &mut ApmVisitor,
    before: &Fields,
    after: &Fields,
    field: &str,
    value: Value,
    signed: i64,
    unsigned: u64,
    truth: bool,
    text: &str,
    formatted: String,
)
    requires
        call_ensures(ApmVisitor::to_visited, (&*old(visitor),), before),
        call_ensures(ApmVisitor::to_visited, (&*final(visitor),), after),
    ensures
        call_ensures(ApmVisitor::insert_value, (visitor, field, value), ()) ==> is_recorded_under(
            fields_of(*before),
            fields_of(*after),
            field@,
            json_of(value),
        ),
        call_ensures(ApmVisitor::record_i64, (visitor, field, signed), ()) ==> is_recorded_under(
            fields_of(*before),
            fields_of(*after),
            field@,
            Json::Integer(signed as int),
        ),
        call_ensures(ApmVisitor::record_u64, (visitor, field, unsigned), ()) ==> is_recorded_under(
            fields_of(*before),
            fields_of(*after),
            field@,
            Json::Integer(unsigned as int),
        ),
        call_ensures(ApmVisitor::record_bool, (visitor, field, truth), ()) ==> is_recorded_under(
            fields_of(*before),
            fields_of(*after),
            field@,
            Json::Bool(truth),
        ),
        call_ensures(ApmVisitor::record_str, (visitor, field, text), ()) ==> is_recorded_under(
            fields_of(*before),
            fields_of(*after),
            field@,
            Json::Text(text@),
        ),
        call_ensures(ApmVisitor::record_debug, (visitor, field, formatted), ())
            ==> is_recorded_under(
            fields_of(*before),
            fields_of(*after),
            field@,
            Json::Text(formatted@),
        ),
{
}

/// There is no link until one is recorded.
pub proof fn law_no_link_to_begin_with(link: RootLinkVisitor)
    requires
        call_ensures(RootLinkVisitor::default, (), link),
    ensures
        link.trace_id is None,
        link.parent_id is None,
{
}

/// A `u64` recorded as `parent_id` is the span to nest under, and a `u128` recorded as `trace_id`
/// the trace to join, whatever the number. No other name and no other kind of value is a link.
pub proof fn law_links_are_the_linkage_fields(
    link: &mut RootLinkVisitor,
    field: &str,
    signed: i64,
    unsigned: u64,
    wide: u128,
    truth: bool,
    text: &str,
)
    ensures
        call_ensures(RootLinkVisitor::record_u64, (link, field, unsigned), ()) ==> {
            &&& final(link).trace_id == old(link).trace_id
            &&& field@ == "parent_id"@ ==> final(link).parent_id == Some(unsigned)
            &&& field@ != "parent_id"@ ==> final(link).parent_id == old(link).parent_id
        },
        call_ensures(RootLinkVisitor::record_u128, (link, field, wide), ()) ==> {
            &&& final(link).parent_id == old(link).parent_id
            &&& field@ == "trace_id"@ ==> final(link).trace_id == Some(wide)
            &&& field@ != "trace_id"@ ==> final(link).trace_id == old(link).trace_id
        },
        ({
            ||| call_ensures(RootLinkVisitor::record_i64, (link, field, signed), ())
            ||| call_ensures(RootLinkVisitor::record_bool, (link, field, truth), ())
            ||| call_ensures(RootLinkVisitor::record_str, (link, field, text), ())
            ||| call_ensures(RootLinkVisitor::record_debug, (link, field), ())
        }) ==> final(link).trace_id == old(link).trace_id && final(link).parent_id == old(
            link,
        ).parent_id,
{
}

} // verus!
