//! Maps from field names to JSON values.

use crate::json::{json_of, Json};
use fxhash::FxHashMap;
use serde_json::Value;
use vstd::prelude::*;

verus! {

/// A map from field names to JSON values.
pub type Fields = FxHashMap<String, Value>;

/// The hasher of `FxHashMap`.
#[verifier::external_type_specification]
#[verifier::external_body]
pub struct ExFxHasher(fxhash::FxHasher);

/// What makes the hashers of `FxHashMap`.
#[verifier::external_type_specification]
#[verifier::external_body]
#[verifier::reject_recursive_types(H)]
pub struct ExBuildHasherDefault<H>(core::hash::BuildHasherDefault<H>);

/// The names in `map`, each with what its value holds.
pub uninterp spec fn fields_of(map: FxHashMap<String, Value>) -> Map<Seq<char>, Json>;

/// No fields at all.
pub open spec fn no_fields() -> Map<Seq<char>, Json> {
    Map::empty()
}

/// `entries` holds each field of `fields` once, in some order.
pub open spec fn lists(
    entries: Seq<(&String, &Value)>,
    fields: Map<Seq<char>, Json>,
) -> bool {
    &&& forall|i: int, j: int|
        0 <= i < j < entries.len() ==> (#[trigger] entries[i]).0@ != (#[trigger] entries[j]).0@
    &&& forall|i: int|
        0 <= i < entries.len() ==> fields.contains_key((#[trigger] entries[i]).0@)
            && fields[entries[i].0@] == json_of(*entries[i].1)
    &&& forall|name: Seq<char>| #[trigger]
        fields.contains_key(name) ==> exists|i: int|
            0 <= i < entries.len() && (#[trigger] entries[i]).0@ == name
}

/// Fields that can be listed are finitely many.
pub proof fn lemma_listed_fields_are_finite(
    entries: Seq<(&String, &Value)>,
    fields: Map<Seq<char>, Json>,
)
    requires
        lists(entries, fields),
    ensures
        fields.dom().finite(),
{
    let names = entries.map_values(|entry: (&String, &Value)| entry.0@);
    assert forall|name: Seq<char>| fields.contains_key(name) implies names.contains(name) by {
        let i = choose|i: int| 0 <= i < entries.len() && (#[trigger] entries[i]).0@ == name;
        assert(names[i] == name);
    }
    assert(fields.dom() =~= names.to_set());
    vstd::seq_lib::seq_to_set_is_finite(names);
}

/// The `Default` of `FxHashMap`, claimed to be empty.
#[verifier::external_body]
pub(crate) fn new_fields() -> (map: Fields)
    ensures
        fields_of(map) == no_fields(),
{
    FxHashMap::default()
}

/// `FxHashMap::insert`, claimed to bind the name to the value, in place of any value it had, and
/// to leave every other name as it was.
#[verifier::external_body]
pub(crate) fn insert_field(map: &mut Fields, name: String, value: Value)
    ensures
        fields_of(*final(map)) == fields_of(*old(map)).insert(name@, json_of(value)),
{
    map.insert(name, value);
}

/// `FxHashMap::get`, claimed to give the value bound to the name, if there is one.
#[verifier::external_body]
pub(crate) fn get_field<'a>(map: &'a Fields, name: &str) -> (value: Option<&'a Value>)
    ensures
        match value {
            Some(value) => fields_of(*map).contains_key(name@) && fields_of(*map)[name@] == json_of(
                *value,
            ),
            None => !fields_of(*map).contains_key(name@),
        },
{
    map.get(name)
}

/// `FxHashMap::is_empty`, claimed to tell whether the map holds no name.
#[verifier::external_body]
pub(crate) fn has_no_fields(map: &Fields) -> (empty: bool)
    ensures
        empty == (fields_of(*map) == no_fields()),
{
    map.is_empty()
}

/// `FxHashMap::iter`, claimed to hand out each name once, with its value. In which order is left
/// open: it depends on how the map was filled.
#[verifier::external_body]
pub(crate) fn walk_fields<'a>(map: &'a Fields) -> (entries: Vec<(&'a String, &'a Value)>)
    ensures
        lists(entries@, fields_of(*map)),
{
    map.iter().collect()
}

/// `FxHashMap::clone`, claimed to give a map of the same names, each bound to a value that holds
/// the same.
#[verifier::external_body]
pub(crate) fn clone_fields(map: &Fields) -> (copy: Fields)
    ensures
        fields_of(copy) == fields_of(*map),
{
    map.clone()
}

} // verus!
