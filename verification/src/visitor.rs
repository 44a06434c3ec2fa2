//! Visitors: what is recorded of a span's or an event's fields.

use crate::config::{PARENT_ID_FIELD_NAME, TRACE_ID_FIELD_NAME};
use crate::fields::{fields_of, insert_field, new_fields, no_fields, Fields};
use crate::json::{json_bool, json_i64, json_of, json_str, json_u64, Json};
use crate::text::same_text;
use serde_json::Value;
use vstd::prelude::*;

verus! {

/// A visitor that can show the fields it has recorded.
pub trait ToVisited {
    fn to_visited(&self) -> (fields: &Fields);
}

/// `fields` is what `visitor` may show.
pub open spec fn shows<U: ToVisited>(visitor: U, fields: Fields) -> bool {
    call_ensures(U::to_visited, (&visitor,), &fields)
}

/// Records every field under its name.
pub struct ApmVisitor(pub(crate) Fields);

impl Default for ApmVisitor {
    /// A visitor that has recorded nothing.
    fn default() -> (visitor: ApmVisitor)
        ensures
            visitor.visited() == no_fields(),
    {
        ApmVisitor(new_fields())
    }
}

impl ToVisited for ApmVisitor {
    fn to_visited(&self) -> (fields: &Fields)
        ensures
            fields_of(*fields) == self.visited(),
    {
        &self.0
    }
}

impl ApmVisitor {
    /// The recorded fields.
    pub closed spec fn visited(&self) -> Map<Seq<char>, Json> {
        fields_of(self.0)
    }

    /// Records `value` under the name `field`, in place of what was recorded under it before.
    pub fn insert_value(&mut self, field: &str, value: Value)
        ensures
            final(self).visited() == old(self).visited().insert(field@, json_of(value)),
    {
        insert_field(&mut self.0, field.to_string(), value);
    }

    /// Records an integer.
    pub fn record_i64(&mut self, field: &str, value: i64)
        ensures
            final(self).visited() == old(self).visited().insert(
                field@,
                Json::Integer(value as int),
            ),
    {
        self.insert_value(field, json_i64(value));
    }

    /// Records an integer.
    pub fn record_u64(&mut self, field: &str, value: u64)
        ensures
            final(self).visited() == old(self).visited().insert(
                field@,
                Json::Integer(value as int),
            ),
    {
        self.insert_value(field, json_u64(value));
    }

    /// Records a truth value.
    pub fn record_bool(&mut self, field: &str, value: bool)
        ensures
            final(self).visited() == old(self).visited().insert(field@, Json::Bool(value)),
    {
        self.insert_value(field, json_bool(value));
    }

    /// Records a text.
    pub fn record_str(&mut self, field: &str, value: &str)
        ensures
            final(self).visited() == old(self).visited().insert(field@, Json::Text(value@)),
    {
        self.insert_value(field, json_str(value));
    }

    /// Records a value of any other type by its `Debug` text, which is `formatted`.
    pub fn record_debug(&mut self, field: &str, formatted: String)
        ensures
            final(self).visited() == old(self).visited().insert(field@, Json::Text(formatted@)),
    {
        self.insert_value(field, json_str(formatted.as_str()));
    }
}

/// Captures the optional linkage fields that splice a span without a parent into an existing
/// trace: [`TRACE_ID_FIELD_NAME`], a `u128`, and [`PARENT_ID_FIELD_NAME`], the `u64` id of a span.
/// Only consulted for spans that become their own transaction.
pub struct RootLinkVisitor {
    pub trace_id: Option<u128>,
    pub parent_id: Option<u64>,
}

impl Default for RootLinkVisitor {
    /// No link.
    fn default() -> (link: RootLinkVisitor)
        ensures
            link.trace_id is None,
            link.parent_id is None,
    {
        RootLinkVisitor { trace_id: None, parent_id: None }
    }
}

impl RootLinkVisitor {
    /// Signed integers are no links.
    pub fn record_i64(&mut self, _field: &str, _value: i64)
        ensures
            *final(self) == *old(self),
    {
    }

    /// A `u64` under [`PARENT_ID_FIELD_NAME`] is the id of the span to nest under.
    pub fn record_u64(&mut self, field: &str, value: u64)
        ensures
            final(self).trace_id == old(self).trace_id,
            final(self).parent_id == if field@ == PARENT_ID_FIELD_NAME@ {
                Some(value)
            } else {
                old(self).parent_id
            },
    {
        if same_text(field, PARENT_ID_FIELD_NAME) {
            self.parent_id = Some(value);
        }
    }

    /// A `u128` under [`TRACE_ID_FIELD_NAME`] is the id of the trace to join.
    pub fn record_u128(&mut self, field: &str, value: u128)
        ensures
            final(self).parent_id == old(self).parent_id,
            final(self).trace_id == if field@ == TRACE_ID_FIELD_NAME@ {
                Some(value)
            } else {
                old(self).trace_id
            },
    {
        if same_text(field, TRACE_ID_FIELD_NAME) {
            self.trace_id = Some(value);
        }
    }

    /// Truth values are no links.
    pub fn record_bool(&mut self, _field: &str, _value: bool)
        ensures
            *final(self) == *old(self),
    {
    }

    /// Texts are no links.
    pub fn record_str(&mut self, _field: &str, _value: &str)
        ensures
            *final(self) == *old(self),
    {
    }

    /// Values of other types are no links, so their `Debug` text is not asked for.
    pub fn record_debug(&mut self, _field: &str)
        ensures
            *final(self) == *old(self),
    {
    }
}

} // verus!
