//! Property fields: named, typed attributes that objects of the system can have.

use vstd::prelude::*;

use crate::value::{StringInterface, Value};

verus! {

pub const PROPERTY_FIELD_TYPE_TEXT: &'static str = "text";

pub const PROPERTY_FIELD_TYPE_SELECT: &'static str = "select";

pub const PROPERTY_FIELD_OBJECT_TYPE_SESSION: &'static str = "session";

pub const PROPERTY_FIELD_TARGET_LEVEL_SYSTEM: &'static str = "system";

/// The attribute that lists what can be selected.
pub const PROPERTY_FIELD_ATTRIBUTE_OPTIONS: &'static str = "options";

/// The attribute that lists the operators of policies.
pub const NATIVE_ATTRIBUTE_ATTR_OPERATORS: &'static str = "operators";

pub const PERMISSION_LEVEL_SYSADMIN: &'static str = "sysadmin";

/// A property field.
#[derive(Debug, Clone, Default, PartialEq, Eq)]
pub struct PropertyField {
    pub id: String,
    pub group_id: String,
    pub name: String,
    pub type_: String,
    pub attrs: Option<StringInterface>,
    pub target_id: String,
    pub target_type: String,
    pub object_type: String,
    pub permission_field: Option<String>,
    pub permission_values: Option<String>,
    pub permission_options: Option<String>,
    pub create_at: i64,
    pub update_at: i64,
    pub delete_at: i64,
}

/// An attribute of a field, as JSON.
pub open spec fn attr(field: PropertyField, key: Seq<char>) -> Option<crate::value::Json> {
    match field.attrs {
        Some(m) => if m@.dom().contains(key) {
            Some(m@[key]@)
        } else {
            None
        },
        None => None,
    }
}

impl PropertyField {
    /// An attribute of the field.
    pub fn get_attr(&self, key: &str) -> (r: Option<&Value>)
        ensures
            match r {
                Some(v) => attr(*self, key@) == Some(v@),
                None => attr(*self, key@) is None,
            },
    {
        match &self.attrs {
            Some(m) => m.get(key),
            None => None,
        }
    }
}

} // verus!
