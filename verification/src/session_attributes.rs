//! The attributes of sessions that policies look at.
//!
//! They are property fields of the whole system that only system administrators may change. Each
//! has a time to live and a grace period in seconds, in three tiers: what tells the network apart
//! goes stale first, then the state of the device, then its identity. All of them are switched off
//! until an administrator switches them on.

use vstd::prelude::*;

use crate::property_field::{
    PropertyField, NATIVE_ATTRIBUTE_ATTR_OPERATORS, PERMISSION_LEVEL_SYSADMIN,
    PROPERTY_FIELD_ATTRIBUTE_OPTIONS, PROPERTY_FIELD_OBJECT_TYPE_SESSION,
    PROPERTY_FIELD_TARGET_LEVEL_SYSTEM, PROPERTY_FIELD_TYPE_SELECT, PROPERTY_FIELD_TYPE_TEXT,
};
use crate::str_map::StrMap;
use crate::text::{holds, same};
use crate::value::{
    bool_mismatch_text, copy_interface, int_mismatch_text, list_mismatch_text, str_mismatch_text,
    wire_text, StringInterface, Value,
};

verus! {

pub const SESSION_ATTRIBUTES_PROPERTY_GROUP_NAME: &'static str = "session_attributes";

pub const SESSION_ATTRIBUTE_PLATFORM_DESKTOP: &'static str = "desktop";

pub const SESSION_ATTRIBUTE_PLATFORM_MOBILE: &'static str = "mobile";

pub const SESSION_ATTRIBUTE_PLATFORM_BROWSER: &'static str = "browser";

pub const SESSION_ATTRIBUTES_PROPERTY_FIELD_CLIENT_IP_ADDRESS: &'static str = "client_ip_address";

pub const SESSION_ATTRIBUTES_PROPERTY_FIELD_NETWORK_INTERFACE_TYPE: &'static str =
    "network_interface_type";

pub const SESSION_ATTRIBUTES_PROPERTY_FIELD_VPN_ACTIVE: &'static str = "vpn_active";

pub const SESSION_ATTRIBUTES_PROPERTY_FIELD_SSID: &'static str = "ssid";

pub const SESSION_ATTRIBUTES_PROPERTY_FIELD_TLSD_DEVICE_ID: &'static str = "tls_device_id";

pub const SESSION_ATTRIBUTES_PROPERTY_FIELD_CLIENT_DEVICE_ID: &'static str = "client_device_id";

pub const SESSION_ATTRIBUTES_PROPERTY_FIELD_MDM_ENROLLED: &'static str = "mdm_enrolled";

pub const SESSION_ATTRIBUTES_PROPERTY_FIELD_HARDWARE_ID: &'static str = "hardware_id";

pub const SESSION_ATTRIBUTES_PROPERTY_FIELD_OS_PLATFORM: &'static str = "os_platform";

pub const SESSION_ATTRIBUTES_PROPERTY_FIELD_OS_VERSION: &'static str = "os_version";

pub const SESSION_ATTRIBUTES_PROPERTY_FIELD_CLIENT_VERSION: &'static str = "client_version";

pub const SESSION_ATTRIBUTES_PROPERTY_FIELD_JAILBREAK_DETECTED: &'static str = "jailbreak_detected";

pub const SESSION_ATTRIBUTES_PROPERTY_FIELD_SERVER_FQDN: &'static str = "server_fqdn";

pub const SESSION_ATTRIBUTES_PROPERTY_FIELD_CLIENT_FQDN: &'static str = "client_fqdn";

pub const SESSION_ATTRIBUTES_PROPERTY_FIELD_USER_AGENT_PLATFORM: &'static str =
    "user_agent_platform";

pub const SESSION_ATTRIBUTES_PROPERTY_FIELD_USER_AGENT_OS: &'static str = "user_agent_os";

pub const SESSION_ATTRIBUTES_PROPERTY_FIELD_USER_AGENT_BROWSER_NAME: &'static str =
    "user_agent_browser_name";

pub const SESSION_ATTRIBUTES_PROPERTY_FIELD_USER_AGENT_BROWSER_VERSION: &'static str =
    "user_agent_browser_version";

pub const SESSION_ATTRIBUTES_PROPERTY_FIELD_IP_ADDRESS: &'static str = "ip_address";

pub const SESSION_ATTRIBUTES_DISPLAY_NAME_CLIENT_IP_ADDRESS: &'static str = "Client IP address";

pub const SESSION_ATTRIBUTES_DISPLAY_NAME_NETWORK_INTERFACE_TYPE: &'static str =
    "Network interface type";

pub const SESSION_ATTRIBUTES_DISPLAY_NAME_VPN_ACTIVE: &'static str = "VPN active";

pub const SESSION_ATTRIBUTES_DISPLAY_NAME_SSID: &'static str = "SSID";

pub const SESSION_ATTRIBUTES_DISPLAY_NAME_TLSD_DEVICE_ID: &'static str = "TLS device ID";

pub const SESSION_ATTRIBUTES_DISPLAY_NAME_CLIENT_DEVICE_ID: &'static str = "Device ID";

pub const SESSION_ATTRIBUTES_DISPLAY_NAME_MDM_ENROLLED: &'static str = "MDM enrolled";

pub const SESSION_ATTRIBUTES_DISPLAY_NAME_HARDWARE_ID: &'static str = "Hardware ID";

pub const SESSION_ATTRIBUTES_DISPLAY_NAME_OS_PLATFORM: &'static str = "OS platform";

pub const SESSION_ATTRIBUTES_DISPLAY_NAME_OS_VERSION: &'static str = "OS version";

pub const SESSION_ATTRIBUTES_DISPLAY_NAME_CLIENT_VERSION: &'static str = "Client version";

pub const SESSION_ATTRIBUTES_DISPLAY_NAME_JAILBREAK_DETECTED: &'static str = "Jailbreak detected";

pub const SESSION_ATTRIBUTES_DISPLAY_NAME_SERVER_FQDN: &'static str = "Server FQDN";

pub const SESSION_ATTRIBUTES_DISPLAY_NAME_CLIENT_FQDN: &'static str = "Client FQDN";

pub const SESSION_ATTRIBUTES_DISPLAY_NAME_USER_AGENT_PLATFORM: &'static str = "User agent platform";

pub const SESSION_ATTRIBUTES_DISPLAY_NAME_USER_AGENT_OS: &'static str = "User agent OS";

pub const SESSION_ATTRIBUTES_DISPLAY_NAME_USER_AGENT_BROWSER_NAME: &'static str =
    "User agent browser name";

pub const SESSION_ATTRIBUTES_DISPLAY_NAME_USER_AGENT_BROWSER_VERSION: &'static str =
    "User agent browser version";

pub const SESSION_ATTRIBUTES_DISPLAY_NAME_IP_ADDRESS: &'static str = "IP address";

pub const SA_ATTR_ENABLED: &'static str = "enabled";

pub const SA_ATTR_PLATFORMS: &'static str = "platforms";

pub const SA_ATTR_TTL_SECONDS: &'static str = "ttl_seconds";

pub const SA_ATTR_GRACE_PERIOD_SECONDS: &'static str = "grace_period_seconds";

pub const SA_ATTR_DISPLAY_NAME: &'static str = "display_name";

pub const SESSION_ATTRIBUTE_DEFAULT_TTL_NETWORK_IDENTITY: i64 = 15;

pub const SESSION_ATTRIBUTE_DEFAULT_TTL_POSTURE: i64 = 60;

pub const SESSION_ATTRIBUTE_DEFAULT_TTL_IDENTITY: i64 = 300;

pub const SESSION_ATTRIBUTE_DEFAULT_GRACE_NETWORK_IDENTITY: i64 = 15;

pub const SESSION_ATTRIBUTE_DEFAULT_GRACE_POSTURE: i64 = 60;

pub const SESSION_ATTRIBUTE_DEFAULT_GRACE_IDENTITY: i64 = 300;

/// The header in which a client sends its attributes.
pub const SESSION_ATTRIBUTE_HEADER_CLIENT_ATTRIBUTES: &'static str = "X-MM-Session-Attributes";

/// The header in which a proxy sends the id of a device.
pub const SESSION_ATTRIBUTE_HEADER_PROXY_DEVICE_ID: &'static str =
    "X-Mattermost-Session-Attribute-Device-Id";

pub const SESSION_OPERATOR_IN_CIDR: &'static str = "inCIDR";

pub const SESSION_OPERATOR_VERSION_EQ: &'static str = "versionEQ";

pub const SESSION_OPERATOR_VERSION_GT: &'static str = "versionGT";

pub const SESSION_OPERATOR_VERSION_GTE: &'static str = "versionGTE";

pub const SESSION_OPERATOR_VERSION_LT: &'static str = "versionLT";

pub const SESSION_OPERATOR_VERSION_LTE: &'static str = "versionLTE";

pub const SESSION_STRING_OPERATORS: [&'static str; 6] = [
    "==",
    "!=",
    "in",
    "startsWith",
    "endsWith",
    "contains",
];

pub const SESSION_VERSION_OPERATORS: [&'static str; 5] = [
    SESSION_OPERATOR_VERSION_EQ,
    SESSION_OPERATOR_VERSION_GT,
    SESSION_OPERATOR_VERSION_GTE,
    SESSION_OPERATOR_VERSION_LT,
    SESSION_OPERATOR_VERSION_LTE,
];

/// The attributes that the server takes from the request, whatever the client says.
pub const SESSION_ATTRIBUTES_REQUEST_DERIVED_FIELD_NAMES: [&'static str; 5] = [
    SESSION_ATTRIBUTES_PROPERTY_FIELD_USER_AGENT_PLATFORM,
    SESSION_ATTRIBUTES_PROPERTY_FIELD_USER_AGENT_OS,
    SESSION_ATTRIBUTES_PROPERTY_FIELD_USER_AGENT_BROWSER_NAME,
    SESSION_ATTRIBUTES_PROPERTY_FIELD_USER_AGENT_BROWSER_VERSION,
    SESSION_ATTRIBUTES_PROPERTY_FIELD_IP_ADDRESS,
];

/// The attributes that name a device.
pub const SESSION_ATTRIBUTES_DEVICE_ID_FIELD_NAMES: [&'static str; 3] = [
    SESSION_ATTRIBUTES_PROPERTY_FIELD_TLSD_DEVICE_ID,
    SESSION_ATTRIBUTES_PROPERTY_FIELD_CLIENT_DEVICE_ID,
    SESSION_ATTRIBUTES_PROPERTY_FIELD_HARDWARE_ID,
];

const ALL_PLATFORMS: [&'static str; 3] = [
    SESSION_ATTRIBUTE_PLATFORM_DESKTOP,
    SESSION_ATTRIBUTE_PLATFORM_MOBILE,
    SESSION_ATTRIBUTE_PLATFORM_BROWSER,
];

const CLIENTS_ONLY: [&'static str; 2] = [
    SESSION_ATTRIBUTE_PLATFORM_DESKTOP,
    SESSION_ATTRIBUTE_PLATFORM_MOBILE,
];

const DESKTOP_BROWSER: [&'static str; 2] = [
    SESSION_ATTRIBUTE_PLATFORM_DESKTOP,
    SESSION_ATTRIBUTE_PLATFORM_BROWSER,
];

const DESKTOP_ONLY: [&'static str; 1] = [SESSION_ATTRIBUTE_PLATFORM_DESKTOP];

const MOBILE_ONLY: [&'static str; 1] = [SESSION_ATTRIBUTE_PLATFORM_MOBILE];

const NETWORK_INTERFACE_TYPES: [&'static str; 6] = [
    "wifi",
    "ethernet",
    "cellular",
    "vpn",
    "bluetooth",
    "other",
];

const OS_PLATFORMS: [&'static str; 5] = ["macos", "windows", "linux", "ios", "android"];

const TRUE_OR_FALSE: [&'static str; 2] = ["true", "false"];

/// What one node of a cluster tells the others when the attributes of a session change.
#[derive(Debug, Clone, Default, PartialEq, Eq)]
pub struct SessionAttributesClusterPayload {
    pub session_id: String,
    pub attrs: Option<StringInterface>,
    pub timestamp: i64,
}

/// The attributes of a session field, by their types.
#[derive(Debug, Clone, Default, PartialEq, Eq)]
pub struct SAAttrs {
    pub enabled: bool,
    pub platforms: Option<Vec<String>>,
    pub ttl_seconds: i64,
    pub grace_period_seconds: i64,
    pub display_name: String,
}

/// A property field with its attributes by their types.
#[derive(Debug, Clone, Default, PartialEq, Eq)]
pub struct SAField {
    pub property_field: PropertyField,
    pub attrs: SAAttrs,
}

/// What a client is told of a session field.
#[derive(Debug, Clone, Default, PartialEq, Eq)]
pub struct SessionAttributeManifestEntry {
    pub name: String,
    pub type_: String,
    pub ttl_seconds: i64,
    pub grace_period_seconds: i64,
    pub platforms: Option<Vec<String>>,
    pub display_name: String,
}

/// Attributes that do not have the types of a session field.
#[derive(Debug, Clone, PartialEq, Eq)]
pub enum SessionAttributeError {
    Attrs(String),
}

// ---------------------------------------------------------------------------------------------
// Typed attributes
// ---------------------------------------------------------------------------------------------

/// A list of strings as JSON.
pub open spec fn texts_json(items: Seq<Seq<char>>) -> crate::value::Json {
    crate::value::Json::List(items.map_values(|s: Seq<char>| crate::value::Json::Str(s)))
}

/// The strings of a JSON list, where all its items are strings.
pub open spec fn json_texts(j: crate::value::Json) -> Option<Seq<Seq<char>>> {
    match j {
        crate::value::Json::List(items) => if forall|i: int|
            0 <= i < items.len() ==> (#[trigger] items[i]) is Str {
            Some(
                items.map_values(
                    |v: crate::value::Json|
                        match v {
                            crate::value::Json::Str(s) => s,
                            _ => Seq::empty(),
                        },
                ),
            )
        } else {
            None
        },
        _ => None,
    }
}

/// A truth value among attributes; false where there is none.
pub open spec fn bool_attr(m: StringInterface, key: Seq<char>) -> Option<bool> {
    match crate::scheduled_post::member(m, key) {
        None => Some(false),
        Some(crate::value::Json::Bool(b)) => Some(b),
        _ => None,
    }
}

/// An integer among attributes; zero where there is none.
pub open spec fn int_attr(m: StringInterface, key: Seq<char>) -> Option<int> {
    match crate::scheduled_post::member(m, key) {
        None => Some(0),
        Some(crate::value::Json::Int(n)) => Some(n),
        _ => None,
    }
}

/// A text among attributes; empty where there is none.
pub open spec fn text_attr(m: StringInterface, key: Seq<char>) -> Option<Seq<char>> {
    match crate::scheduled_post::member(m, key) {
        None => Some(Seq::empty()),
        Some(crate::value::Json::Str(s)) => Some(s),
        _ => None,
    }
}

/// A list of texts among attributes; none where there is none or `null`.
pub open spec fn list_attr(m: StringInterface, key: Seq<char>) -> Option<Option<Seq<Seq<char>>>> {
    match crate::scheduled_post::member(m, key) {
        None => Some(None),
        Some(crate::value::Json::Null) => Some(None),
        Some(j) => match json_texts(j) {
            Some(items) => Some(Some(items)),
            None => None,
        },
    }
}

/// The text of an attribute on the wire; nothing where it is missing.
pub open spec fn attr_wire(m: StringInterface, key: Seq<char>) -> Seq<char> {
    match crate::scheduled_post::member(m, key) {
        Some(j) => crate::value::wire(j),
        None => Seq::empty(),
    }
}

/// What the error says of the first attribute, in the order of their names, that has the wrong
/// type.
pub open spec fn mistyped(m: StringInterface) -> Option<Seq<char>> {
    if text_attr(m, SA_ATTR_DISPLAY_NAME@) is None {
        Some(crate::value::str_mismatch(attr_wire(m, SA_ATTR_DISPLAY_NAME@)))
    } else if bool_attr(m, SA_ATTR_ENABLED@) is None {
        Some(crate::value::bool_mismatch(attr_wire(m, SA_ATTR_ENABLED@)))
    } else if int_attr(m, SA_ATTR_GRACE_PERIOD_SECONDS@) is None {
        Some(crate::value::int_mismatch(attr_wire(m, SA_ATTR_GRACE_PERIOD_SECONDS@)))
    } else if list_attr(m, SA_ATTR_PLATFORMS@) is None {
        Some(crate::value::list_mismatch(attr_wire(m, SA_ATTR_PLATFORMS@)))
    } else if int_attr(m, SA_ATTR_TTL_SECONDS@) is None {
        Some(crate::value::int_mismatch(attr_wire(m, SA_ATTR_TTL_SECONDS@)))
    } else {
        None
    }
}

/// The strings of an optional list.
pub open spec fn opt_items(v: Option<Vec<String>>) -> Option<Seq<Seq<char>>> {
    match v {
        Some(x) => Some(crate::text::views(x@)),
        None => None,
    }
}

/// Whether typed attributes are those of a map.
pub open spec fn typed_attrs(a: SAAttrs, m: StringInterface) -> bool {
    &&& bool_attr(m, SA_ATTR_ENABLED@) == Some(a.enabled)
    &&& list_attr(m, SA_ATTR_PLATFORMS@) == Some(opt_items(a.platforms))
    &&& int_attr(m, SA_ATTR_TTL_SECONDS@) == Some(a.ttl_seconds as int)
    &&& int_attr(m, SA_ATTR_GRACE_PERIOD_SECONDS@) == Some(a.grace_period_seconds as int)
    &&& text_attr(m, SA_ATTR_DISPLAY_NAME@) == Some(a.display_name@)
}

/// Whether typed attributes are those of no attributes at all.
pub open spec fn zero_attrs(a: SAAttrs) -> bool {
    a == (SAAttrs {
        enabled: false,
        platforms: None,
        ttl_seconds: 0,
        grace_period_seconds: 0,
        display_name: a.display_name,
    }) && a.display_name@.len() == 0
}

fn read_bool(m: &StringInterface, key: &str) -> (r: Option<bool>)
    ensures
        r == bool_attr(*m, key@),
{
    match m.get(key) {
        None => Some(false),
        Some(Value::Bool(b)) => Some(*b),
        _ => None,
    }
}

fn read_int(m: &StringInterface, key: &str) -> (r: Option<i64>)
    ensures
        match r {
            Some(n) => int_attr(*m, key@) == Some(n as int),
            None => int_attr(*m, key@) is None,
        },
{
    match m.get(key) {
        None => Some(0),
        Some(Value::Int(n)) => Some(*n),
        _ => None,
    }
}

fn read_text(m: &StringInterface, key: &str) -> (r: Option<String>)
    ensures
        crate::text::opt_view(r) == text_attr(*m, key@),
{
    match m.get(key) {
        None => Some(String::new()),
        Some(Value::Str(s)) => Some(s.clone()),
        _ => None,
    }
}

fn read_texts(items: &Vec<Value>) -> (r: Option<Vec<String>>)
    ensures
        opt_items(r) == json_texts(Value::List(*items)@),
{
    proof {
        crate::value::list_items(*items);
    }
    let ghost j = Value::List(*items)@->List_0;
    let mut out: Vec<String> = Vec::new();
    let mut i: usize = 0;
    while i < items.len()
        invariant
            j == Value::List(*items)@->List_0,
            j == items@.map_values(|v: Value| v@),
            i <= items@.len(),
            out@.len() == i,
            forall|k: int|
                0 <= k < i ==> (#[trigger] j[k]) is Str && out@[k]@ == j[k]->Str_0,
        decreases items@.len() - i,
    {
        assert(j[i as int] == items@[i as int]@);
        match &items[i] {
            Value::Str(s) => {
                out.push(s.clone());
            },
            _ => {
                assert(!(j[i as int] is Str));
                return None;
            },
        }
        i = i + 1;
    }
    proof {
        let wanted = json_texts(Value::List(*items)@);
        assert(crate::text::views(out@) == wanted->0);
    }
    Some(out)
}

/// A list that was read: nothing where it has the wrong type.
pub open spec fn read_list_view(r: Option<Option<Vec<String>>>) -> Option<Option<Seq<Seq<char>>>> {
    match r {
        Some(v) => Some(opt_items(v)),
        None => None,
    }
}

fn read_list(m: &StringInterface, key: &str) -> (r: Option<Option<Vec<String>>>)
    ensures
        read_list_view(r) == list_attr(*m, key@),
{
    match m.get(key) {
        None => Some(None),
        Some(Value::Null) => Some(None),
        Some(Value::List(items)) => match read_texts(items) {
            Some(v) => Some(Some(v)),
            None => None,
        },
        _ => None,
    }
}

/// Whether two property fields hold the same.
pub open spec fn same_field(a: PropertyField, b: PropertyField) -> bool {
    &&& a == (PropertyField { attrs: a.attrs, ..b })
    &&& crate::post::opt_json_map(a.attrs) == crate::post::opt_json_map(b.attrs)
}

fn copy_opt_text(s: &Option<String>) -> (r: Option<String>)
    ensures
        r == *s,
{
    match s {
        Some(t) => Some(t.clone()),
        None => None,
    }
}

fn copy_field(f: &PropertyField) -> (r: PropertyField)
    ensures
        same_field(r, *f),
{
    PropertyField {
        id: f.id.clone(),
        group_id: f.group_id.clone(),
        name: f.name.clone(),
        type_: f.type_.clone(),
        attrs: match &f.attrs {
            Some(m) => Some(copy_interface(m)),
            None => None,
        },
        target_id: f.target_id.clone(),
        target_type: f.target_type.clone(),
        object_type: f.object_type.clone(),
        permission_field: copy_opt_text(&f.permission_field),
        permission_values: copy_opt_text(&f.permission_values),
        permission_options: copy_opt_text(&f.permission_options),
        create_at: f.create_at,
        update_at: f.update_at,
        delete_at: f.delete_at,
    }
}

fn attr_wire_text(m: &StringInterface, key: &str) -> (r: String)
    ensures
        r@ == attr_wire(*m, key@),
{
    match m.get(key) {
        Some(v) => wire_text(v),
        None => String::new(),
    }
}

fn read_attrs(m: &StringInterface) -> (r: Result<SAAttrs, SessionAttributeError>)
    ensures
        match r {
            Ok(a) => mistyped(*m) is None && typed_attrs(a, *m),
            Err(SessionAttributeError::Attrs(text)) => mistyped(*m) == Some(text@),
        },
{
    let display_name: String = match read_text(m, SA_ATTR_DISPLAY_NAME) {
        Some(s) => s,
        None => {
            let found: String = attr_wire_text(m, SA_ATTR_DISPLAY_NAME);
            return Err(SessionAttributeError::Attrs(str_mismatch_text(found.as_str())));
        },
    };
    let enabled: bool = match read_bool(m, SA_ATTR_ENABLED) {
        Some(b) => b,
        None => {
            let found: String = attr_wire_text(m, SA_ATTR_ENABLED);
            return Err(SessionAttributeError::Attrs(bool_mismatch_text(found.as_str())));
        },
    };
    let grace_period_seconds: i64 = match read_int(m, SA_ATTR_GRACE_PERIOD_SECONDS) {
        Some(n) => n,
        None => {
            let found: String = attr_wire_text(m, SA_ATTR_GRACE_PERIOD_SECONDS);
            return Err(SessionAttributeError::Attrs(int_mismatch_text(found.as_str())));
        },
    };
    let platforms: Option<Vec<String>> = match read_list(m, SA_ATTR_PLATFORMS) {
        Some(v) => v,
        None => {
            let found: String = attr_wire_text(m, SA_ATTR_PLATFORMS);
            return Err(SessionAttributeError::Attrs(list_mismatch_text(found.as_str())));
        },
    };
    let ttl_seconds: i64 = match read_int(m, SA_ATTR_TTL_SECONDS) {
        Some(n) => n,
        None => {
            let found: String = attr_wire_text(m, SA_ATTR_TTL_SECONDS);
            return Err(SessionAttributeError::Attrs(int_mismatch_text(found.as_str())));
        },
    };
    Ok(SAAttrs { enabled, platforms, ttl_seconds, grace_period_seconds, display_name })
}

impl SAField {
    /// Reads the attributes of a property field by their types. An attribute that is missing has
    /// the zero value of its type; other attributes are ignored. A field without attributes is no
    /// error.
    pub fn from_property_field(field: &PropertyField) -> (r: Result<SAField, SessionAttributeError>)
        ensures
            match r {
                Ok(sa) => same_field(sa.property_field, *field) && match field.attrs {
                    Some(m) => mistyped(m) is None && typed_attrs(sa.attrs, m),
                    None => zero_attrs(sa.attrs),
                },
                Err(SessionAttributeError::Attrs(text)) => field.attrs is Some && mistyped(
                    field.attrs->0,
                ) == Some(text@),
            },
    {
        let attrs: SAAttrs = match &field.attrs {
            Some(m) => match read_attrs(m) {
                Ok(a) => a,
                Err(e) => {
                    return Err(e);
                },
            },
            None => SAAttrs {
                enabled: false,
                platforms: None,
                ttl_seconds: 0,
                grace_period_seconds: 0,
                display_name: String::new(),
            },
        };
        Ok(SAField { property_field: copy_field(field), attrs })
    }

    /// Whether clients of a platform report the attribute: it must be switched on and list the
    /// platform.
    pub fn enabled_for_platform(&self, platform: &str) -> (r: bool)
        ensures
            r == (self.attrs.enabled && match opt_items(self.attrs.platforms) {
                Some(items) => items.contains(platform@),
                None => false,
            }),
    {
        if !self.attrs.enabled {
            return false;
        }
        match &self.attrs.platforms {
            Some(items) => holds(items.as_slice(), platform),
            None => false,
        }
    }
}

// ---------------------------------------------------------------------------------------------
// Values
// ---------------------------------------------------------------------------------------------

/// Whether an option has a text under a key.
pub open spec fn option_has(option: crate::value::Json, key: Seq<char>, text: Seq<char>) -> bool {
    exists|i: int|
        0 <= i < option->Object_0.len() && #[trigger] option->Object_0[i] == (
            key,
            crate::value::Json::Str(text),
        )
}

/// Whether a JSON value is an option: an object of texts.
pub open spec fn is_option(option: crate::value::Json) -> bool {
    option is Object && forall|i: int|
        0 <= i < option->Object_0.len() ==> (#[trigger] option->Object_0[i]).1 is Str
}

/// Whether a text selects an option: by its name or by its id.
pub open spec fn selects(option: crate::value::Json, text: Seq<char>) -> bool {
    option_has(option, "name"@, text) || option_has(option, "id"@, text)
}

/// Whether a text selects one of the options of a field. Options that are not all in order offer
/// nothing.
pub open spec fn offered(options: crate::value::Json, text: Seq<char>) -> bool {
    &&& options is List
    &&& forall|i: int| 0 <= i < options->List_0.len() ==> is_option(#[trigger] options->List_0[i])
    &&& exists|i: int|
        0 <= i < options->List_0.len() && selects(#[trigger] options->List_0[i], text)
}

/// Whether a field of a session may have a value: a text field any text but the empty one, a
/// select field one of its options; no other field has values.
pub open spec fn valid_attribute_value(field: PropertyField, value: crate::value::Json) -> bool {
    match value {
        crate::value::Json::Str(s) => s.len() > 0 && (field.type_@ == PROPERTY_FIELD_TYPE_TEXT@ || (
        field.type_@ == PROPERTY_FIELD_TYPE_SELECT@ && match crate::property_field::attr(
            field,
            PROPERTY_FIELD_ATTRIBUTE_OPTIONS@,
        ) {
            Some(options) => offered(options, s),
            None => false,
        })),
        _ => false,
    }
}

/// What an option offers to a text: nothing where it is not in order, else whether it is selected.
fn option_selected(option: &Value, text: &str) -> (r: Option<bool>)
    ensures
        match r {
            Some(b) => is_option(option@) && b == selects(option@, text@),
            None => !is_option(option@),
        },
{
    match option {
        Value::Object(members) => {
            proof {
                crate::value::object_members(*members);
            }
            let ghost j = option@->Object_0;
            let mut found: bool = false;
            let mut i: usize = 0;
            while i < members.len()
                invariant
                    *option == Value::Object(*members),
                    j == option@->Object_0,
                    j == crate::value::members(members@),
                    i <= members@.len(),
                    forall|k: int| 0 <= k < i ==> (#[trigger] j[k]).1 is Str,
                    found <==> exists|k: int|
                        0 <= k < i && (#[trigger] j[k] == ("name"@, crate::value::Json::Str(text@))
                            || j[k] == ("id"@, crate::value::Json::Str(text@))),
                decreases members@.len() - i,
            {
                assert(j[i as int] == (members@[i as int].0@, members@[i as int].1@));
                match &members[i].1 {
                    Value::Str(s) => {
                        let key: &str = members[i].0.as_str();
                        if (same(key, "name") || same(key, "id")) && same(s.as_str(), text) {
                            found = true;
                        }
                    },
                    _ => {
                        assert(!(j[i as int].1 is Str));
                        return None;
                    },
                }
                i = i + 1;
            }
            proof {
                if found {
                    let k = choose|k: int|
                        0 <= k < j.len() && (#[trigger] j[k] == (
                            "name"@,
                            crate::value::Json::Str(text@),
                        ) || j[k] == ("id"@, crate::value::Json::Str(text@)));
                    if j[k] == ("name"@, crate::value::Json::Str(text@)) {
                        assert(option_has(option@, "name"@, text@));
                    } else {
                        assert(option_has(option@, "id"@, text@));
                    }
                }
            }
            Some(found)
        },
        _ => None,
    }
}

fn is_offered(options: &Value, text: &str) -> (r: bool)
    ensures
        r == offered(options@, text@),
{
    match options {
        Value::List(items) => {
            proof {
                crate::value::list_items(*items);
            }
            let ghost j = options@->List_0;
            let mut found: bool = false;
            let mut i: usize = 0;
            while i < items.len()
                invariant
                    *options == Value::List(*items),
                    j == options@->List_0,
                    j == items@.map_values(|v: Value| v@),
                    i <= items@.len(),
                    forall|k: int| 0 <= k < i ==> is_option(#[trigger] j[k]),
                    found <==> exists|k: int| 0 <= k < i && selects(#[trigger] j[k], text@),
                decreases items@.len() - i,
            {
                assert(j[i as int] == items@[i as int]@);
                match option_selected(&items[i], text) {
                    Some(b) => {
                        if b {
                            found = true;
                        }
                    },
                    None => {
                        assert(!is_option(j[i as int]));
                        return false;
                    },
                }
                i = i + 1;
            }
            found
        },
        _ => false,
    }
}

/// Whether a field of a session may have a value.
pub fn is_valid_session_attribute_value(field: &PropertyField, value: &Value) -> (r: bool)
    ensures
        r == valid_attribute_value(*field, value@),
{
    match value {
        Value::Str(s) => {
            if s.as_str().is_empty() {
                return false;
            }
            if same(field.type_.as_str(), PROPERTY_FIELD_TYPE_TEXT) {
                return true;
            }
            if !same(field.type_.as_str(), PROPERTY_FIELD_TYPE_SELECT) {
                return false;
            }
            match field.get_attr(PROPERTY_FIELD_ATTRIBUTE_OPTIONS) {
                Some(options) => is_offered(options, s.as_str()),
                None => false,
            }
        },
        _ => false,
    }
}

// ---------------------------------------------------------------------------------------------
// The fields of the system
// ---------------------------------------------------------------------------------------------

/// What a field of the system is made from.
pub struct Row {
    pub name: Seq<char>,
    pub display_name: Seq<char>,
    pub type_: Seq<char>,
    pub platforms: Seq<Seq<char>>,
    /// The time to live and the grace period.
    pub seconds: int,
    /// One attribute more.
    pub extra: Option<(Seq<char>, crate::value::Json)>,
}

/// The operators of policies on a field: those on all strings, then others.
pub open spec fn operators_json(others: Seq<Seq<char>>) -> crate::value::Json {
    texts_json(seq!["=="@, "!="@, "in"@, "startsWith"@, "endsWith"@, "contains"@] + others)
}

/// An option that has a name and no id yet.
pub open spec fn named_option(name: Seq<char>) -> crate::value::Json {
    crate::value::Json::Object(seq![("name"@, crate::value::Json::Str(name))])
}

/// The options of a field.
pub open spec fn options_json(names: Seq<Seq<char>>) -> crate::value::Json {
    crate::value::Json::List(names.map_values(|n: Seq<char>| named_option(n)))
}

/// The attributes of a field. It is switched off.
pub open spec fn field_attrs(
    display_name: Seq<char>,
    platforms: Seq<Seq<char>>,
    ttl: int,
    grace: int,
    extra: Option<(Seq<char>, crate::value::Json)>,
) -> Map<Seq<char>, crate::value::Json> {
    let attrs = Map::empty().insert("enabled"@, crate::value::Json::Bool(false)).insert(
        "platforms"@,
        texts_json(platforms),
    ).insert("ttl_seconds"@, crate::value::Json::Int(ttl)).insert(
        "grace_period_seconds"@,
        crate::value::Json::Int(grace),
    ).insert("display_name"@, crate::value::Json::Str(display_name));
    match extra {
        Some((key, value)) => attrs.insert(key, value),
        None => attrs,
    }
}

/// Whether a property field is a new field of sessions: without an id, for the whole system, open
/// to system administrators alone.
pub open spec fn is_session_field(
    f: PropertyField,
    group_id: Seq<char>,
    name: Seq<char>,
    type_: Seq<char>,
    attrs: Map<Seq<char>, crate::value::Json>,
) -> bool {
    &&& f.id@ == ""@
    &&& f.group_id@ == group_id
    &&& f.name@ == name
    &&& f.type_@ == type_
    &&& crate::post::opt_json_map(f.attrs) == Some(attrs)
    &&& f.target_id@ == ""@
    &&& f.target_type@ == "system"@
    &&& f.object_type@ == "session"@
    &&& crate::text::opt_view(f.permission_field) == Some("sysadmin"@)
    &&& crate::text::opt_view(f.permission_values) == Some("sysadmin"@)
    &&& crate::text::opt_view(f.permission_options) == Some("sysadmin"@)
    &&& f.create_at == 0
    &&& f.update_at == 0
    &&& f.delete_at == 0
}

/// Whether a property field is made from a row.
pub open spec fn is_row(f: PropertyField, group_id: Seq<char>, row: Row) -> bool {
    is_session_field(
        f,
        group_id,
        row.name,
        row.type_,
        field_attrs(row.display_name, row.platforms, row.seconds, row.seconds, row.extra),
    )
}

/// Whether property fields are made from rows, one from each.
pub open spec fn are_rows(fields: Seq<PropertyField>, group_id: Seq<char>, rows: Seq<Row>) -> bool {
    &&& fields.len() == rows.len()
    &&& forall|i: int|
        0 <= i < fields.len() ==> is_row(#[trigger] fields[i], group_id, rows[i])
}

/// What tells the network of a session apart.
pub open spec fn network_rows() -> Seq<Row> {
    seq![
        Row {
            name: "ip_address"@,
            display_name: "IP address"@,
            type_: "text"@,
            platforms: seq!["desktop"@, "mobile"@, "browser"@],
            seconds: 15,
            extra: Some(("operators"@, operators_json(seq!["inCIDR"@]))),
        },
        Row {
            name: "client_ip_address"@,
            display_name: "Client IP address"@,
            type_: "text"@,
            platforms: seq!["desktop"@, "mobile"@],
            seconds: 15,
            extra: Some(("operators"@, operators_json(seq!["inCIDR"@]))),
        },
        Row {
            name: "network_interface_type"@,
            display_name: "Network interface type"@,
            type_: "select"@,
            platforms: seq!["desktop"@, "mobile"@],
            seconds: 15,
            extra: Some(("options"@, options_json(seq!["wifi"@, "ethernet"@, "cellular"@, "vpn"@, "bluetooth"@, "other"@]))),
        },
        Row {
            name: "vpn_active"@,
            display_name: "VPN active"@,
            type_: "select"@,
            platforms: seq!["desktop"@, "mobile"@],
            seconds: 15,
            extra: Some(("options"@, options_json(seq!["true"@, "false"@]))),
        },
        Row {
            name: "ssid"@,
            display_name: "SSID"@,
            type_: "text"@,
            platforms: seq!["desktop"@, "mobile"@],
            seconds: 15,
            extra: None,
        },
    ]
}

/// The state of the device.
pub open spec fn posture_rows() -> Seq<Row> {
    seq![
        Row {
            name: "mdm_enrolled"@,
            display_name: "MDM enrolled"@,
            type_: "select"@,
            platforms: seq!["desktop"@, "mobile"@],
            seconds: 60,
            extra: Some(("options"@, options_json(seq!["true"@, "false"@]))),
        },
        Row {
            name: "jailbreak_detected"@,
            display_name: "Jailbreak detected"@,
            type_: "select"@,
            platforms: seq!["mobile"@],
            seconds: 60,
            extra: Some(("options"@, options_json(seq!["true"@, "false"@]))),
        },
        Row {
            name: "os_platform"@,
            display_name: "OS platform"@,
            type_: "select"@,
            platforms: seq!["desktop"@, "mobile"@],
            seconds: 60,
            extra: Some(("options"@, options_json(seq!["macos"@, "windows"@, "linux"@, "ios"@, "android"@]))),
        },
        Row {
            name: "os_version"@,
            display_name: "OS version"@,
            type_: "text"@,
            platforms: seq!["desktop"@, "mobile"@],
            seconds: 60,
            extra: Some(("operators"@, operators_json(seq!["versionEQ"@, "versionGT"@, "versionGTE"@, "versionLT"@, "versionLTE"@]))),
        },
        Row {
            name: "client_version"@,
            display_name: "Client version"@,
            type_: "text"@,
            platforms: seq!["desktop"@, "mobile"@],
            seconds: 60,
            extra: Some(("operators"@, operators_json(seq!["versionEQ"@, "versionGT"@, "versionGTE"@, "versionLT"@, "versionLTE"@]))),
        },
    ]
}

/// The identity of the device and of the client.
pub open spec fn identity_rows() -> Seq<Row> {
    seq![
        Row {
            name: "user_agent_platform"@,
            display_name: "User agent platform"@,
            type_: "text"@,
            platforms: seq!["desktop"@, "mobile"@, "browser"@],
            seconds: 300,
            extra: None,
        },
        Row {
            name: "user_agent_os"@,
            display_name: "User agent OS"@,
            type_: "text"@,
            platforms: seq!["desktop"@, "mobile"@, "browser"@],
            seconds: 300,
            extra: None,
        },
        Row {
            name: "user_agent_browser_name"@,
            display_name: "User agent browser name"@,
            type_: "text"@,
            platforms: seq!["desktop"@, "mobile"@, "browser"@],
            seconds: 300,
            extra: None,
        },
        Row {
            name: "user_agent_browser_version"@,
            display_name: "User agent browser version"@,
            type_: "text"@,
            platforms: seq!["desktop"@, "mobile"@, "browser"@],
            seconds: 300,
            extra: Some(("operators"@, operators_json(seq!["versionEQ"@, "versionGT"@, "versionGTE"@, "versionLT"@, "versionLTE"@]))),
        },
        Row {
            name: "tls_device_id"@,
            display_name: "TLS device ID"@,
            type_: "text"@,
            platforms: seq!["desktop"@, "browser"@],
            seconds: 300,
            extra: None,
        },
        Row {
            name: "client_device_id"@,
            display_name: "Device ID"@,
            type_: "text"@,
            platforms: seq!["mobile"@],
            seconds: 300,
            extra: None,
        },
        Row {
            name: "hardware_id"@,
            display_name: "Hardware ID"@,
            type_: "text"@,
            platforms: seq!["desktop"@],
            seconds: 300,
            extra: None,
        },
        Row {
            name: "server_fqdn"@,
            display_name: "Server FQDN"@,
            type_: "text"@,
            platforms: seq!["desktop"@, "mobile"@],
            seconds: 300,
            extra: None,
        },
        Row {
            name: "client_fqdn"@,
            display_name: "Client FQDN"@,
            type_: "text"@,
            platforms: seq!["desktop"@],
            seconds: 300,
            extra: None,
        },
    ]
}

/// The fields of the system.
pub open spec fn system_rows() -> Seq<Row> {
    network_rows() + posture_rows() + identity_rows()
}

/// A list of strings as a value.
fn texts_value(items: &[&'static str]) -> (r: Vec<Value>)
    ensures
        r@.map_values(|v: Value| v@) == texts_json(crate::text::views(items@))->List_0,
{
    let mut out: Vec<Value> = Vec::new();
    let mut i: usize = 0;
    while i < items.len()
        invariant
            i <= items@.len(),
            out@.len() == i,
            forall|k: int|
                0 <= k < i ==> (#[trigger] out@[k])@ == crate::value::Json::Str(items@[k]@),
        decreases items@.len() - i,
    {
        out.push(Value::Str(items[i].to_string()));
        i = i + 1;
    }
    assert(out@.map_values(|v: Value| v@) =~= texts_json(crate::text::views(items@))->List_0);
    out
}

/// The operators of policies on a field, under their key.
fn session_operators(extra: &[&'static str]) -> (r: (&'static str, Value))
    ensures
        r.0@ == "operators"@,
        r.1@ == operators_json(crate::text::views(extra@)),
{
    let mut list: Vec<Value> = texts_value(SESSION_STRING_OPERATORS.as_slice());
    let mut more: Vec<Value> = texts_value(extra);
    let ghost first = list@;
    let ghost rest = more@;
    list.append(&mut more);
    proof {
        crate::value::list_items(list);
        let all = crate::text::views(SESSION_STRING_OPERATORS@);
        assert(all =~= seq!["=="@, "!="@, "in"@, "startsWith"@, "endsWith"@, "contains"@]);
        let f = |v: Value| v@;
        assert(list@.map_values(f) =~= first.map_values(f) + rest.map_values(f));
        assert(texts_json(all + crate::text::views(extra@))->List_0 =~= texts_json(all)->List_0
            + texts_json(crate::text::views(extra@))->List_0);
        assert(Value::List(list)@->List_0 =~= operators_json(
            crate::text::views(extra@),
        )->List_0);
    }
    (NATIVE_ATTRIBUTE_ATTR_OPERATORS, Value::List(list))
}

/// Options by their names, under their key.
fn name_options(names: &[&'static str]) -> (r: (&'static str, Value))
    ensures
        r.0@ == "options"@,
        r.1@ == options_json(crate::text::views(names@)),
{
    let mut list: Vec<Value> = Vec::new();
    let mut i: usize = 0;
    while i < names.len()
        invariant
            i <= names@.len(),
            list@.len() == i,
            forall|k: int| 0 <= k < i ==> (#[trigger] list@[k])@ == named_option(names@[k]@),
        decreases names@.len() - i,
    {
        let members: Vec<(String, Value)> = vec![
            ("name".to_string(), Value::Str(names[i].to_string())),
        ];
        proof {
            crate::value::object_members(members);
            assert(Value::Object(members)@->Object_0 =~= named_option(
                names@[i as int]@,
            )->Object_0);
        }
        list.push(Value::Object(members));
        i = i + 1;
    }
    proof {
        crate::value::list_items(list);
        assert(Value::List(list)@->List_0 =~= options_json(
            crate::text::views(names@),
        )->List_0);
    }
    (PROPERTY_FIELD_ATTRIBUTE_OPTIONS, Value::List(list))
}

/// An attribute as JSON.
pub open spec fn extra_json(extra: Option<(&'static str, Value)>) -> Option<
    (Seq<char>, crate::value::Json),
> {
    match extra {
        Some((key, value)) => Some((key@, value@)),
        None => None,
    }
}

/// The attributes of a field.
fn session_attribute_field_attrs(
    display_name: &str,
    platforms: &[&'static str],
    ttl: i64,
    grace: i64,
    extra: Option<(&'static str, Value)>,
) -> (r: StringInterface)
    ensures
        crate::post::json_map(r@) == field_attrs(
            display_name@,
            crate::text::views(platforms@),
            ttl as int,
            grace as int,
            extra_json(extra),
        ),
{
    let mut attrs: StringInterface = StrMap::new();
    attrs.insert(SA_ATTR_ENABLED.to_string(), Value::Bool(false));
    let listed: Vec<Value> = texts_value(platforms);
    proof {
        crate::value::list_items(listed);
    }
    attrs.insert(SA_ATTR_PLATFORMS.to_string(), Value::List(listed));
    attrs.insert(SA_ATTR_TTL_SECONDS.to_string(), Value::Int(ttl));
    attrs.insert(SA_ATTR_GRACE_PERIOD_SECONDS.to_string(), Value::Int(grace));
    attrs.insert(SA_ATTR_DISPLAY_NAME.to_string(), Value::Str(display_name.to_string()));
    let ghost shown = extra_json(extra);
    match extra {
        Some((key, value)) => {
            attrs.insert(key.to_string(), value);
        },
        None => {},
    }
    assert(crate::post::json_map(attrs@) =~= field_attrs(
        display_name@,
        crate::text::views(platforms@),
        ttl as int,
        grace as int,
        shown,
    ));
    attrs
}

/// A field of sessions.
fn session_attribute_field(
    group_id: &str,
    name: &str,
    display_name: &str,
    field_type: &str,
    platforms: &[&'static str],
    ttl: i64,
    grace: i64,
    extra: Option<(&'static str, Value)>,
) -> (r: PropertyField)
    ensures
        is_session_field(
            r,
            group_id@,
            name@,
            field_type@,
            field_attrs(
                display_name@,
                crate::text::views(platforms@),
                ttl as int,
                grace as int,
                extra_json(extra),
            ),
        ),
{
    PropertyField {
        id: "".to_string(),
        group_id: group_id.to_string(),
        name: name.to_string(),
        type_: field_type.to_string(),
        attrs: Some(session_attribute_field_attrs(display_name, platforms, ttl, grace, extra)),
        target_id: "".to_string(),
        target_type: PROPERTY_FIELD_TARGET_LEVEL_SYSTEM.to_string(),
        object_type: PROPERTY_FIELD_OBJECT_TYPE_SESSION.to_string(),
        permission_field: Some(PERMISSION_LEVEL_SYSADMIN.to_string()),
        permission_values: Some(PERMISSION_LEVEL_SYSADMIN.to_string()),
        permission_options: Some(PERMISSION_LEVEL_SYSADMIN.to_string()),
        create_at: 0,
        update_at: 0,
        delete_at: 0,
    }
}

fn network_fields(group_id: &str) -> (r: Vec<PropertyField>)
    ensures
        are_rows(r@, group_id@, network_rows()),
{
    let ttl: i64 = SESSION_ATTRIBUTE_DEFAULT_TTL_NETWORK_IDENTITY;
    let grace: i64 = SESSION_ATTRIBUTE_DEFAULT_GRACE_NETWORK_IDENTITY;
    let mut fields: Vec<PropertyField> = Vec::new();
    fields.push(
        session_attribute_field(
            group_id,
            SESSION_ATTRIBUTES_PROPERTY_FIELD_IP_ADDRESS,
            SESSION_ATTRIBUTES_DISPLAY_NAME_IP_ADDRESS,
            PROPERTY_FIELD_TYPE_TEXT,
            ALL_PLATFORMS.as_slice(),
            ttl,
            grace,
            Some(session_operators(&[SESSION_OPERATOR_IN_CIDR])),
        ),
    );
    fields.push(
        session_attribute_field(
            group_id,
            SESSION_ATTRIBUTES_PROPERTY_FIELD_CLIENT_IP_ADDRESS,
            SESSION_ATTRIBUTES_DISPLAY_NAME_CLIENT_IP_ADDRESS,
            PROPERTY_FIELD_TYPE_TEXT,
            CLIENTS_ONLY.as_slice(),
            ttl,
            grace,
            Some(session_operators(&[SESSION_OPERATOR_IN_CIDR])),
        ),
    );
    fields.push(
        session_attribute_field(
            group_id,
            SESSION_ATTRIBUTES_PROPERTY_FIELD_NETWORK_INTERFACE_TYPE,
            SESSION_ATTRIBUTES_DISPLAY_NAME_NETWORK_INTERFACE_TYPE,
            PROPERTY_FIELD_TYPE_SELECT,
            CLIENTS_ONLY.as_slice(),
            ttl,
            grace,
            Some(name_options(NETWORK_INTERFACE_TYPES.as_slice())),
        ),
    );
    fields.push(
        session_attribute_field(
            group_id,
            SESSION_ATTRIBUTES_PROPERTY_FIELD_VPN_ACTIVE,
            SESSION_ATTRIBUTES_DISPLAY_NAME_VPN_ACTIVE,
            PROPERTY_FIELD_TYPE_SELECT,
            CLIENTS_ONLY.as_slice(),
            ttl,
            grace,
            Some(name_options(TRUE_OR_FALSE.as_slice())),
        ),
    );
    fields.push(
        session_attribute_field(
            group_id,
            SESSION_ATTRIBUTES_PROPERTY_FIELD_SSID,
            SESSION_ATTRIBUTES_DISPLAY_NAME_SSID,
            PROPERTY_FIELD_TYPE_TEXT,
            CLIENTS_ONLY.as_slice(),
            ttl,
            grace,
            None,
        ),
    );
    proof {
        let rows = network_rows();
        assert(crate::text::views(ALL_PLATFORMS@) =~= rows[0].platforms);
        assert(crate::text::views([SESSION_OPERATOR_IN_CIDR]@) =~= seq!["inCIDR"@]);
        assert(is_row(fields@[0], group_id@, rows[0]));
        assert(crate::text::views(CLIENTS_ONLY@) =~= rows[1].platforms);
        assert(crate::text::views([SESSION_OPERATOR_IN_CIDR]@) =~= seq!["inCIDR"@]);
        assert(is_row(fields@[1], group_id@, rows[1]));
        assert(crate::text::views(CLIENTS_ONLY@) =~= rows[2].platforms);
        assert(crate::text::views(NETWORK_INTERFACE_TYPES@) =~= seq!["wifi"@, "ethernet"@, "cellular"@, "vpn"@, "bluetooth"@, "other"@]);
        assert(is_row(fields@[2], group_id@, rows[2]));
        assert(crate::text::views(CLIENTS_ONLY@) =~= rows[3].platforms);
        assert(crate::text::views(TRUE_OR_FALSE@) =~= seq!["true"@, "false"@]);
        assert(is_row(fields@[3], group_id@, rows[3]));
        assert(crate::text::views(CLIENTS_ONLY@) =~= rows[4].platforms);
        assert(is_row(fields@[4], group_id@, rows[4]));
    }
    fields
}

fn posture_fields(group_id: &str) -> (r: Vec<PropertyField>)
    ensures
        are_rows(r@, group_id@, posture_rows()),
{
    let ttl: i64 = SESSION_ATTRIBUTE_DEFAULT_TTL_POSTURE;
    let grace: i64 = SESSION_ATTRIBUTE_DEFAULT_GRACE_POSTURE;
    let mut fields: Vec<PropertyField> = Vec::new();
    fields.push(
        session_attribute_field(
            group_id,
            SESSION_ATTRIBUTES_PROPERTY_FIELD_MDM_ENROLLED,
            SESSION_ATTRIBUTES_DISPLAY_NAME_MDM_ENROLLED,
            PROPERTY_FIELD_TYPE_SELECT,
            CLIENTS_ONLY.as_slice(),
            ttl,
            grace,
            Some(name_options(TRUE_OR_FALSE.as_slice())),
        ),
    );
    fields.push(
        session_attribute_field(
            group_id,
            SESSION_ATTRIBUTES_PROPERTY_FIELD_JAILBREAK_DETECTED,
            SESSION_ATTRIBUTES_DISPLAY_NAME_JAILBREAK_DETECTED,
            PROPERTY_FIELD_TYPE_SELECT,
            MOBILE_ONLY.as_slice(),
            ttl,
            grace,
            Some(name_options(TRUE_OR_FALSE.as_slice())),
        ),
    );
    fields.push(
        session_attribute_field(
            group_id,
            SESSION_ATTRIBUTES_PROPERTY_FIELD_OS_PLATFORM,
            SESSION_ATTRIBUTES_DISPLAY_NAME_OS_PLATFORM,
            PROPERTY_FIELD_TYPE_SELECT,
            CLIENTS_ONLY.as_slice(),
            ttl,
            grace,
            Some(name_options(OS_PLATFORMS.as_slice())),
        ),
    );
    fields.push(
        session_attribute_field(
            group_id,
            SESSION_ATTRIBUTES_PROPERTY_FIELD_OS_VERSION,
            SESSION_ATTRIBUTES_DISPLAY_NAME_OS_VERSION,
            PROPERTY_FIELD_TYPE_TEXT,
            CLIENTS_ONLY.as_slice(),
            ttl,
            grace,
            Some(session_operators(SESSION_VERSION_OPERATORS.as_slice())),
        ),
    );
    fields.push(
        session_attribute_field(
            group_id,
            SESSION_ATTRIBUTES_PROPERTY_FIELD_CLIENT_VERSION,
            SESSION_ATTRIBUTES_DISPLAY_NAME_CLIENT_VERSION,
            PROPERTY_FIELD_TYPE_TEXT,
            CLIENTS_ONLY.as_slice(),
            ttl,
            grace,
            Some(session_operators(SESSION_VERSION_OPERATORS.as_slice())),
        ),
    );
    proof {
        let rows = posture_rows();
        assert(crate::text::views(CLIENTS_ONLY@) =~= rows[0].platforms);
        assert(crate::text::views(TRUE_OR_FALSE@) =~= seq!["true"@, "false"@]);
        assert(is_row(fields@[0], group_id@, rows[0]));
        assert(crate::text::views(MOBILE_ONLY@) =~= rows[1].platforms);
        assert(crate::text::views(TRUE_OR_FALSE@) =~= seq!["true"@, "false"@]);
        assert(is_row(fields@[1], group_id@, rows[1]));
        assert(crate::text::views(CLIENTS_ONLY@) =~= rows[2].platforms);
        assert(crate::text::views(OS_PLATFORMS@) =~= seq!["macos"@, "windows"@, "linux"@, "ios"@, "android"@]);
        assert(is_row(fields@[2], group_id@, rows[2]));
        assert(crate::text::views(CLIENTS_ONLY@) =~= rows[3].platforms);
        assert(crate::text::views(SESSION_VERSION_OPERATORS@) =~= seq!["versionEQ"@, "versionGT"@, "versionGTE"@, "versionLT"@, "versionLTE"@]);
        assert(is_row(fields@[3], group_id@, rows[3]));
        assert(crate::text::views(CLIENTS_ONLY@) =~= rows[4].platforms);
        assert(crate::text::views(SESSION_VERSION_OPERATORS@) =~= seq!["versionEQ"@, "versionGT"@, "versionGTE"@, "versionLT"@, "versionLTE"@]);
        assert(is_row(fields@[4], group_id@, rows[4]));
    }
    fields
}

fn identity_fields(group_id: &str) -> (r: Vec<PropertyField>)
    ensures
        are_rows(r@, group_id@, identity_rows()),
{
    let ttl: i64 = SESSION_ATTRIBUTE_DEFAULT_TTL_IDENTITY;
    let grace: i64 = SESSION_ATTRIBUTE_DEFAULT_GRACE_IDENTITY;
    let mut fields: Vec<PropertyField> = Vec::new();
    fields.push(
        session_attribute_field(
            group_id,
            SESSION_ATTRIBUTES_PROPERTY_FIELD_USER_AGENT_PLATFORM,
            SESSION_ATTRIBUTES_DISPLAY_NAME_USER_AGENT_PLATFORM,
            PROPERTY_FIELD_TYPE_TEXT,
            ALL_PLATFORMS.as_slice(),
            ttl,
            grace,
            None,
        ),
    );
    fields.push(
        session_attribute_field(
            group_id,
            SESSION_ATTRIBUTES_PROPERTY_FIELD_USER_AGENT_OS,
            SESSION_ATTRIBUTES_DISPLAY_NAME_USER_AGENT_OS,
            PROPERTY_FIELD_TYPE_TEXT,
            ALL_PLATFORMS.as_slice(),
            ttl,
            grace,
            None,
        ),
    );
    fields.push(
        session_attribute_field(
            group_id,
            SESSION_ATTRIBUTES_PROPERTY_FIELD_USER_AGENT_BROWSER_NAME,
            SESSION_ATTRIBUTES_DISPLAY_NAME_USER_AGENT_BROWSER_NAME,
            PROPERTY_FIELD_TYPE_TEXT,
            ALL_PLATFORMS.as_slice(),
            ttl,
            grace,
            None,
        ),
    );
    fields.push(
        session_attribute_field(
            group_id,
            SESSION_ATTRIBUTES_PROPERTY_FIELD_USER_AGENT_BROWSER_VERSION,
            SESSION_ATTRIBUTES_DISPLAY_NAME_USER_AGENT_BROWSER_VERSION,
            PROPERTY_FIELD_TYPE_TEXT,
            ALL_PLATFORMS.as_slice(),
            ttl,
            grace,
            Some(session_operators(SESSION_VERSION_OPERATORS.as_slice())),
        ),
    );
    fields.push(
        session_attribute_field(
            group_id,
            SESSION_ATTRIBUTES_PROPERTY_FIELD_TLSD_DEVICE_ID,
            SESSION_ATTRIBUTES_DISPLAY_NAME_TLSD_DEVICE_ID,
            PROPERTY_FIELD_TYPE_TEXT,
            DESKTOP_BROWSER.as_slice(),
            ttl,
            grace,
            None,
        ),
    );
    fields.push(
        session_attribute_field(
            group_id,
            SESSION_ATTRIBUTES_PROPERTY_FIELD_CLIENT_DEVICE_ID,
            SESSION_ATTRIBUTES_DISPLAY_NAME_CLIENT_DEVICE_ID,
            PROPERTY_FIELD_TYPE_TEXT,
            MOBILE_ONLY.as_slice(),
            ttl,
            grace,
            None,
        ),
    );
    fields.push(
        session_attribute_field(
            group_id,
            SESSION_ATTRIBUTES_PROPERTY_FIELD_HARDWARE_ID,
            SESSION_ATTRIBUTES_DISPLAY_NAME_HARDWARE_ID,
            PROPERTY_FIELD_TYPE_TEXT,
            DESKTOP_ONLY.as_slice(),
            ttl,
            grace,
            None,
        ),
    );
    fields.push(
        session_attribute_field(
            group_id,
            SESSION_ATTRIBUTES_PROPERTY_FIELD_SERVER_FQDN,
            SESSION_ATTRIBUTES_DISPLAY_NAME_SERVER_FQDN,
            PROPERTY_FIELD_TYPE_TEXT,
            CLIENTS_ONLY.as_slice(),
            ttl,
            grace,
            None,
        ),
    );
    fields.push(
        session_attribute_field(
            group_id,
            SESSION_ATTRIBUTES_PROPERTY_FIELD_CLIENT_FQDN,
            SESSION_ATTRIBUTES_DISPLAY_NAME_CLIENT_FQDN,
            PROPERTY_FIELD_TYPE_TEXT,
            DESKTOP_ONLY.as_slice(),
            ttl,
            grace,
            None,
        ),
    );
    proof {
        let rows = identity_rows();
        assert(crate::text::views(ALL_PLATFORMS@) =~= rows[0].platforms);
        assert(is_row(fields@[0], group_id@, rows[0]));
        assert(crate::text::views(ALL_PLATFORMS@) =~= rows[1].platforms);
        assert(is_row(fields@[1], group_id@, rows[1]));
        assert(crate::text::views(ALL_PLATFORMS@) =~= rows[2].platforms);
        assert(is_row(fields@[2], group_id@, rows[2]));
        assert(crate::text::views(ALL_PLATFORMS@) =~= rows[3].platforms);
        assert(crate::text::views(SESSION_VERSION_OPERATORS@) =~= seq!["versionEQ"@, "versionGT"@, "versionGTE"@, "versionLT"@, "versionLTE"@]);
        assert(is_row(fields@[3], group_id@, rows[3]));
        assert(crate::text::views(DESKTOP_BROWSER@) =~= rows[4].platforms);
        assert(is_row(fields@[4], group_id@, rows[4]));
        assert(crate::text::views(MOBILE_ONLY@) =~= rows[5].platforms);
        assert(is_row(fields@[5], group_id@, rows[5]));
        assert(crate::text::views(DESKTOP_ONLY@) =~= rows[6].platforms);
        assert(is_row(fields@[6], group_id@, rows[6]));
        assert(crate::text::views(CLIENTS_ONLY@) =~= rows[7].platforms);
        assert(is_row(fields@[7], group_id@, rows[7]));
        assert(crate::text::views(DESKTOP_ONLY@) =~= rows[8].platforms);
        assert(is_row(fields@[8], group_id@, rows[8]));
    }
    fields
}

/// The fields of the system, in their order: the network, the state of the device, identities.
pub fn session_attribute_system_fields(group_id: &str) -> (r: Vec<PropertyField>)
    ensures
        are_rows(r@, group_id@, system_rows()),
{
    let mut fields: Vec<PropertyField> = network_fields(group_id);
    let mut posture: Vec<PropertyField> = posture_fields(group_id);
    let mut identity: Vec<PropertyField> = identity_fields(group_id);
    fields.append(&mut posture);
    fields.append(&mut identity);
    fields
}

// ---------------------------------------------------------------------------------------------
// What holds of the fields of the system
// ---------------------------------------------------------------------------------------------

proof fn attribute_names_differ()
    ensures
        forall|i: int, j: int|
            0 <= i < j < 7 ==> #[trigger] attribute_names()[i] != #[trigger] attribute_names()[j],
{
    reveal_strlit("enabled");
    reveal_strlit("platforms");
    reveal_strlit("ttl_seconds");
    reveal_strlit("grace_period_seconds");
    reveal_strlit("display_name");
    reveal_strlit("operators");
    reveal_strlit("options");
    assert("enabled"@.len() == 7 && "options"@.len() == 7);
    assert("enabled"@[0] != "options"@[0]);
    assert("platforms"@.len() == 9 && "operators"@.len() == 9);
    assert("platforms"@[0] != "operators"@[0]);
    assert("ttl_seconds"@.len() == 11);
    assert("grace_period_seconds"@.len() == 20);
    assert("display_name"@.len() == 12);
}

/// The names of the attributes of the fields of the system.
pub open spec fn attribute_names() -> Seq<Seq<char>> {
    seq![
        "enabled"@,
        "platforms"@,
        "ttl_seconds"@,
        "grace_period_seconds"@,
        "display_name"@,
        "operators"@,
        "options"@,
    ]
}

/// Every field of the system has attributes of the right types: it is switched off, and it has the
/// platforms, the time to live, the grace period and the display name of its row.
pub proof fn system_fields_are_typed_and_off(f: PropertyField, group_id: Seq<char>, i: int)
    requires
        0 <= i < system_rows().len(),
        is_row(f, group_id, system_rows()[i]),
    ensures
        f.attrs is Some,
        mistyped(f.attrs->0) is None,
        bool_attr(f.attrs->0, SA_ATTR_ENABLED@) == Some(false),
        list_attr(f.attrs->0, SA_ATTR_PLATFORMS@) == Some(Some(system_rows()[i].platforms)),
        int_attr(f.attrs->0, SA_ATTR_TTL_SECONDS@) == Some(system_rows()[i].seconds),
        int_attr(f.attrs->0, SA_ATTR_GRACE_PERIOD_SECONDS@) == Some(system_rows()[i].seconds),
        text_attr(f.attrs->0, SA_ATTR_DISPLAY_NAME@) == Some(system_rows()[i].display_name),
{
    attribute_names_differ();
    let row = system_rows()[i];
    let m = f.attrs->0;
    let names = attribute_names();
    assert(row.extra is Some ==> match row.extra {
        Some((key, _)) => key == names[5] || key == names[6],
        None => true,
    });
    let wanted = field_attrs(row.display_name, row.platforms, row.seconds, row.seconds, row.extra);
    assert(crate::post::json_map(m@) == wanted);
    assert forall|k: int| 0 <= k < 5 implies crate::scheduled_post::member(m, #[trigger] names[k])
        == Some(wanted[names[k]]) by {
        assert(wanted.dom().contains(names[k]));
        assert(crate::post::json_map(m@).dom().contains(names[k]));
    }
    assert(crate::scheduled_post::member(m, names[0]) == Some(wanted[names[0]]));
    assert(crate::scheduled_post::member(m, names[1]) == Some(wanted[names[1]]));
    assert(crate::scheduled_post::member(m, names[2]) == Some(wanted[names[2]]));
    assert(crate::scheduled_post::member(m, names[3]) == Some(wanted[names[3]]));
    assert(crate::scheduled_post::member(m, names[4]) == Some(wanted[names[4]]));
    let listed = texts_json(row.platforms);
    assert(json_texts(listed) is Some);
    assert(json_texts(listed)->0 =~= row.platforms);
}

/// Every name that options are made from selects one of them.
pub proof fn named_options_are_offered(names: Seq<Seq<char>>, i: int)
    requires
        0 <= i < names.len(),
    ensures
        offered(options_json(names), names[i]),
{
    let options = options_json(names)->List_0;
    assert forall|k: int| 0 <= k < options.len() implies is_option(#[trigger] options[k]) by {
        assert(options[k] == named_option(names[k]));
    }
    assert(options[i] == named_option(names[i]));
    assert(options[i]->Object_0[0] == ("name"@, crate::value::Json::Str(names[i])));
    assert(selects(options[i], names[i]));
}

/// An option is selected by what it has as its name or its id, and by nothing else.
pub proof fn options_are_selected_by_name_or_id(
    key: Seq<char>,
    value: Seq<char>,
    id: Seq<char>,
    name: Seq<char>,
    text: Seq<char>,
)
    ensures
        ({
            let one = crate::value::Json::Object(seq![(key, crate::value::Json::Str(value))]);
            selects(one, text) == ((key == "name"@ || key == "id"@) && value == text)
        }),
        ({
            let two = crate::value::Json::Object(
                seq![
                    ("id"@, crate::value::Json::Str(id)),
                    ("name"@, crate::value::Json::Str(name)),
                ],
            );
            selects(two, text) == (text == id || text == name)
        }),
{
    let one = crate::value::Json::Object(seq![(key, crate::value::Json::Str(value))]);
    assert(one->Object_0[0] == (key, crate::value::Json::Str(value)));
    let two = crate::value::Json::Object(
        seq![("id"@, crate::value::Json::Str(id)), ("name"@, crate::value::Json::Str(name))],
    );
    assert(two->Object_0[0] == ("id"@, crate::value::Json::Str(id)));
    assert(two->Object_0[1] == ("name"@, crate::value::Json::Str(name)));
}

/// Options that are made from names are selected by these names and no others.
pub proof fn only_named_options_are_offered(names: Seq<Seq<char>>, text: Seq<char>)
    ensures
        offered(options_json(names), text) == names.contains(text),
{
    let options = options_json(names)->List_0;
    if names.contains(text) {
        let i = choose|i: int| 0 <= i < names.len() && names[i] == text;
        named_options_are_offered(names, i);
    }
    if offered(options_json(names), text) {
        let i = choose|i: int| 0 <= i < options.len() && selects(#[trigger] options[i], text);
        assert(options[i] == named_option(names[i]));
        options_are_selected_by_name_or_id("name"@, names[i], text, text, text);
        assert(names[i] == text);
    }
}

/// Options are offered only if all of them are objects of texts.
pub proof fn broken_options_offer_nothing(options: Seq<crate::value::Json>, i: int, text: Seq<char>)
    requires
        0 <= i < options.len(),
        !(options[i] is Object) || exists|k: int|
            0 <= k < options[i]->Object_0.len() && !((#[trigger] options[i]->Object_0[k]).1 is Str),
    ensures
        !offered(crate::value::Json::List(options), text),
{
    assert(!is_option(options[i]));
}

/// A field of texts has any text but the empty one, a field of options those that are offered, and no
/// other field has a value.
pub proof fn values_fit_their_fields(field: PropertyField, value: crate::value::Json, s: Seq<char>)
    ensures
        !(value is Str) ==> !valid_attribute_value(field, value),
        s.len() == 0 ==> !valid_attribute_value(field, crate::value::Json::Str(s)),
        s.len() > 0 && field.type_@ == "text"@ ==> valid_attribute_value(
            field,
            crate::value::Json::Str(s),
        ),
        field.type_@ != "text"@ && field.type_@ != "select"@ ==> !valid_attribute_value(field, value),
        field.type_@ == "select"@ && (field.attrs is None
            || !field.attrs->0@.dom().contains("options"@)) ==> !valid_attribute_value(field, value),
        field.type_@ == "select"@ && s.len() > 0 && field.attrs is Some
            && field.attrs->0@.dom().contains("options"@) ==> valid_attribute_value(
            field,
            crate::value::Json::Str(s),
        ) == offered(field.attrs->0@["options"@]@, s),
{
    reveal_strlit("text");
    reveal_strlit("select");
    assert("text"@.len() == 4 && "select"@.len() == 6);
}

/// Attributes are read under their names; one that is missing is false, zero, empty or none.
pub proof fn attributes_are_read_under_their_names(a: SAAttrs, m: StringInterface)
    requires
        typed_attrs(a, m),
    ensures
        m@.dom().contains("enabled"@) ==> m@["enabled"@]@ == crate::value::Json::Bool(a.enabled),
        !m@.dom().contains("enabled"@) ==> !a.enabled,
        m@.dom().contains("ttl_seconds"@) ==> m@["ttl_seconds"@]@ == crate::value::Json::Int(
            a.ttl_seconds as int,
        ),
        !m@.dom().contains("ttl_seconds"@) ==> a.ttl_seconds == 0,
        m@.dom().contains("grace_period_seconds"@) ==> m@["grace_period_seconds"@]@
            == crate::value::Json::Int(a.grace_period_seconds as int),
        !m@.dom().contains("grace_period_seconds"@) ==> a.grace_period_seconds == 0,
        m@.dom().contains("display_name"@) ==> m@["display_name"@]@ == crate::value::Json::Str(
            a.display_name@,
        ),
        !m@.dom().contains("display_name"@) ==> a.display_name@.len() == 0,
        !m@.dom().contains("platforms"@) || m@["platforms"@]@ is Null ==> a.platforms is None,
        m@.dom().contains("platforms"@) && !(m@["platforms"@]@ is Null) ==> a.platforms is Some
            && m@["platforms"@]@ is List && m@["platforms"@]@->List_0.len() == a.platforms->0@.len()
            && forall|i: int|
            0 <= i < a.platforms->0@.len() ==> m@["platforms"@]@->List_0[i] == crate::value::Json::Str(
                (#[trigger] a.platforms->0@[i])@,
            ),
{
    if m@.dom().contains("platforms"@) && !(m@["platforms"@]@ is Null) {
        let items = m@["platforms"@]@->List_0;
        let read = crate::text::views(a.platforms->0@);
        assert(json_texts(m@["platforms"@]@) == Some(read));
        assert(read.len() == items.len());
        assert forall|i: int| 0 <= i < a.platforms->0@.len() implies items[i]
            == crate::value::Json::Str((#[trigger] a.platforms->0@[i])@) by {
            assert(read[i] == a.platforms->0@[i]@);
            assert(items[i] is Str);
        }
    }
}

/// Attributes are refused if and only if one of the five has another type than its own.
pub proof fn attributes_of_other_types_are_refused(m: StringInterface)
    ensures
        (mistyped(m) is None) == ({
            let at = |key: Seq<char>| m@[key]@;
            let has = |key: Seq<char>| m@.dom().contains(key);
            &&& has("display_name"@) ==> at("display_name"@) is Str
            &&& has("enabled"@) ==> at("enabled"@) is Bool
            &&& has("grace_period_seconds"@) ==> at("grace_period_seconds"@) is Int
            &&& has("ttl_seconds"@) ==> at("ttl_seconds"@) is Int
            &&& has("platforms"@) ==> at("platforms"@) is Null || (at("platforms"@) is List && forall|
                i: int,
            |
                0 <= i < at("platforms"@)->List_0.len() ==> (
                #[trigger] at("platforms"@)->List_0[i]) is Str)
        }),
{
}

/// The fields of the system: five on the network, which go stale after a quarter of a minute, five on
/// the state of the device after a minute, and nine on identities after five minutes.
pub proof fn fields_go_stale_in_three_tiers(i: int)
    requires
        0 <= i < 19,
    ensures
        system_rows().len() == 19,
        system_rows()[i].seconds == (if i < 5 {
            15
        } else if i < 10 {
            60int
        } else {
            300
        }),
        system_rows()[i].name == seq![
            "ip_address"@,
            "client_ip_address"@,
            "network_interface_type"@,
            "vpn_active"@,
            "ssid"@,
            "mdm_enrolled"@,
            "jailbreak_detected"@,
            "os_platform"@,
            "os_version"@,
            "client_version"@,
            "user_agent_platform"@,
            "user_agent_os"@,
            "user_agent_browser_name"@,
            "user_agent_browser_version"@,
            "tls_device_id"@,
            "client_device_id"@,
            "hardware_id"@,
            "server_fqdn"@,
            "client_fqdn"@,
        ][i],
        system_rows()[i].type_ == (if i == 2 || i == 3 || 5 <= i <= 7 {
            "select"@
        } else {
            "text"@
        }),
        system_rows()[i].platforms == (if i == 0 || 10 <= i <= 13 {
            seq!["desktop"@, "mobile"@, "browser"@]
        } else if i == 14 {
            seq!["desktop"@, "browser"@]
        } else if i == 6 || i == 15 {
            seq!["mobile"@]
        } else if i == 16 || i == 18 {
            seq!["desktop"@]
        } else {
            seq!["desktop"@, "mobile"@]
        }),
{
}

/// The new fields of sessions are those of the whole system and open to its administrators alone.
pub proof fn fields_are_for_administrators(f: PropertyField, group_id: Seq<char>, row: Row)
    requires
        is_row(f, group_id, row),
    ensures
        f.id@.len() == 0 && f.target_id@.len() == 0,
        f.group_id@ == group_id && f.name@ == row.name && f.type_@ == row.type_,
        f.target_type@ == "system"@ && f.object_type@ == "session"@,
        f.permission_field is Some && f.permission_field->0@ == "sysadmin"@,
        f.permission_values is Some && f.permission_values->0@ == "sysadmin"@,
        f.permission_options is Some && f.permission_options->0@ == "sysadmin"@,
        f.create_at == 0 && f.update_at == 0 && f.delete_at == 0,
{
    reveal_strlit("");
}

/// A field whose attributes are missing has none.
pub proof fn no_attributes_are_zero(a: SAAttrs)
    requires
        zero_attrs(a),
    ensures
        !a.enabled && a.platforms is None && a.ttl_seconds == 0 && a.grace_period_seconds == 0
            && a.display_name@.len() == 0,
{
}

/// Policies know six operators on all texts, and then those of the field.
pub proof fn operators_on_texts_come_first(others: Seq<Seq<char>>, i: int)
    ensures
        operators_json(others) is List,
        operators_json(others)->List_0.len() == 6 + others.len(),
        operators_json(others)->List_0.take(6) == seq![
            crate::value::Json::Str("=="@),
            crate::value::Json::Str("!="@),
            crate::value::Json::Str("in"@),
            crate::value::Json::Str("startsWith"@),
            crate::value::Json::Str("endsWith"@),
            crate::value::Json::Str("contains"@),
        ],
        0 <= i < others.len() ==> operators_json(others)->List_0[6 + i] == crate::value::Json::Str(
            others[i],
        ),
{
}

} // verus!
