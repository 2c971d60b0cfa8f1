use mm_model::property_field::{
    PropertyField, PROPERTY_FIELD_TYPE_SELECT, PROPERTY_FIELD_TYPE_TEXT,
};
use mm_model::session_attributes::{
    is_valid_session_attribute_value, session_attribute_system_fields, SAAttrs, SAField,
    SessionAttributeError,
};
use mm_model::str_map::StrMap;
use mm_model::value::{StringInterface, Value};

fn interface(pairs: Vec<(&str, Value)>) -> StringInterface {
    let mut m = StrMap::new();
    for (k, v) in pairs {
        m.insert(k.to_string(), v);
    }
    m
}

fn text(s: &str) -> Value {
    Value::Str(s.to_string())
}

fn field_with(attrs: Option<StringInterface>) -> PropertyField {
    PropertyField {
        attrs,
        ..Default::default()
    }
}

#[test]
fn fields_without_attributes_are_not_errors() {
    let none = SAField::from_property_field(&field_with(None)).unwrap();
    assert_eq!(none.attrs, SAAttrs::default());
    let empty = SAField::from_property_field(&field_with(Some(StrMap::new()))).unwrap();
    assert_eq!(empty.attrs, SAAttrs::default());
}

#[test]
fn attributes_are_typed() {
    let field = field_with(Some(interface(vec![
        ("enabled", Value::Bool(true)),
        ("platforms", Value::List(vec![text("desktop"), text("mobile")])),
        ("ttl_seconds", Value::Int(15)),
        ("grace_period_seconds", Value::Int(20)),
        ("display_name", text("Name")),
        ("other", Value::Null),
    ])));
    let sa = SAField::from_property_field(&field).unwrap();
    assert_eq!(
        sa.attrs,
        SAAttrs {
            enabled: true,
            platforms: Some(vec!["desktop".into(), "mobile".into()]),
            ttl_seconds: 15,
            grace_period_seconds: 20,
            display_name: "Name".into(),
        }
    );
    assert_eq!(sa.property_field, field);
    assert!(sa.enabled_for_platform("mobile"));
    assert!(!sa.enabled_for_platform("browser"));
    let mut off = sa;
    off.attrs.enabled = false;
    assert!(!off.enabled_for_platform("mobile"));
}

#[test]
fn attributes_of_the_wrong_type() {
    for (key, value, message) in [
        ("enabled", Value::Int(1), "invalid type: integer `1`, expected a boolean"),
        (
            "platforms",
            Value::List(vec![text("mobile"), Value::Int(1)]),
            "invalid type: integer `1`, expected a string",
        ),
        ("platforms", text("mobile"), "invalid type: string \"mobile\", expected a sequence"),
        ("ttl_seconds", text("<15>"), "invalid type: string \"<15>\", expected i64"),
        ("ttl_seconds", Value::Number("1.5".into()), "invalid type: floating point `1.5`, expected i64"),
        (
            "ttl_seconds",
            Value::Number("9223372036854775808".into()),
            "invalid value: integer `9223372036854775808`, expected i64",
        ),
        ("grace_period_seconds", Value::Null, "invalid type: null, expected i64"),
        ("display_name", Value::Bool(true), "invalid type: boolean `true`, expected a string"),
        ("display_name", Value::Object(Vec::new()), "invalid type: map, expected a string"),
    ] {
        let e = SAField::from_property_field(&field_with(Some(interface(vec![(key, value)]))));
        assert_eq!(e.unwrap_err(), SessionAttributeError::Attrs(message.to_string()), "{key}");
    }
}

#[test]
fn the_first_mistyped_name_decides() {
    let message = |keys: &[&str]| {
        let pairs = keys.iter().map(|k| (*k, Value::Object(Vec::new()))).collect();
        match SAField::from_property_field(&field_with(Some(interface(pairs)))) {
            Err(SessionAttributeError::Attrs(message)) => message,
            Ok(_) => panic!("{keys:?}"),
        }
    };
    let all = ["ttl_seconds", "platforms", "grace_period_seconds", "enabled", "display_name"];
    assert_eq!(message(&all), "invalid type: map, expected a string");
    assert_eq!(message(&all[..4]), "invalid type: map, expected a boolean");
    assert_eq!(message(&all[..3]), "invalid type: map, expected i64");
    assert_eq!(message(&all[..2]), "invalid type: map, expected a sequence");
    assert_eq!(message(&all[..1]), "invalid type: map, expected i64");
}

#[test]
fn fields_of_the_system() {
    let fields = session_attribute_system_fields("group");
    assert_eq!(fields.len(), 19);
    for f in &fields {
        assert_eq!(f.group_id, "group");
        let sa = SAField::from_property_field(f).unwrap();
        assert!(!sa.attrs.enabled, "{}", f.name);
        assert!(!sa.attrs.display_name.is_empty(), "{}", f.name);
        assert!(!sa.attrs.platforms.unwrap().is_empty(), "{}", f.name);
        assert!(sa.attrs.ttl_seconds > 0);
    }
    let by_name = |name: &str| fields.iter().find(|f| f.name == name).unwrap();
    let vpn = by_name("vpn_active");
    assert_eq!(vpn.type_, PROPERTY_FIELD_TYPE_SELECT);
    assert!(is_valid_session_attribute_value(vpn, &text("true")));
    assert!(!is_valid_session_attribute_value(vpn, &text("maybe")));
    assert!(!is_valid_session_attribute_value(vpn, &Value::Bool(true)));
    let ssid = by_name("ssid");
    assert_eq!(ssid.type_, PROPERTY_FIELD_TYPE_TEXT);
    assert!(is_valid_session_attribute_value(ssid, &text("anything")));
    assert!(!is_valid_session_attribute_value(ssid, &Value::Int(1)));
}

#[test]
fn values_of_unknown_types_are_refused() {
    let f = PropertyField {
        type_: "date".into(),
        ..Default::default()
    };
    assert!(!is_valid_session_attribute_value(&f, &text("x")));
    let no_options = PropertyField {
        type_: PROPERTY_FIELD_TYPE_SELECT.into(),
        ..Default::default()
    };
    assert!(!is_valid_session_attribute_value(&no_options, &text("x")));
}
