use cargo_berth::output::schema::assert_closed_value_selector_transforms_completed;
use cargo_berth::output::schema::closed_value_selector_object_schema;
use cargo_berth::output::schema::closed_value_selector_transform_status;
use cargo_berth::output::schema::closed_value_selects_object_shape;
use cargo_berth::output::schema::ClosedValueSelectorTransformFailure;
use cargo_berth::output::schema::JsonValue;
use cargo_berth::output::schema::PropertySelectorValues;
use cargo_berth::output::schema::CLOSED_VALUE_SELECTOR_TRANSFORM_FAILURE_KEY;

fn text(value: &str) -> JsonValue {
    JsonValue::String(value.to_owned())
}

fn object(members: Vec<(&str, JsonValue)>) -> JsonValue {
    JsonValue::Object(members.into_iter().map(|(key, value)| (key.to_owned(), value)).collect())
}

fn texts(values: &[&str]) -> JsonValue {
    JsonValue::Array(values.iter().map(|value| text(value)).collect())
}

/// An object schema whose `kind` property has the given schema.
fn with_kind(kind_schema: JsonValue, required: Option<&[&str]>) -> JsonValue {
    let mut members = vec![("properties", object(vec![("kind", kind_schema), ("path", object(vec![("type", text("string"))]))]))];
    if let Some(required) = required {
        members.push(("required", texts(required)));
    }
    members.push(("type", text("object")));
    object(members)
}

fn enum_schema(values: &[&str]) -> JsonValue {
    object(vec![("enum", texts(values)), ("type", text("string"))])
}

#[test]
fn selector_transform_failures_stop_output_contract_generation() {
    let malformed_schemas = vec![
        with_kind(object(vec![("type", text("string"))]), Some(&["kind"])),
        with_kind(enum_schema(&[]), Some(&["kind"])),
        with_kind(enum_schema(&["file", "file"]), Some(&["kind"])),
        object(vec![
            ("properties", object(vec![("kind", enum_schema(&["file", "tree"]))])),
            ("required", texts(&["kind"])),
            ("type", text("string")),
        ]),
        with_kind(enum_schema(&["file", "tree"]), None),
    ];
    for mut schema in malformed_schemas {
        closed_value_selects_object_shape(&mut schema);
        assert!(assert_closed_value_selector_transforms_completed(&schema).is_err());
    }
}

#[test]
fn each_failure_names_its_reason() {
    let cases = vec![
        (text("object"), ClosedValueSelectorTransformFailure::ObjectSchemaUnavailable),
        (
            with_kind(object(vec![("type", text("string"))]), Some(&["kind"])),
            ClosedValueSelectorTransformFailure::PropertyCardinality { actual: 0 },
        ),
        (
            with_kind(enum_schema(&[]), Some(&["kind"])),
            ClosedValueSelectorTransformFailure::NoKnownValues { member: "kind".to_owned() },
        ),
        (
            with_kind(enum_schema(&["file", "tree", "file"]), Some(&["kind"])),
            ClosedValueSelectorTransformFailure::DuplicateKnownValue {
                member: "kind".to_owned(),
                value: "file".to_owned(),
            },
        ),
        (
            with_kind(object(vec![("enum", JsonValue::Array(vec![JsonValue::Number("1".to_owned())]))]), Some(&["kind"])),
            ClosedValueSelectorTransformFailure::NonStringValue { member: "kind".to_owned() },
        ),
        (
            with_kind(enum_schema(&["file"]), Some(&["path"])),
            ClosedValueSelectorTransformFailure::SelectorNotRequired { member: "kind".to_owned() },
        ),
        (
            object(vec![("type", text("string"))]),
            ClosedValueSelectorTransformFailure::ObjectTypeRequired,
        ),
        (
            object(vec![("type", text("object"))]),
            ClosedValueSelectorTransformFailure::ObjectPropertiesUnavailable,
        ),
        (
            object(vec![("properties", object(Vec::new())), ("type", text("object"))]),
            ClosedValueSelectorTransformFailure::RequiredPropertiesUnavailable,
        ),
    ];
    for (schema, expected) in cases {
        assert_eq!(closed_value_selector_object_schema(&schema), Err(expected));
    }
}

#[test]
fn a_closed_selector_becomes_one_alternative_per_value() {
    let mut schema = with_kind(enum_schema(&["file", "tree"]), Some(&["kind", "path"]));
    closed_value_selects_object_shape(&mut schema);
    let fixed = |value: &str| {
        object(vec![
            (
                "properties",
                object(vec![
                    ("kind", object(vec![("const", text(value)), ("type", text("string"))])),
                    ("path", object(vec![("type", text("string"))])),
                ]),
            ),
            ("required", texts(&["kind", "path"])),
            ("type", text("object")),
        ])
    };
    assert_eq!(schema, object(vec![("oneOf", JsonValue::Array(vec![fixed("file"), fixed("tree")]))]));
    assert_eq!(assert_closed_value_selector_transforms_completed(&schema), Ok(()));
}

#[test]
fn one_of_constants_close_a_property() {
    let closed = object(vec![("oneOf", JsonValue::Array(vec![object(vec![("const", text("a"))]), object(vec![("const", text("b"))])]))]);
    assert_eq!(PropertySelectorValues::of(&closed), PropertySelectorValues::Closed(vec![text("a"), text("b")]));
    let open = object(vec![("oneOf", JsonValue::Array(vec![object(vec![("const", text("a"))]), object(vec![("type", text("string"))])]))]);
    assert_eq!(PropertySelectorValues::of(&open), PropertySelectorValues::Open);
}

#[test]
fn a_failure_schema_records_its_details_and_is_found_anywhere() {
    let failure = ClosedValueSelectorTransformFailure::PropertyCardinality { actual: 2 }.into_schema();
    let details = || object(vec![("actual", JsonValue::Number("2".to_owned())), ("kind", text("property_cardinality"))]);
    assert_eq!(
        failure,
        object(vec![("not", object(Vec::new())), (CLOSED_VALUE_SELECTOR_TRANSFORM_FAILURE_KEY, details())])
    );
    let nested = object(vec![
        ("$defs", object(vec![("A", object(vec![("type", text("string"))])), ("B", failure)])),
        ("items", JsonValue::Array(vec![JsonValue::Null, JsonValue::Bool(true)])),
    ]);
    assert_eq!(closed_value_selector_transform_status(&nested), Some(&details()));
    assert_eq!(assert_closed_value_selector_transforms_completed(&nested), Err(details()));
}
