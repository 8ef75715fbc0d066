//! Output-contract schemas as JSON values, and the transform that lets one closed scalar
//! member select its containing object's shape.
use vstd::prelude::*;

use crate::ids::contains_text;
use crate::ids::same_text;
use crate::text::texts;
use crate::text::decimal;
use crate::text::decimal_text;

verus! {

/// A JSON value as the output contract's schemas hold it. A number keeps its JSON text;
/// an object keeps its members in key order, each key once.
#[derive(Debug, PartialEq, Eq)]
pub enum JsonValue {
    /// `null`.
    Null,
    /// `true` or `false`.
    Bool(bool),
    /// A number, as its JSON text.
    Number(String),
    /// A string.
    String(String),
    /// An array.
    Array(Vec<JsonValue>),
    /// An object's members in key order.
    Object(Vec<(String, JsonValue)>),
}

/// A JSON value as mathematics sees it.
pub enum JsonView {
    /// `null`.
    Null,
    /// `true` or `false`.
    Bool(bool),
    /// A number, as its JSON text.
    Number(Seq<char>),
    /// A string.
    Text(Seq<char>),
    /// An array.
    Array(Seq<JsonView>),
    /// An object's members in key order.
    Object(Seq<(Seq<char>, JsonView)>),
}

/// What a JSON value holds.
pub open spec fn json_view(value: JsonValue) -> JsonView
    decreases value,
{
    match value {
        JsonValue::Null => JsonView::Null,
        JsonValue::Bool(flag) => JsonView::Bool(flag),
        JsonValue::Number(text) => JsonView::Number(text@),
        JsonValue::String(text) => JsonView::Text(text@),
        JsonValue::Array(items) => JsonView::Array(json_views(items@)),
        JsonValue::Object(members) => JsonView::Object(member_views(members@)),
    }
}

/// What each value of a list holds.
pub open spec fn json_views(items: Seq<JsonValue>) -> Seq<JsonView>
    decreases items,
{
    if items.len() == 0 {
        Seq::empty()
    } else {
        json_views(items.drop_last()).push(json_view(items.last()))
    }
}

/// What each member of an object holds.
pub open spec fn member_views(members: Seq<(String, JsonValue)>) -> Seq<(Seq<char>, JsonView)>
    decreases members,
{
    if members.len() == 0 {
        Seq::empty()
    } else {
        member_views(members.drop_last()).push((members.last().0@, json_view(members.last().1)))
    }
}

impl View for JsonValue {
    type V = JsonView;

    open spec fn view(&self) -> JsonView {
        json_view(*self)
    }
}

/// The value of an object's first member with this key.
pub open spec fn member(members: Seq<(Seq<char>, JsonView)>, key: Seq<char>) -> Option<JsonView>
    decreases members.len(),
{
    if members.len() == 0 {
        None
    } else if members[0].0 == key {
        Some(members[0].1)
    } else {
        member(members.drop_first(), key)
    }
}

/// The member of a value with this key: none unless the value is an object.
pub open spec fn get(value: JsonView, key: Seq<char>) -> Option<JsonView> {
    match value {
        JsonView::Object(members) => member(members, key),
        _ => None,
    }
}

/// Copy a JSON value.
pub fn copy_json(value: &JsonValue) -> (copy: JsonValue)
    ensures
        copy@ == value@,
    decreases value,
{
    match value {
        JsonValue::Null => JsonValue::Null,
        JsonValue::Bool(flag) => JsonValue::Bool(*flag),
        JsonValue::Number(text) => JsonValue::Number(text.clone()),
        JsonValue::String(text) => JsonValue::String(text.clone()),
        JsonValue::Array(items) => {
            let mut copied: Vec<JsonValue> = Vec::new();
            let mut index: usize = 0;
            while index < items.len()
                invariant
                    index <= items@.len(),
                    json_views(copied@) == json_views(items@.take(index as int)),
                    *value == JsonValue::Array(*items),
                decreases items@.len() - index,
            {
                proof {
                    assert(decreases_to!(*value => value->Array_0));
                    assert(decreases_to!(*items => items[index as int]));
                }
                let item = copy_json(&items[index]);
                let ghost before = copied@;
                copied.push(item);
                proof {
                    assert(copied@.drop_last() =~= before);
                    assert(items@.take(index + 1).drop_last() =~= items@.take(index as int));
                }
                index += 1;
            }
            assert(items@.take(items@.len() as int) =~= items@);
            JsonValue::Array(copied)
        },
        JsonValue::Object(members) => {
            let mut copied: Vec<(String, JsonValue)> = Vec::new();
            let mut index: usize = 0;
            while index < members.len()
                invariant
                    index <= members@.len(),
                    member_views(copied@) == member_views(members@.take(index as int)),
                    *value == JsonValue::Object(*members),
                decreases members@.len() - index,
            {
                proof {
                    assert(decreases_to!(*value => value->Object_0));
                    assert(decreases_to!(*members => members[index as int]));
                    assert(decreases_to!(members[index as int] => members[index as int].1));
                }
                let value_copy = copy_json(&members[index].1);
                let ghost before = copied@;
                copied.push((members[index].0.clone(), value_copy));
                proof {
                    assert(copied@.drop_last() =~= before);
                    assert(members@.take(index + 1).drop_last() =~= members@.take(index as int));
                }
                index += 1;
            }
            assert(members@.take(members@.len() as int) =~= members@);
            JsonValue::Object(copied)
        },
    }
}

/// Each member view is the member's key with its value's view.
pub proof fn member_views_index(members: Seq<(String, JsonValue)>)
    ensures
        member_views(members).len() == members.len(),
        forall|position: int|
            0 <= position < members.len() ==> #[trigger] member_views(members)[position] == (
                members[position].0@,
                members[position].1@,
            ),
    decreases members.len(),
{
    if members.len() > 0 {
        member_views_index(members.drop_last());
    }
}

/// Each value view is the view of the value at that position.
pub proof fn json_views_index(items: Seq<JsonValue>)
    ensures
        json_views(items).len() == items.len(),
        forall|position: int| 0 <= position < items.len() ==> #[trigger] json_views(items)[position] == items[position]@,
    decreases items.len(),
{
    if items.len() > 0 {
        json_views_index(items.drop_last());
    }
}

/// Whether a text is exactly this literal.
fn text_is(text: &String, literal: &str) -> (same: bool)
    ensures
        same == (text@ == literal@),
{
    same_text(text, &literal.to_owned())
}

/// The member of an object with this key.
pub fn member_of<'json>(members: &'json Vec<(String, JsonValue)>, key: &str) -> (found: Option<&'json JsonValue>)
    ensures
        match found {
            Some(value) => member(member_views(members@), key@) == Some(value@),
            None => member(member_views(members@), key@) is None,
        },
{
    let mut index: usize = 0;
    proof {
        member_views_index(members@);
    }
    assert(member_views(members@).skip(0) =~= member_views(members@));
    while index < members.len()
        invariant
            index <= members@.len(),
            member(member_views(members@), key@) == member(member_views(members@).skip(index as int), key@),
            member_views(members@).len() == members@.len(),
            forall|position: int| 0 <= position < members@.len() ==> #[trigger] member_views(members@)[position] == (members@[position].0@, members@[position].1@),
        decreases members@.len() - index,
    {
        assert(member_views(members@).skip(index as int)[0] == member_views(members@)[index as int]);
        if text_is(&members[index].0, key) {
            return Some(&members[index].1);
        }
        assert(member_views(members@).skip(index as int).drop_first() =~= member_views(members@).skip(index + 1));
        index += 1;
    }
    None
}

/// The member of a value with this key: none unless the value is an object.
pub fn get_member<'json>(value: &'json JsonValue, key: &str) -> (found: Option<&'json JsonValue>)
    ensures
        match found {
            Some(found) => get(value@, key@) == Some(found@),
            None => get(value@, key@) is None,
        },
{
    match value {
        JsonValue::Object(members) => member_of(members, key),
        _ => None,
    }
}

/// The schema extension that records a failed closed-value selector transform.
pub const CLOSED_VALUE_SELECTOR_TRANSFORM_FAILURE_KEY: &'static str =
    "x-cargo-berth-closed-value-selector-transform-failure";

/// The first recorded selector-transform failure a schema holds, searching depth first: an
/// object's own failure member before its members' values, each in order.
pub open spec fn transform_failure(value: JsonView) -> Option<JsonView>
    decreases value,
{
    match value {
        JsonView::Array(items) => first_failure(items),
        JsonView::Object(members) => match member(members, CLOSED_VALUE_SELECTOR_TRANSFORM_FAILURE_KEY@) {
            Some(failure) => Some(failure),
            None => first_member_failure(members),
        },
        _ => None,
    }
}

/// The first recorded failure among a list of values.
pub open spec fn first_failure(items: Seq<JsonView>) -> Option<JsonView>
    decreases items,
{
    if items.len() == 0 {
        None
    } else {
        match transform_failure(items[0]) {
            Some(failure) => Some(failure),
            None => first_failure(items.drop_first()),
        }
    }
}

/// The first recorded failure among an object's member values.
pub open spec fn first_member_failure(members: Seq<(Seq<char>, JsonView)>) -> Option<JsonView>
    decreases members,
{
    if members.len() == 0 {
        None
    } else {
        match transform_failure(members[0].1) {
            Some(failure) => Some(failure),
            None => first_member_failure(members.drop_first()),
        }
    }
}

/// The first recorded selector-transform failure a schema holds, if any.
pub fn closed_value_selector_transform_status(schema: &JsonValue) -> (status: Option<&JsonValue>)
    ensures
        match status {
            Some(failure) => transform_failure(schema@) == Some(failure@),
            None => transform_failure(schema@) is None,
        },
    decreases schema,
{
    match schema {
        JsonValue::Array(items) => nested_transform_status(items),
        JsonValue::Object(members) => match member_of(members, CLOSED_VALUE_SELECTOR_TRANSFORM_FAILURE_KEY) {
            Some(failure) => Some(failure),
            None => nested_member_transform_status(members),
        },
        _ => None,
    }
}

/// The first recorded failure among a list of values.
pub fn nested_transform_status(items: &Vec<JsonValue>) -> (status: Option<&JsonValue>)
    ensures
        match status {
            Some(failure) => first_failure(json_views(items@)) == Some(failure@),
            None => first_failure(json_views(items@)) is None,
        },
    decreases items,
{
    let ghost views = json_views(items@);
    proof {
        json_views_index(items@);
    }
    let mut index: usize = 0;
    assert(views.skip(0) =~= views);
    while index < items.len()
        invariant
            index <= items@.len(),
            views == json_views(items@),
            views.len() == items@.len(),
            forall|position: int| 0 <= position < items@.len() ==> #[trigger] views[position] == items@[position]@,
            first_failure(views) == first_failure(views.skip(index as int)),
        decreases items@.len() - index,
    {
        proof {
            assert(decreases_to!(*items => items[index as int]));
        }
        assert(views.skip(index as int)[0] == views[index as int]);
        match closed_value_selector_transform_status(&items[index]) {
            Some(failure) => {
                return Some(failure);
            },
            None => {},
        }
        assert(views.skip(index as int).drop_first() =~= views.skip(index + 1));
        index += 1;
    }
    None
}

/// The first recorded failure among an object's member values.
pub fn nested_member_transform_status(members: &Vec<(String, JsonValue)>) -> (status: Option<&JsonValue>)
    ensures
        match status {
            Some(failure) => first_member_failure(member_views(members@)) == Some(failure@),
            None => first_member_failure(member_views(members@)) is None,
        },
    decreases members,
{
    let ghost views = member_views(members@);
    proof {
        member_views_index(members@);
    }
    let mut index: usize = 0;
    assert(views.skip(0) =~= views);
    while index < members.len()
        invariant
            index <= members@.len(),
            views == member_views(members@),
            views.len() == members@.len(),
            forall|position: int|
                0 <= position < members@.len() ==> #[trigger] views[position] == (
                    members@[position].0@,
                    members@[position].1@,
                ),
            first_member_failure(views) == first_member_failure(views.skip(index as int)),
        decreases members@.len() - index,
    {
        proof {
            assert(decreases_to!(*members => members[index as int]));
            assert(decreases_to!(members[index as int] => members[index as int].1));
        }
        assert(views.skip(index as int)[0] == views[index as int]);
        match closed_value_selector_transform_status(&members[index].1) {
            Some(failure) => {
                return Some(failure);
            },
            None => {},
        }
        assert(views.skip(index as int).drop_first() =~= views.skip(index + 1));
        index += 1;
    }
    None
}

/// Refuse a schema that records a failed selector transform, handing back the first failure
/// it records.
pub fn assert_closed_value_selector_transforms_completed(schema: &JsonValue) -> (checked: Result<(), JsonValue>)
    ensures
        match checked {
            Ok(()) => transform_failure(schema@) is None,
            Err(failure) => transform_failure(schema@) == Some(failure@),
        },
{
    match closed_value_selector_transform_status(schema) {
        None => Ok(()),
        Some(failure) => Err(copy_json(failure)),
    }
}

/// Why a closed-value selector transform refused a schema, as mathematics sees it.
pub enum SelectorTransformFailure {
    /// The schema is not an object.
    ObjectSchemaUnavailable,
    /// The schema's type is not `object`.
    ObjectTypeRequired,
    /// The schema declares no property object.
    ObjectPropertiesUnavailable,
    /// The schema declares no required-property list.
    RequiredPropertiesUnavailable,
    /// Other than exactly one property has a closed set of values.
    PropertyCardinality { actual: nat },
    /// The selector property is not required.
    SelectorNotRequired { member: Seq<char> },
    /// The selector property names no value.
    NoKnownValues { member: Seq<char> },
    /// The selector property names a value that is not a string.
    NonStringValue { member: Seq<char> },
    /// The selector property names a value twice.
    DuplicateKnownValue { member: Seq<char>, value: Seq<char> },
}

/// Why a closed-value selector transform refused a schema.
#[derive(Debug, PartialEq, Eq)]
pub enum ClosedValueSelectorTransformFailure {
    /// The schema is not an object.
    ObjectSchemaUnavailable,
    /// The schema's type is not `object`.
    ObjectTypeRequired,
    /// The schema declares no property object.
    ObjectPropertiesUnavailable,
    /// The schema declares no required-property list.
    RequiredPropertiesUnavailable,
    /// Other than exactly one property has a closed set of values.
    PropertyCardinality { actual: usize },
    /// The selector property is not required.
    SelectorNotRequired { member: String },
    /// The selector property names no value.
    NoKnownValues { member: String },
    /// The selector property names a value that is not a string.
    NonStringValue { member: String },
    /// The selector property names a value twice.
    DuplicateKnownValue { member: String, value: String },
}

impl View for ClosedValueSelectorTransformFailure {
    type V = SelectorTransformFailure;

    open spec fn view(&self) -> SelectorTransformFailure {
        match *self {
            ClosedValueSelectorTransformFailure::ObjectSchemaUnavailable => SelectorTransformFailure::ObjectSchemaUnavailable,
            ClosedValueSelectorTransformFailure::ObjectTypeRequired => SelectorTransformFailure::ObjectTypeRequired,
            ClosedValueSelectorTransformFailure::ObjectPropertiesUnavailable => SelectorTransformFailure::ObjectPropertiesUnavailable,
            ClosedValueSelectorTransformFailure::RequiredPropertiesUnavailable => SelectorTransformFailure::RequiredPropertiesUnavailable,
            ClosedValueSelectorTransformFailure::PropertyCardinality { actual } => SelectorTransformFailure::PropertyCardinality { actual: actual as nat },
            ClosedValueSelectorTransformFailure::SelectorNotRequired { member } => SelectorTransformFailure::SelectorNotRequired { member: member@ },
            ClosedValueSelectorTransformFailure::NoKnownValues { member } => SelectorTransformFailure::NoKnownValues { member: member@ },
            ClosedValueSelectorTransformFailure::NonStringValue { member } => SelectorTransformFailure::NonStringValue { member: member@ },
            ClosedValueSelectorTransformFailure::DuplicateKnownValue { member, value } => SelectorTransformFailure::DuplicateKnownValue {
                member: member@,
                value: value@,
            },
        }
    }
}

/// The stable wire name of a failure.
pub open spec fn failure_kind(failure: SelectorTransformFailure) -> Seq<char> {
    match failure {
        SelectorTransformFailure::ObjectSchemaUnavailable => "object_schema_unavailable"@,
        SelectorTransformFailure::ObjectTypeRequired => "object_type_required"@,
        SelectorTransformFailure::ObjectPropertiesUnavailable => "object_properties_unavailable"@,
        SelectorTransformFailure::RequiredPropertiesUnavailable => "required_properties_unavailable"@,
        SelectorTransformFailure::PropertyCardinality { .. } => "property_cardinality"@,
        SelectorTransformFailure::SelectorNotRequired { .. } => "selector_not_required"@,
        SelectorTransformFailure::NoKnownValues { .. } => "no_known_values"@,
        SelectorTransformFailure::NonStringValue { .. } => "non_string_value"@,
        SelectorTransformFailure::DuplicateKnownValue { .. } => "duplicate_known_value"@,
    }
}

/// The details a failure records, in key order.
pub open spec fn failure_details(failure: SelectorTransformFailure) -> Seq<(Seq<char>, JsonView)> {
    let kind = ("kind"@, JsonView::Text(failure_kind(failure)));
    match failure {
        SelectorTransformFailure::PropertyCardinality { actual } => seq![
            ("actual"@, JsonView::Number(decimal(actual))),
            kind,
        ],
        SelectorTransformFailure::SelectorNotRequired { member } => seq![kind, ("member"@, JsonView::Text(member))],
        SelectorTransformFailure::NoKnownValues { member } => seq![kind, ("member"@, JsonView::Text(member))],
        SelectorTransformFailure::NonStringValue { member } => seq![kind, ("member"@, JsonView::Text(member))],
        SelectorTransformFailure::DuplicateKnownValue { member, value } => seq![
            kind,
            ("member"@, JsonView::Text(member)),
            ("value"@, JsonView::Text(value)),
        ],
        _ => seq![kind],
    }
}

/// The schema that stands for a failed transform: it admits nothing and records the failure.
pub open spec fn failure_schema(failure: SelectorTransformFailure) -> JsonView {
    JsonView::Object(seq![
        ("not"@, JsonView::Object(Seq::empty())),
        (CLOSED_VALUE_SELECTOR_TRANSFORM_FAILURE_KEY@, JsonView::Object(failure_details(failure))),
    ])
}

/// The `const` members of a list of alternatives, when every alternative has one.
pub open spec fn consts_of(alternatives: Seq<JsonView>) -> Option<Seq<JsonView>>
    decreases alternatives.len(),
{
    if alternatives.len() == 0 {
        Some(Seq::empty())
    } else {
        match (consts_of(alternatives.drop_last()), get(alternatives.last(), "const"@)) {
            (Some(earlier), Some(value)) => Some(earlier.push(value)),
            _ => None,
        }
    }
}

/// The closed set of values a property schema admits: its `enum` list, or else the `const`
/// of every `oneOf` alternative; none for an open property.
pub open spec fn selector_values(property_schema: JsonView) -> Option<Seq<JsonView>> {
    match get(property_schema, "enum"@) {
        Some(JsonView::Array(values)) => Some(values),
        _ => match get(property_schema, "oneOf"@) {
            Some(JsonView::Array(alternatives)) => consts_of(alternatives),
            _ => None,
        },
    }
}

/// The properties with a closed set of values, each with its values, in key order.
pub open spec fn closed_selectors(properties: Seq<(Seq<char>, JsonView)>) -> Seq<(Seq<char>, Seq<JsonView>)>
    decreases properties.len(),
{
    if properties.len() == 0 {
        Seq::empty()
    } else {
        let earlier = closed_selectors(properties.drop_last());
        match selector_values(properties.last().1) {
            Some(values) => earlier.push((properties.last().0, values)),
            None => earlier,
        }
    }
}

/// The texts of a list of values, when every value is a string.
pub open spec fn string_values(values: Seq<JsonView>) -> Option<Seq<Seq<char>>>
    decreases values.len(),
{
    if values.len() == 0 {
        Some(Seq::empty())
    } else {
        match (string_values(values.drop_last()), values.last()) {
            (Some(earlier), JsonView::Text(text)) => Some(earlier.push(text)),
            _ => None,
        }
    }
}

/// The first text that repeats an earlier one.
pub open spec fn first_repeat(texts: Seq<Seq<char>>) -> Option<Seq<char>>
    decreases texts.len(),
{
    if texts.len() == 0 {
        None
    } else {
        match first_repeat(texts.drop_last()) {
            Some(repeated) => Some(repeated),
            None => if texts.drop_last().contains(texts.last()) {
                Some(texts.last())
            } else {
                None
            },
        }
    }
}

/// An object's members with the first member of this key given a new value.
pub open spec fn replace_member(members: Seq<(Seq<char>, JsonView)>, key: Seq<char>, value: JsonView) -> Seq<
    (Seq<char>, JsonView),
>
    decreases members.len(),
{
    if members.len() == 0 {
        Seq::empty()
    } else if members[0].0 == key {
        seq![(members[0].0, value)] + members.drop_first()
    } else {
        seq![members[0]] + replace_member(members.drop_first(), key, value)
    }
}

/// The schema of a selector fixed to one string.
pub open spec fn constant_string_schema(value: Seq<char>) -> JsonView {
    JsonView::Object(seq![("const"@, JsonView::Text(value)), ("type"@, JsonView::Text("string"@))])
}

/// One alternative of the transformed schema: the object schema with the selector fixed to
/// one of its values.
pub open spec fn selector_alternative(
    members: Seq<(Seq<char>, JsonView)>,
    properties: Seq<(Seq<char>, JsonView)>,
    selector: Seq<char>,
    value: Seq<char>,
) -> JsonView {
    JsonView::Object(replace_member(
        members,
        "properties"@,
        JsonView::Object(replace_member(properties, selector, constant_string_schema(value))),
    ))
}

/// What the closed-value selector transform makes of a schema: an object schema with exactly
/// one closed, required string selector whose values are distinct becomes one alternative per
/// value; anything else is refused with the first reason that applies.
pub open spec fn selector_transform(schema: JsonView) -> Result<JsonView, SelectorTransformFailure> {
    match schema {
        JsonView::Object(members) => if member(members, "type"@) != Some(JsonView::Text("object"@)) {
            Err(SelectorTransformFailure::ObjectTypeRequired)
        } else {
            match member(members, "properties"@) {
                Some(JsonView::Object(properties)) => match member(members, "required"@) {
                    Some(JsonView::Array(required)) => {
                        let selectors = closed_selectors(properties);
                        if selectors.len() != 1 {
                            Err(SelectorTransformFailure::PropertyCardinality { actual: selectors.len() })
                        } else {
                            let selector = selectors[0].0;
                            let values = selectors[0].1;
                            if !required.contains(JsonView::Text(selector)) {
                                Err(SelectorTransformFailure::SelectorNotRequired { member: selector })
                            } else if values.len() == 0 {
                                Err(SelectorTransformFailure::NoKnownValues { member: selector })
                            } else {
                                match string_values(values) {
                                    None => Err(SelectorTransformFailure::NonStringValue { member: selector }),
                                    Some(texts) => match first_repeat(texts) {
                                        Some(value) => Err(SelectorTransformFailure::DuplicateKnownValue {
                                            member: selector,
                                            value,
                                        }),
                                        None => Ok(JsonView::Object(seq![
                                            (
                                                "oneOf"@,
                                                JsonView::Array(texts.map_values(
                                                    |value: Seq<char>| selector_alternative(members, properties, selector, value),
                                                )),
                                            ),
                                        ])),
                                    },
                                }
                            }
                        }
                    },
                    _ => Err(SelectorTransformFailure::RequiredPropertiesUnavailable),
                },
                _ => Err(SelectorTransformFailure::ObjectPropertiesUnavailable),
            }
        },
        _ => Err(SelectorTransformFailure::ObjectSchemaUnavailable),
    }
}

/// What a schema becomes once one inline closed scalar selects its object's shape: the
/// alternatives, or the schema recording why that was refused.
pub open spec fn selects_object_shape(schema: JsonView) -> JsonView {
    match selector_transform(schema) {
        Ok(transformed) => transformed,
        Err(failure) => failure_schema(failure),
    }
}

impl ClosedValueSelectorTransformFailure {
    /// The stable wire name of this failure.
    pub fn kind(&self) -> (kind: &'static str)
        ensures
            kind@ == failure_kind(self@),
    {
        match self {
            ClosedValueSelectorTransformFailure::ObjectSchemaUnavailable => "object_schema_unavailable",
            ClosedValueSelectorTransformFailure::ObjectTypeRequired => "object_type_required",
            ClosedValueSelectorTransformFailure::ObjectPropertiesUnavailable => "object_properties_unavailable",
            ClosedValueSelectorTransformFailure::RequiredPropertiesUnavailable => "required_properties_unavailable",
            ClosedValueSelectorTransformFailure::PropertyCardinality { .. } => "property_cardinality",
            ClosedValueSelectorTransformFailure::SelectorNotRequired { .. } => "selector_not_required",
            ClosedValueSelectorTransformFailure::NoKnownValues { .. } => "no_known_values",
            ClosedValueSelectorTransformFailure::NonStringValue { .. } => "non_string_value",
            ClosedValueSelectorTransformFailure::DuplicateKnownValue { .. } => "duplicate_known_value",
        }
    }

    /// The schema that stands for this failure: it admits nothing and records the failure.
    pub fn into_schema(self) -> (schema: JsonValue)
        ensures
            schema@ == failure_schema(self@),
    {
        let ghost failure = self@;
        let kind = ("kind".to_owned(), JsonValue::String(self.kind().to_owned()));
        let details: Vec<(String, JsonValue)> = match self {
            ClosedValueSelectorTransformFailure::PropertyCardinality { actual } => {
                vec![("actual".to_owned(), JsonValue::Number(decimal_text(actual as u64))), kind]
            },
            ClosedValueSelectorTransformFailure::SelectorNotRequired { member } => {
                vec![kind, ("member".to_owned(), JsonValue::String(member))]
            },
            ClosedValueSelectorTransformFailure::NoKnownValues { member } => {
                vec![kind, ("member".to_owned(), JsonValue::String(member))]
            },
            ClosedValueSelectorTransformFailure::NonStringValue { member } => {
                vec![kind, ("member".to_owned(), JsonValue::String(member))]
            },
            ClosedValueSelectorTransformFailure::DuplicateKnownValue { member, value } => {
                vec![kind, ("member".to_owned(), JsonValue::String(member)), ("value".to_owned(), JsonValue::String(value))]
            },
            _ => vec![kind],
        };
        proof {
            member_views_index(details@);
            assert(member_views(details@) =~= failure_details(failure));
        }
        let members = vec![
            ("not".to_owned(), JsonValue::Object(Vec::new())),
            (CLOSED_VALUE_SELECTOR_TRANSFORM_FAILURE_KEY.to_owned(), JsonValue::Object(details)),
        ];
        proof {
            member_views_index(members@);
            member_views_index(Seq::<(String, JsonValue)>::empty());
            assert(member_views(members@) =~= seq![
                ("not"@, JsonView::Object(Seq::empty())),
                (CLOSED_VALUE_SELECTOR_TRANSFORM_FAILURE_KEY@, JsonView::Object(failure_details(failure))),
            ]);
        }
        JsonValue::Object(members)
    }
}

/// Copy a list of JSON values.
fn copy_values(values: &Vec<JsonValue>) -> (copy: Vec<JsonValue>)
    ensures
        json_views(copy@) == json_views(values@),
{
    let mut copy: Vec<JsonValue> = Vec::new();
    let mut index: usize = 0;
    while index < values.len()
        invariant
            index <= values@.len(),
            json_views(copy@) == json_views(values@.take(index as int)),
        decreases values@.len() - index,
    {
        let item = copy_json(&values[index]);
        let ghost before = copy@;
        copy.push(item);
        proof {
            assert(copy@.drop_last() =~= before);
            assert(values@.take(index + 1).drop_last() =~= values@.take(index as int));
        }
        index += 1;
    }
    assert(values@.take(values@.len() as int) =~= values@);
    copy
}

/// Once an alternative lacks a `const`, no longer list of alternatives has a `const` for each.
proof fn missing_const_stays_missing(alternatives: Seq<JsonView>, count: int)
    requires
        0 <= count <= alternatives.len(),
        consts_of(alternatives.take(count)) is None,
    ensures
        consts_of(alternatives) is None,
    decreases alternatives.len() - count,
{
    if count < alternatives.len() {
        assert(alternatives.take(count + 1).drop_last() =~= alternatives.take(count));
        missing_const_stays_missing(alternatives, count + 1);
    } else {
        assert(alternatives.take(count) =~= alternatives);
    }
}

/// Whether a property admits a closed set of values, and which.
#[derive(Debug, PartialEq, Eq)]
pub enum PropertySelectorValues {
    /// The property admits values beyond any list.
    Open,
    /// The property admits exactly these values.
    Closed(Vec<JsonValue>),
}

impl PropertySelectorValues {
    /// The closed set of values a property schema admits: its `enum` list, or else the
    /// `const` of every `oneOf` alternative.
    pub fn of(property_schema: &JsonValue) -> (values: Self)
        ensures
            match values {
                PropertySelectorValues::Open => selector_values(property_schema@) is None,
                PropertySelectorValues::Closed(closed) => selector_values(property_schema@) == Some(
                    json_views(closed@),
                ),
            },
    {
        if let Some(JsonValue::Array(values)) = get_member(property_schema, "enum") {
            return PropertySelectorValues::Closed(copy_values(values));
        }
        let alternatives = match get_member(property_schema, "oneOf") {
            Some(JsonValue::Array(alternatives)) => alternatives,
            _ => {
                return PropertySelectorValues::Open;
            },
        };
        let ghost views = json_views(alternatives@);
        proof {
            json_views_index(alternatives@);
            assert(selector_values(property_schema@) == consts_of(views));
            assert(views.take(0) =~= Seq::<JsonView>::empty());
        }
        let mut consts: Vec<JsonValue> = Vec::new();
        let mut index: usize = 0;
        while index < alternatives.len()
            invariant
                index <= alternatives@.len(),
                views == json_views(alternatives@),
                views.len() == alternatives@.len(),
                forall|position: int| 0 <= position < alternatives@.len() ==> #[trigger] views[position] == alternatives@[position]@,
                consts_of(views.take(index as int)) == Some(json_views(consts@)),
                selector_values(property_schema@) == consts_of(views),
            decreases alternatives@.len() - index,
        {
            assert(views.take(index + 1).drop_last() =~= views.take(index as int));
            assert(views.take(index + 1).last() == alternatives@[index as int]@);
            match get_member(&alternatives[index], "const") {
                Some(value) => {
                    let copied = copy_json(value);
                    let ghost before = consts@;
                    consts.push(copied);
                    assert(consts@.drop_last() =~= before);
                },
                None => {
                    proof {
                        missing_const_stays_missing(views, index + 1);
                    }
                    return PropertySelectorValues::Open;
                },
            }
            index += 1;
        }
        assert(views.take(views.len() as int) =~= views);
        PropertySelectorValues::Closed(consts)
    }
}

/// Copy an object's members, giving the first member of this key a copy of a new value.
fn replace_member_value(members: &Vec<(String, JsonValue)>, key: &String, value: &JsonValue) -> (replaced: Vec<
    (String, JsonValue),
>)
    ensures
        member_views(replaced@) == replace_member(member_views(members@), key@, value@),
{
    let ghost views = member_views(members@);
    proof {
        member_views_index(members@);
    }
    let mut replaced: Vec<(String, JsonValue)> = Vec::new();
    let mut done = false;
    let mut index: usize = 0;
    assert(views.skip(0) =~= views);
    while index < members.len()
        invariant
            index <= members@.len(),
            views == member_views(members@),
            views.len() == members@.len(),
            forall|position: int|
                0 <= position < members@.len() ==> #[trigger] views[position] == (
                    members@[position].0@,
                    members@[position].1@,
                ),
            member_views(replaced@) + (if done {
                views.skip(index as int)
            } else {
                replace_member(views.skip(index as int), key@, value@)
            }) == replace_member(views, key@, value@),
        decreases members@.len() - index,
    {
        let ghost rest = views.skip(index as int);
        assert(rest[0] == views[index as int]);
        assert(rest.drop_first() =~= views.skip(index + 1));
        assert(rest =~= seq![rest[0]] + rest.drop_first());
        let ghost before = replaced@;
        if !done && same_text(&members[index].0, key) {
            replaced.push((members[index].0.clone(), copy_json(value)));
            done = true;
        } else {
            let copied = copy_json(&members[index].1);
            replaced.push((members[index].0.clone(), copied));
        }
        proof {
            assert(replaced@.drop_last() =~= before);
            assert(member_views(replaced@) =~= member_views(before).push(member_views(replaced@).last()));
        }
        index += 1;
    }
    proof {
        assert(views.skip(index as int) =~= Seq::<(Seq<char>, JsonView)>::empty());
        assert(replace_member(Seq::<(Seq<char>, JsonView)>::empty(), key@, value@) =~= Seq::<(Seq<char>, JsonView)>::empty());
        assert(member_views(replaced@) + Seq::<(Seq<char>, JsonView)>::empty() =~= member_views(replaced@));
    }
    replaced
}

/// The properties with a closed set of values: how many there are, and the first of them
/// with its values.
fn closed_selector_count(properties: &Vec<(String, JsonValue)>) -> (found: (usize, Option<(usize, Vec<JsonValue>)>))
    ensures
        found.0 == closed_selectors(member_views(properties@)).len(),
        found.0 > 0 ==> (found.1 matches Some((position, values)) && position < properties@.len()
            && closed_selectors(member_views(properties@))[0] == (
            properties@[position as int].0@,
            json_views(values@),
        )),
{
    let ghost views = member_views(properties@);
    proof {
        member_views_index(properties@);
        assert(views.take(0) =~= Seq::<(Seq<char>, JsonView)>::empty());
    }
    let mut count: usize = 0;
    let mut first: Option<(usize, Vec<JsonValue>)> = None;
    let mut index: usize = 0;
    while index < properties.len()
        invariant
            index <= properties@.len(),
            views == member_views(properties@),
            views.len() == properties@.len(),
            forall|position: int|
                0 <= position < properties@.len() ==> #[trigger] views[position] == (
                    properties@[position].0@,
                    properties@[position].1@,
                ),
            count == closed_selectors(views.take(index as int)).len(),
            count <= index,
            count > 0 ==> (first matches Some((position, values)) && position < properties@.len()
                && closed_selectors(views.take(index as int))[0] == (
                properties@[position as int].0@,
                json_views(values@),
            )),
        decreases properties@.len() - index,
    {
        assert(views.take(index + 1).drop_last() =~= views.take(index as int));
        assert(views.take(index + 1).last() == views[index as int]);
        match PropertySelectorValues::of(&properties[index].1) {
            PropertySelectorValues::Open => {},
            PropertySelectorValues::Closed(values) => {
                if count == 0 {
                    first = Some((index, values));
                }
                count += 1;
            },
        }
        index += 1;
    }
    assert(views.take(views.len() as int) =~= views);
    (count, first)
}

/// Whether a required-property list names this member.
fn names_required(required: &Vec<JsonValue>, selector: &String) -> (named: bool)
    ensures
        named == json_views(required@).contains(JsonView::Text(selector@)),
{
    let ghost views = json_views(required@);
    proof {
        json_views_index(required@);
    }
    let mut index: usize = 0;
    while index < required.len()
        invariant
            index <= required@.len(),
            views == json_views(required@),
            views.len() == required@.len(),
            forall|position: int| 0 <= position < required@.len() ==> #[trigger] views[position] == required@[position]@,
            forall|earlier: int| 0 <= earlier < index ==> views[earlier] != JsonView::Text(selector@),
        decreases required@.len() - index,
    {
        if let JsonValue::String(name) = &required[index] {
            if same_text(name, selector) {
                assert(views[index as int] == JsonView::Text(selector@));
                return true;
            }
        }
        index += 1;
    }
    proof {
        if views.contains(JsonView::Text(selector@)) {
            let found = choose|position: int| 0 <= position < views.len() && views[position] == JsonView::Text(selector@);
            assert(views[found] != JsonView::Text(selector@));
        }
    }
    false
}

/// The texts of a list of values, when every value is a string.
fn string_texts(values: &Vec<JsonValue>) -> (found: Option<Vec<String>>)
    ensures
        match found {
            Some(strings) => string_values(json_views(values@)) == Some(texts(strings@)),
            None => string_values(json_views(values@)) is None,
        },
{
    let ghost views = json_views(values@);
    proof {
        json_views_index(values@);
        assert(views.take(0) =~= Seq::<JsonView>::empty());
        assert(texts(Seq::<String>::empty()) =~= Seq::<Seq<char>>::empty());
    }
    let mut strings: Vec<String> = Vec::new();
    let mut index: usize = 0;
    while index < values.len()
        invariant
            index <= values@.len(),
            views == json_views(values@),
            views.len() == values@.len(),
            forall|position: int| 0 <= position < values@.len() ==> #[trigger] views[position] == values@[position]@,
            string_values(views.take(index as int)) == Some(texts(strings@)),
        decreases values@.len() - index,
    {
        assert(views.take(index + 1).drop_last() =~= views.take(index as int));
        assert(views.take(index + 1).last() == views[index as int]);
        match &values[index] {
            JsonValue::String(text) => {
                let ghost before = strings@;
                strings.push(text.clone());
                assert(texts(strings@) =~= texts(before).push(text@));
            },
            _ => {
                proof {
                    missing_string_stays_missing(views, index + 1);
                }
                return None;
            },
        }
        index += 1;
    }
    assert(views.take(views.len() as int) =~= views);
    Some(strings)
}

/// Once a value is not a string, no longer list is all strings.
proof fn missing_string_stays_missing(values: Seq<JsonView>, count: int)
    requires
        0 <= count <= values.len(),
        string_values(values.take(count)) is None,
    ensures
        string_values(values) is None,
    decreases values.len() - count,
{
    if count < values.len() {
        assert(values.take(count + 1).drop_last() =~= values.take(count));
        missing_string_stays_missing(values, count + 1);
    } else {
        assert(values.take(count) =~= values);
    }
}

/// Once a prefix repeats a text, the whole list reports that first repeat.
proof fn first_repeat_is_kept(texts: Seq<Seq<char>>, count: int)
    requires
        0 <= count <= texts.len(),
        first_repeat(texts.take(count)) is Some,
    ensures
        first_repeat(texts) == first_repeat(texts.take(count)),
    decreases texts.len() - count,
{
    if count < texts.len() {
        assert(texts.take(count + 1).drop_last() =~= texts.take(count));
        first_repeat_is_kept(texts, count + 1);
    } else {
        assert(texts.take(count) =~= texts);
    }
}

/// The first text that repeats an earlier one.
fn first_repeated(strings: &Vec<String>) -> (repeated: Option<String>)
    ensures
        match repeated {
            Some(value) => first_repeat(texts(strings@)) == Some(value@),
            None => first_repeat(texts(strings@)) is None,
        },
{
    let ghost all = texts(strings@);
    let mut seen: Vec<String> = Vec::new();
    let mut index: usize = 0;
    assert(all.take(0) =~= Seq::<Seq<char>>::empty());
    while index < strings.len()
        invariant
            index <= strings@.len(),
            all == texts(strings@),
            all.len() == strings@.len(),
            seen.deep_view() == all.take(index as int),
            first_repeat(all.take(index as int)) is None,
        decreases strings@.len() - index,
    {
        assert(all.take(index + 1).drop_last() =~= all.take(index as int));
        assert(all.take(index + 1).last() == strings@[index as int]@);
        if contains_text(&seen, &strings[index]) {
            proof {
                first_repeat_is_kept(all, index + 1);
            }
            return Some(strings[index].clone());
        }
        let ghost before = seen.deep_view();
        seen.push(strings[index].clone());
        assert(seen.deep_view() =~= before.push(strings@[index as int]@));
        index += 1;
    }
    assert(all.take(all.len() as int) =~= all);
    None
}

/// The schema of a selector fixed to one string.
fn constant_string(value: &String) -> (schema: JsonValue)
    ensures
        schema@ == constant_string_schema(value@),
{
    let members = vec![
        ("const".to_owned(), JsonValue::String(value.clone())),
        ("type".to_owned(), JsonValue::String("string".to_owned())),
    ];
    proof {
        member_views_index(members@);
        assert(member_views(members@) =~= seq![("const"@, JsonView::Text(value@)), ("type"@, JsonView::Text("string"@))]);
    }
    JsonValue::Object(members)
}

/// Express that one inline closed scalar selects its containing object's schema: one
/// alternative per value of the object's only closed, required string selector, with the
/// selector fixed to that value; or why the schema cannot be transformed.
pub fn closed_value_selector_object_schema(schema: &JsonValue) -> (transformed: Result<JsonValue, ClosedValueSelectorTransformFailure>)
    ensures
        match transformed {
            Ok(alternatives) => selector_transform(schema@) == Ok::<JsonView, SelectorTransformFailure>(alternatives@),
            Err(failure) => selector_transform(schema@) == Err::<JsonView, SelectorTransformFailure>(failure@),
        },
{
    let members = match schema {
        JsonValue::Object(members) => members,
        _ => {
            return Err(ClosedValueSelectorTransformFailure::ObjectSchemaUnavailable);
        },
    };
    let typed = match member_of(members, "type") {
        Some(JsonValue::String(schema_type)) => text_is(schema_type, "object"),
        _ => false,
    };
    if !typed {
        return Err(ClosedValueSelectorTransformFailure::ObjectTypeRequired);
    }
    let properties = match member_of(members, "properties") {
        Some(JsonValue::Object(properties)) => properties,
        _ => {
            return Err(ClosedValueSelectorTransformFailure::ObjectPropertiesUnavailable);
        },
    };
    let required = match member_of(members, "required") {
        Some(JsonValue::Array(required)) => required,
        _ => {
            return Err(ClosedValueSelectorTransformFailure::RequiredPropertiesUnavailable);
        },
    };
    let (count, first) = closed_selector_count(properties);
    if count != 1 {
        return Err(ClosedValueSelectorTransformFailure::PropertyCardinality { actual: count });
    }
    let (position, known_values) = match first {
        Some(found) => found,
        None => {
            return Err(ClosedValueSelectorTransformFailure::PropertyCardinality { actual: count });
        },
    };
    let selector = &properties[position].0;
    if !names_required(required, selector) {
        return Err(ClosedValueSelectorTransformFailure::SelectorNotRequired { member: selector.clone() });
    }
    if known_values.len() == 0 {
        assert(json_views(known_values@) =~= Seq::<JsonView>::empty());
        return Err(ClosedValueSelectorTransformFailure::NoKnownValues { member: selector.clone() });
    }
    proof {
        json_views_index(known_values@);
    }
    let strings = match string_texts(&known_values) {
        Some(strings) => strings,
        None => {
            return Err(ClosedValueSelectorTransformFailure::NonStringValue { member: selector.clone() });
        },
    };
    if let Some(value) = first_repeated(&strings) {
        return Err(ClosedValueSelectorTransformFailure::DuplicateKnownValue { member: selector.clone(), value });
    }
    let ghost member_list = member_views(members@);
    let ghost property_list = member_views(properties@);
    let ghost values = texts(strings@);
    let properties_key = "properties".to_owned();
    let mut alternatives: Vec<JsonValue> = Vec::new();
    let mut index: usize = 0;
    assert(values.take(0).map_values(|value: Seq<char>| selector_alternative(member_list, property_list, selector@, value))
        =~= Seq::<JsonView>::empty());
    while index < strings.len()
        invariant
            index <= strings@.len(),
            values == texts(strings@),
            member_list == member_views(members@),
            property_list == member_views(properties@),
            properties_key@ == "properties"@,
            json_views(alternatives@) == values.take(index as int).map_values(
                |value: Seq<char>| selector_alternative(member_list, property_list, selector@, value),
            ),
        decreases strings@.len() - index,
    {
        let fixed = constant_string(&strings[index]);
        let narrowed = JsonValue::Object(replace_member_value(properties, selector, &fixed));
        let alternative = JsonValue::Object(replace_member_value(members, &properties_key, &narrowed));
        let ghost before = alternatives@;
        let ghost shown = alternative@;
        assert(shown == selector_alternative(member_list, property_list, selector@, strings@[index as int]@));
        alternatives.push(alternative);
        proof {
            assert(alternatives@.drop_last() =~= before);
            assert(json_views(alternatives@) == json_views(before).push(shown));
            assert(values.take(index + 1).map_values(
                |value: Seq<char>| selector_alternative(member_list, property_list, selector@, value),
            ) =~= values.take(index as int).map_values(
                |value: Seq<char>| selector_alternative(member_list, property_list, selector@, value),
            ).push(selector_alternative(member_list, property_list, selector@, strings@[index as int]@)));
        }
        index += 1;
    }
    assert(values.take(values.len() as int) =~= values);
    let result = vec![("oneOf".to_owned(), JsonValue::Array(alternatives))];
    proof {
        member_views_index(result@);
        assert(member_views(result@) =~= seq![
            (
                "oneOf"@,
                JsonView::Array(values.map_values(
                    |value: Seq<char>| selector_alternative(member_list, property_list, selector@, value),
                )),
            ),
        ]);
    }
    Ok(JsonValue::Object(result))
}

/// Let one inline closed scalar select its containing object's schema; a schema that cannot
/// be transformed becomes the schema recording why.
pub fn closed_value_selects_object_shape(schema: &mut JsonValue)
    ensures
        final(schema)@ == selects_object_shape(old(schema)@),
{
    let transformed = match closed_value_selector_object_schema(schema) {
        Ok(transformed) => transformed,
        Err(failure) => failure.into_schema(),
    };
    *schema = transformed;
}

/// A schema whose transform was refused records that refusal, so checking it for completed
/// transforms always stops at a failure.
pub proof fn refused_transforms_stop_contract_generation(schema: JsonView)
    requires
        selector_transform(schema) is Err,
    ensures
        transform_failure(selects_object_shape(schema)) is Some,
{
    reveal_strlit("not");
    reveal_strlit("x-cargo-berth-closed-value-selector-transform-failure");
    let failure = selector_transform(schema)->Err_0;
    let members = seq![
        ("not"@, JsonView::Object(Seq::empty())),
        (CLOSED_VALUE_SELECTOR_TRANSFORM_FAILURE_KEY@, JsonView::Object(failure_details(failure))),
    ];
    assert(CLOSED_VALUE_SELECTOR_TRANSFORM_FAILURE_KEY@ == "x-cargo-berth-closed-value-selector-transform-failure"@);
    assert("not"@[0] != CLOSED_VALUE_SELECTOR_TRANSFORM_FAILURE_KEY@[0]);
    assert(members[0].0 != CLOSED_VALUE_SELECTOR_TRANSFORM_FAILURE_KEY@);
    assert(members.drop_first()[0] == members[1]);
    assert(member(members.drop_first(), CLOSED_VALUE_SELECTOR_TRANSFORM_FAILURE_KEY@) is Some);
    assert(member(members, CLOSED_VALUE_SELECTOR_TRANSFORM_FAILURE_KEY@) is Some);
    assert(selects_object_shape(schema) == failure_schema(failure));
    assert(failure_schema(failure) == JsonView::Object(members));
}

/// Giving a present member a new value makes that value the member's value.
proof fn replaced_member_reads_back(members: Seq<(Seq<char>, JsonView)>, key: Seq<char>, value: JsonView)
    requires
        member(members, key) is Some,
    ensures
        member(replace_member(members, key, value), key) == Some(value),
    decreases members.len(),
{
    if members[0].0 != key {
        replaced_member_reads_back(members.drop_first(), key, value);
        assert((seq![members[0]] + replace_member(members.drop_first(), key, value)).drop_first()
            =~= replace_member(members.drop_first(), key, value));
    }
}

/// Every alternative of a transformed schema fixes the selector to its own value.
pub proof fn each_alternative_fixes_its_selector(schema: JsonView, index: int)
    requires
        selector_transform(schema) is Ok,
    ensures
        ({
            let members = schema->Object_0;
            let properties = member(members, "properties"@)->0->Object_0;
            let selector = closed_selectors(properties)[0].0;
            let values = string_values(closed_selectors(properties)[0].1)->0;
            0 <= index < values.len() ==> get(
                get(selector_transform(schema)->Ok_0->Object_0[0].1->Array_0[index], "properties"@)->0,
                selector,
            ) == Some(constant_string_schema(values[index]))
        }),
{
    let members = schema->Object_0;
    let properties = member(members, "properties"@)->0->Object_0;
    let selectors = closed_selectors(properties);
    let selector = selectors[0].0;
    let values = string_values(selectors[0].1)->0;
    if 0 <= index < values.len() {
        closed_selector_is_a_property(properties, 0);
        replaced_member_reads_back(properties, selector, constant_string_schema(values[index]));
        replaced_member_reads_back(
            members,
            "properties"@,
            JsonView::Object(replace_member(properties, selector, constant_string_schema(values[index]))),
        );
    }
}

/// Each closed selector is one of the properties.
proof fn closed_selector_is_a_property(properties: Seq<(Seq<char>, JsonView)>, index: int)
    requires
        0 <= index < closed_selectors(properties).len(),
    ensures
        member(properties, closed_selectors(properties)[index].0) is Some,
    decreases properties.len(),
{
    let earlier = closed_selectors(properties.drop_last());
    if index < earlier.len() {
        closed_selector_is_a_property(properties.drop_last(), index);
        member_survives_extension(properties.drop_last(), properties.last(), earlier[index].0);
        assert(properties.drop_last().push(properties.last()) =~= properties);
    } else {
        member_of_last(properties);
    }
}

/// A member found before an extension is still found after it.
proof fn member_survives_extension(members: Seq<(Seq<char>, JsonView)>, extra: (Seq<char>, JsonView), key: Seq<char>)
    requires
        member(members, key) is Some,
    ensures
        member(members.push(extra), key) is Some,
    decreases members.len(),
{
    if members[0].0 != key {
        member_survives_extension(members.drop_first(), extra, key);
        assert(members.push(extra).drop_first() =~= members.drop_first().push(extra));
    }
}

/// The last member's key is found.
proof fn member_of_last(members: Seq<(Seq<char>, JsonView)>)
    requires
        members.len() > 0,
    ensures
        member(members, members.last().0) is Some,
    decreases members.len(),
{
    if members[0].0 != members.last().0 {
        member_of_last(members.drop_first());
    }
}

} // verus!
