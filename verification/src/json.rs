//! JSON objects as the record format sees them: a list of named members,
//! each null, an unsigned integer or a string.
//!
//! Reading and writing JSON text is the work of `serde_json`. This module
//! names what it reads and writes, so that the rest of the crate can be
//! exact about the members and leave the text to it.

use crate::text::same_text;
use vstd::prelude::*;

verus! {

/// A value that a record holds in a member.
#[derive(Debug, PartialEq, Eq)]
pub enum JsonValue {
    Null,
    /// An integer from 0 to `u64::MAX`.
    Unsigned(u64),
    Text(String),
}

/// Mathematical value of a [`JsonValue`].
pub enum JsonValueView {
    Null,
    Unsigned(u64),
    Text(Seq<char>),
}

impl View for JsonValue {
    type V = JsonValueView;

    open spec fn view(&self) -> JsonValueView {
        match *self {
            JsonValue::Null => JsonValueView::Null,
            JsonValue::Unsigned(number) => JsonValueView::Unsigned(number),
            JsonValue::Text(text) => JsonValueView::Text(text@),
        }
    }
}

/// One member of an object to write.
#[derive(Debug, PartialEq, Eq)]
pub struct JsonMember {
    pub name: String,
    pub value: JsonValue,
}

/// Mathematical value of a [`JsonMember`].
pub struct JsonMemberView {
    pub name: Seq<char>,
    pub value: JsonValueView,
}

impl View for JsonMember {
    type V = JsonMemberView;

    open spec fn view(&self) -> JsonMemberView {
        JsonMemberView { name: self.name@, value: self.value@ }
    }
}

/// One member of an object that was read. Its value is `None` where it is
/// one that no record holds: a boolean, a negative or fractional number, an
/// array or an object.
#[derive(Debug, PartialEq, Eq)]
pub struct JsonField {
    pub name: String,
    pub value: Option<JsonValue>,
}

/// Mathematical value of a [`JsonField`].
pub struct JsonFieldView {
    pub name: Seq<char>,
    pub value: Option<JsonValueView>,
}

impl View for JsonField {
    type V = JsonFieldView;

    open spec fn view(&self) -> JsonFieldView {
        JsonFieldView {
            name: self.name@,
            value: match self.value {
                Some(value) => Some(value@),
                None => None,
            },
        }
    }
}

/// The members of an object to write, each by its mathematical value.
pub open spec fn members_view(members: Seq<JsonMember>) -> Seq<JsonMemberView> {
    members.map_values(|member: JsonMember| member@)
}

/// The members of an object that was read, each by its mathematical value.
pub open spec fn fields_view(fields: Seq<JsonField>) -> Seq<JsonFieldView> {
    fields.map_values(|field: JsonField| field@)
}

/// The members of an object as a reader finds them where it finds the
/// object unchanged.
pub open spec fn as_read(members: Seq<JsonMemberView>) -> Seq<JsonFieldView> {
    members.map_values(
        |member: JsonMemberView| JsonFieldView { name: member.name, value: Some(member.value) },
    )
}

/// The value of the first member called `name`, if there is one.
pub open spec fn field_named(
    fields: Seq<JsonFieldView>,
    name: Seq<char>,
) -> Option<Option<JsonValueView>>
    decreases fields.len(),
{
    if fields.len() == 0 {
        None
    } else if fields[0].name == name {
        Some(fields[0].value)
    } else {
        field_named(fields.drop_first(), name)
    }
}

/// Where `name` first occurs at index `i`, the member called `name` is the
/// one at `i`.
pub proof fn lemma_field_named_at(fields: Seq<JsonFieldView>, name: Seq<char>, i: int)
    requires
        0 <= i < fields.len(),
        fields[i].name == name,
        forall|j: int| 0 <= j < i ==> (#[trigger] fields[j]).name != name,
    ensures
        field_named(fields, name) == Some(fields[i].value),
    decreases i,
{
    if i > 0 {
        let rest = fields.drop_first();
        assert forall|j: int| 0 <= j < i - 1 implies (#[trigger] rest[j]).name != name by {
            assert(rest[j] == fields[j + 1]);
        }
        lemma_field_named_at(rest, name, i - 1);
    }
}

/// No two members share a name.
pub open spec fn distinct_names(members: Seq<JsonMemberView>) -> bool {
    forall|i: int, j: int|
        0 <= i < j < members.len() ==> (#[trigger] members[i]).name != (#[trigger] members[j]).name
}

/// The text that `serde_json::to_vec` writes for the object with these
/// members, in this order; `None` where it reports an error.
pub uninterp spec fn json_text(members: Seq<JsonMemberView>) -> Option<Seq<u8>>;

/// The members of the object that `serde_json::from_slice` reads from a
/// text, in the order in which the parsed object hands them out; `None`
/// where it reports an error, as it does of a text that is not one JSON
/// object.
pub uninterp spec fn json_object(text: Seq<u8>) -> Option<Seq<JsonFieldView>>;

/// `serde_json::Error`, handed on as it comes and read only through
/// [`error_text`].
#[verifier::external_type_specification]
#[verifier::external_body]
pub struct ExJsonError(serde_json::Error);

/// Writes an object as JSON text with `serde_json::to_vec`, after building
/// the `serde_json::Map` that has these members in this order. No two
/// members may share a name: a map would keep one of them. The result is
/// named, not described: [`json_text`] of the members.
#[verifier::external_body]
pub(crate) fn write_object(members: &Vec<JsonMember>) -> (text: Result<Vec<u8>, serde_json::Error>)
    requires
        distinct_names(members_view(members@)),
    ensures
        match text {
            Ok(bytes) => json_text(members_view(members@)) == Some(bytes@),
            Err(_) => json_text(members_view(members@)) is None,
        },
{
    let object: serde_json::Map<String, serde_json::Value> = members.iter().map(
        |member| (member.name.clone(), match &member.value {
            JsonValue::Null => serde_json::Value::Null,
            JsonValue::Unsigned(number) => serde_json::Value::from(*number),
            JsonValue::Text(text) => serde_json::Value::from(text.as_str()),
        }),
    ).collect();
    serde_json::to_vec(&object)
}

/// Reads one JSON object from a text with `serde_json::from_slice`, and
/// hands out its members in the order of the parsed `serde_json::Map`. A
/// number is `Unsigned` where `Number::as_u64` gives it. The result is
/// named, not described: [`json_object`] of the text.
#[verifier::external_body]
pub(crate) fn read_object(text: &[u8]) -> (object: Result<Vec<JsonField>, serde_json::Error>)
    ensures
        match object {
            Ok(fields) => json_object(text@) == Some(fields_view(fields@)),
            Err(_) => json_object(text@) is None,
        },
{
    let object: serde_json::Map<String, serde_json::Value> = serde_json::from_slice(text)?;
    Ok(object.into_iter().map(|(name, value)| JsonField { name, value: match value {
        serde_json::Value::Null => Some(JsonValue::Null),
        serde_json::Value::String(text) => Some(JsonValue::Text(text)),
        serde_json::Value::Number(number) => number.as_u64().map(JsonValue::Unsigned),
        serde_json::Value::Bool(_) => None,
        serde_json::Value::Array(_) => None,
        serde_json::Value::Object(_) => None,
    } }).collect())
}

/// What `serde_json` says of an error, by its `Display`.
#[verifier::external_body]
pub(crate) fn error_text(error: &serde_json::Error) -> (text: String) {
    error.to_string()
}

/// Finds the value of the first member called `name`.
pub fn find_field<'a>(
    fields: &'a Vec<JsonField>,
    name: &str,
) -> (value: Option<&'a Option<JsonValue>>)
    ensures
        match field_named(fields_view(fields@), name@) {
            Some(expected) => value matches Some(found) && expected == match *found {
                Some(held) => Some(held@),
                None => None,
            },
            None => value is None,
        },
{
    let ghost all = fields_view(fields@);
    let mut i: usize = 0;
    assert(all.skip(0) == all);
    while i < fields.len()
        invariant
            i <= fields.len(),
            all == fields_view(fields@),
            field_named(all, name@) == field_named(all.skip(i as int), name@),
        decreases fields.len() - i,
    {
        if same_text(fields[i].name.as_str(), name) {
            assert(all.skip(i as int)[0] == fields[i as int]@);
            return Some(&fields[i].value);
        }
        proof {
            assert(all.skip(i as int)[0] == fields[i as int]@);
            assert(all.skip(i as int).drop_first() == all.skip(i + 1));
        }
        i += 1;
    }
    None
}

} // verus!
