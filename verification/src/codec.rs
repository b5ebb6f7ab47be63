//! The wire form of a record: one JSON object per notification.
//!
//! A record is written as the object with the members `slot`, `parent`,
//! `status`, `dead_error` and `created_at`, in this order, and read back
//! from any object that holds the required ones.

use crate::json::{
    as_read, distinct_names, error_text, field_named, fields_view, find_field, json_object,
    json_text, lemma_field_named_at, members_view, read_object, write_object, JsonField,
    JsonFieldView, JsonMember, JsonMemberView, JsonValue, JsonValueView,
};
use crate::message::slot_status_as_str::{
    deserialize, lemma_status_name_round_trip, status_named, unknown_variant_text, UnknownVariant,
};
use crate::message::{SlotMessage, SlotMessageView, SlotStatus, SlotStatusView};
use vstd::prelude::*;
use vstd::string::StringExecFns;

verus! {

/// Name of the member that holds the slot.
pub const SLOT: &'static str = "slot";

/// Name of the member that holds the parent slot.
pub const PARENT: &'static str = "parent";

/// Name of the member that holds the status string.
pub const STATUS: &'static str = "status";

/// Name of the member that holds the failure description.
pub const DEAD_ERROR: &'static str = "dead_error";

/// Name of the member that holds the time of construction.
pub const CREATED_AT: &'static str = "created_at";

/// The reason given to a dead slot whose wire form holds none.
pub const DEFAULT_REASON: &'static str = "dead";

/// A record that could not be written.
#[derive(Debug, PartialEq, Eq)]
pub struct EncodingError {
    /// What the JSON writer said.
    pub message: String,
}

/// A text that is not the wire form of a record.
#[derive(Debug, PartialEq, Eq)]
pub enum DecodingError {
    /// The JSON reader refused the text, as it does where the text is not
    /// one JSON object; the string is what the reader said of it.
    Malformed(String),
    /// A required member is absent.
    MissingField(&'static str),
    /// A member holds a value of another type than the record has there.
    InvalidType(&'static str),
    /// The status string is none of the recognised ones.
    UnknownVariant(UnknownVariant),
}

/// Mathematical value of a [`DecodingError`]: its kind, with the member or
/// the string at fault.
pub enum DecodingErrorView {
    Malformed,
    MissingField(Seq<char>),
    InvalidType(Seq<char>),
    UnknownVariant(Seq<char>),
}

impl View for DecodingError {
    type V = DecodingErrorView;

    open spec fn view(&self) -> DecodingErrorView {
        match *self {
            DecodingError::Malformed(_) => DecodingErrorView::Malformed,
            DecodingError::MissingField(name) => DecodingErrorView::MissingField(name@),
            DecodingError::InvalidType(name) => DecodingErrorView::InvalidType(name@),
            DecodingError::UnknownVariant(error) => DecodingErrorView::UnknownVariant(error.found@),
        }
    }
}

impl DecodingErrorView {
    /// The text of the error, but for a malformed text, of which the JSON
    /// reader speaks.
    pub open spec fn text(self) -> Seq<char> {
        match self {
            DecodingErrorView::Malformed => Seq::empty(),
            DecodingErrorView::MissingField(name) => "missing field `"@ + name + "`"@,
            DecodingErrorView::InvalidType(name) => "invalid type of field `"@ + name + "`"@,
            DecodingErrorView::UnknownVariant(found) => unknown_variant_text(found),
        }
    }
}

impl DecodingError {
    /// Describes the error. Of a malformed text it says what the JSON
    /// reader said.
    pub fn message(&self) -> (text: String)
        ensures
            match *self {
                DecodingError::Malformed(said) => text@ == said@,
                _ => text@ == self@.text(),
            },
    {
        match self {
            DecodingError::Malformed(said) => said.clone(),
            DecodingError::MissingField(name) => {
                let mut text = String::from_str("missing field `");
                text.append(name);
                text.append("`");
                text
            },
            DecodingError::InvalidType(name) => {
                let mut text = String::from_str("invalid type of field `");
                text.append(name);
                text.append("`");
                text
            },
            DecodingError::UnknownVariant(error) => error.message(),
        }
    }
}

/// The required unsigned integer called `name`.
pub open spec fn unsigned_member(
    fields: Seq<JsonFieldView>,
    name: Seq<char>,
) -> Result<u64, DecodingErrorView> {
    match field_named(fields, name) {
        Some(Some(JsonValueView::Unsigned(number))) => Ok(number),
        Some(_) => Err(DecodingErrorView::InvalidType(name)),
        None => Err(DecodingErrorView::MissingField(name)),
    }
}

/// The unsigned integer called `name`, which may be absent or null.
pub open spec fn optional_unsigned_member(
    fields: Seq<JsonFieldView>,
    name: Seq<char>,
) -> Result<Option<u64>, DecodingErrorView> {
    match field_named(fields, name) {
        Some(Some(JsonValueView::Unsigned(number))) => Ok(Some(number)),
        Some(Some(JsonValueView::Null)) | None => Ok(None),
        Some(_) => Err(DecodingErrorView::InvalidType(name)),
    }
}

/// The required string called `name`.
pub open spec fn text_member(
    fields: Seq<JsonFieldView>,
    name: Seq<char>,
) -> Result<Seq<char>, DecodingErrorView> {
    match field_named(fields, name) {
        Some(Some(JsonValueView::Text(text))) => Ok(text),
        Some(_) => Err(DecodingErrorView::InvalidType(name)),
        None => Err(DecodingErrorView::MissingField(name)),
    }
}

/// The string called `name`, which may be absent or null.
pub open spec fn optional_text_member(
    fields: Seq<JsonFieldView>,
    name: Seq<char>,
) -> Result<Option<Seq<char>>, DecodingErrorView> {
    match field_named(fields, name) {
        Some(Some(JsonValueView::Text(text))) => Ok(Some(text)),
        Some(Some(JsonValueView::Null)) | None => Ok(None),
        Some(_) => Err(DecodingErrorView::InvalidType(name)),
    }
}

/// The record that wire values stand for. A dead slot takes the description
/// on the wire as its reason, or `"dead"` where the wire holds none, and
/// carries it; a slot of any other status carries no description, whatever
/// the wire holds. The record is well formed either way.
pub open spec fn record_with(
    slot: u64,
    parent: Option<u64>,
    status: SlotStatusView,
    description: Option<Seq<char>>,
    created_at: u64,
) -> SlotMessageView {
    let status = match status {
        SlotStatusView::Dead(_) => SlotStatusView::Dead(
            match description {
                Some(text) => text,
                None => DEFAULT_REASON@,
            },
        ),
        other => other,
    };
    SlotMessageView::observed(slot, parent, status, created_at)
}

/// The record that an object stands for, or the first thing wrong with it.
/// The status is read first, so that an unrecognised status string is
/// reported whatever else the object holds; then `slot`, `parent`,
/// `dead_error` and `created_at`.
pub open spec fn record_of(fields: Seq<JsonFieldView>) -> Result<SlotMessageView, DecodingErrorView> {
    match text_member(fields, STATUS@) {
        Err(error) => Err(error),
        Ok(name) => match status_named(name) {
            None => Err(DecodingErrorView::UnknownVariant(name)),
            Some(status) => match unsigned_member(fields, SLOT@) {
                Err(error) => Err(error),
                Ok(slot) => match optional_unsigned_member(fields, PARENT@) {
                    Err(error) => Err(error),
                    Ok(parent) => match optional_text_member(fields, DEAD_ERROR@) {
                        Err(error) => Err(error),
                        Ok(description) => match unsigned_member(fields, CREATED_AT@) {
                            Err(error) => Err(error),
                            Ok(created_at) => Ok(
                                record_with(slot, parent, status, description, created_at),
                            ),
                        },
                    },
                },
            },
        },
    }
}

/// An optional unsigned integer as a member value: null where absent.
pub open spec fn unsigned_or_null(number: Option<u64>) -> JsonValueView {
    match number {
        Some(n) => JsonValueView::Unsigned(n),
        None => JsonValueView::Null,
    }
}

/// An optional string as a member value: null where absent.
pub open spec fn text_or_null(text: Option<Seq<char>>) -> JsonValueView {
    match text {
        Some(t) => JsonValueView::Text(t),
        None => JsonValueView::Null,
    }
}

/// The object written for a record.
pub open spec fn document_of(record: SlotMessageView) -> Seq<JsonMemberView> {
    seq![
        JsonMemberView { name: SLOT@, value: JsonValueView::Unsigned(record.slot) },
        JsonMemberView { name: PARENT@, value: unsigned_or_null(record.parent) },
        JsonMemberView { name: STATUS@, value: JsonValueView::Text(record.status.wire_name()) },
        JsonMemberView { name: DEAD_ERROR@, value: text_or_null(record.dead_error) },
        JsonMemberView { name: CREATED_AT@, value: JsonValueView::Unsigned(record.created_at) },
    ]
}

/// The wire form of a record: the JSON text of its object. `None` where the
/// JSON writer reports an error.
pub open spec fn encoded(record: SlotMessageView) -> Option<Seq<u8>> {
    json_text(document_of(record))
}

/// The record that a text stands for, or what is wrong with the text.
pub open spec fn decoded(text: Seq<u8>) -> Result<SlotMessageView, DecodingErrorView> {
    match json_object(text) {
        None => Err(DecodingErrorView::Malformed),
        Some(fields) => record_of(fields),
    }
}

/// The five member names differ from each other.
pub proof fn lemma_member_names_differ()
    ensures
        SLOT@ != PARENT@,
        SLOT@ != STATUS@,
        SLOT@ != DEAD_ERROR@,
        SLOT@ != CREATED_AT@,
        PARENT@ != STATUS@,
        PARENT@ != DEAD_ERROR@,
        PARENT@ != CREATED_AT@,
        STATUS@ != DEAD_ERROR@,
        STATUS@ != CREATED_AT@,
        DEAD_ERROR@ != CREATED_AT@,
{
    reveal_strlit("slot");
    reveal_strlit("parent");
    reveal_strlit("status");
    reveal_strlit("dead_error");
    reveal_strlit("created_at");
    assert(SLOT@.len() == 4);
    assert(PARENT@.len() == 6);
    assert(STATUS@.len() == 6);
    assert(DEAD_ERROR@.len() == 10);
    assert(CREATED_AT@.len() == 10);
    assert(PARENT@[0] == 'p');
    assert(STATUS@[0] == 's');
    assert(DEAD_ERROR@[0] == 'd');
    assert(CREATED_AT@[0] == 'c');
}

/// No two members of the object written for a record share a name.
pub proof fn lemma_document_names_differ(record: SlotMessageView)
    ensures
        distinct_names(document_of(record)),
{
    lemma_member_names_differ();
}

/// Round trip: the object written for a well-formed record, found
/// unchanged by a reader, is read back as that record.
pub proof fn lemma_document_round_trip(record: SlotMessageView)
    requires
        record.well_formed(),
    ensures
        record_of(as_read(document_of(record))) == Ok::<SlotMessageView, DecodingErrorView>(record),
{
    let fields = as_read(document_of(record));
    lemma_member_names_differ();
    lemma_field_named_at(fields, SLOT@, 0);
    lemma_field_named_at(fields, PARENT@, 1);
    lemma_field_named_at(fields, STATUS@, 2);
    lemma_field_named_at(fields, DEAD_ERROR@, 3);
    lemma_field_named_at(fields, CREATED_AT@, 4);
    lemma_status_name_round_trip(record.status);
}

/// Round trip through the text: where the JSON reader finds in the wire
/// form of a well-formed record the object that was written, unchanged,
/// decoding the wire form gives the record back.
pub proof fn lemma_round_trip(record: SlotMessageView, text: Seq<u8>)
    requires
        record.well_formed(),
    ensures
        (encoded(record) == Some(text) && json_object(text) == Some(as_read(document_of(record))))
            ==> decoded(text) == Ok::<SlotMessageView, DecodingErrorView>(record),
{
    lemma_document_round_trip(record);
}

/// Every record read from the wire is well formed. One with the status
/// `dead` carries a failure description: the one on the wire, or `"dead"`
/// where the wire holds none or null.
pub proof fn lemma_read_record_is_well_formed(fields: Seq<JsonFieldView>)
    ensures
        match record_of(fields) {
            Ok(record) => {
                &&& record.well_formed()
                &&& record.status is Dead ==> record.dead_error == Some(
                    match optional_text_member(fields, DEAD_ERROR@) {
                        Ok(Some(text)) => text,
                        _ => DEFAULT_REASON@,
                    },
                )
            },
            Err(_) => true,
        },
{
}

/// An object whose status is a string other than the seven recognised ones
/// is refused as an unknown variant, whatever else it holds.
pub proof fn lemma_unknown_status_refused(fields: Seq<JsonFieldView>, name: Seq<char>)
    requires
        field_named(fields, STATUS@) == Some(Some(JsonValueView::Text(name))),
        status_named(name) is None,
    ensures
        record_of(fields) == Err::<SlotMessageView, DecodingErrorView>(
            DecodingErrorView::UnknownVariant(name),
        ),
{
}

/// An object is read as a record exactly if it holds a recognised status
/// string, unsigned integers as `slot` and `created_at`, nothing but an
/// unsigned integer or null as `parent`, and nothing but a string or null
/// as `dead_error`.
pub proof fn lemma_accepted_objects(fields: Seq<JsonFieldView>)
    ensures
        record_of(fields) is Ok <==> {
            &&& text_member(fields, STATUS@) matches Ok(name)
            &&& status_named(name) is Some
            &&& unsigned_member(fields, SLOT@) is Ok
            &&& unsigned_member(fields, CREATED_AT@) is Ok
            &&& optional_unsigned_member(fields, PARENT@) is Ok
            &&& optional_text_member(fields, DEAD_ERROR@) is Ok
        },
{
}

/// Builds the object written for a record.
pub fn members_of(record: &SlotMessage) -> (members: Vec<JsonMember>)
    ensures
        members_view(members@) == document_of(record@),
{
    let parent = match record.parent {
        Some(slot) => JsonValue::Unsigned(slot),
        None => JsonValue::Null,
    };
    let dead_error = match &record.dead_error {
        Some(reason) => JsonValue::Text(reason.clone()),
        None => JsonValue::Null,
    };
    let status = JsonValue::Text(String::from_str(record.status.as_str()));
    let slot = JsonValue::Unsigned(record.slot);
    let created_at = JsonValue::Unsigned(record.created_at);
    let mut members: Vec<JsonMember> = Vec::new();
    members.push(JsonMember { name: String::from_str(SLOT), value: slot });
    members.push(JsonMember { name: String::from_str(PARENT), value: parent });
    members.push(JsonMember { name: String::from_str(STATUS), value: status });
    members.push(JsonMember { name: String::from_str(DEAD_ERROR), value: dead_error });
    members.push(JsonMember { name: String::from_str(CREATED_AT), value: created_at });
    assert(members_view(members@) =~= document_of(record@));
    members
}

/// Reads the required unsigned integer called `name`.
fn read_unsigned(
    fields: &Vec<JsonField>,
    name: &'static str,
) -> (number: Result<u64, DecodingError>)
    ensures
        match unsigned_member(fields_view(fields@), name@) {
            Ok(expected) => number == Ok::<u64, DecodingError>(expected),
            Err(expected) => number matches Err(error) && error@ == expected,
        },
{
    match find_field(fields, name) {
        Some(Some(JsonValue::Unsigned(number))) => Ok(*number),
        Some(_) => Err(DecodingError::InvalidType(name)),
        None => Err(DecodingError::MissingField(name)),
    }
}

/// Reads the unsigned integer called `name`, which may be absent or null.
fn read_optional_unsigned(
    fields: &Vec<JsonField>,
    name: &'static str,
) -> (number: Result<Option<u64>, DecodingError>)
    ensures
        match optional_unsigned_member(fields_view(fields@), name@) {
            Ok(expected) => number == Ok::<Option<u64>, DecodingError>(expected),
            Err(expected) => number matches Err(error) && error@ == expected,
        },
{
    match find_field(fields, name) {
        Some(Some(JsonValue::Unsigned(number))) => Ok(Some(*number)),
        Some(Some(JsonValue::Null)) => Ok(None),
        None => Ok(None),
        Some(_) => Err(DecodingError::InvalidType(name)),
    }
}

/// Reads the required string called `name`.
fn read_text<'a>(
    fields: &'a Vec<JsonField>,
    name: &'static str,
) -> (text: Result<&'a String, DecodingError>)
    ensures
        match text_member(fields_view(fields@), name@) {
            Ok(expected) => text matches Ok(found) && found@ == expected,
            Err(expected) => text matches Err(error) && error@ == expected,
        },
{
    match find_field(fields, name) {
        Some(Some(JsonValue::Text(text))) => Ok(text),
        Some(_) => Err(DecodingError::InvalidType(name)),
        None => Err(DecodingError::MissingField(name)),
    }
}

/// Reads the string called `name`, which may be absent or null.
fn read_optional_text<'a>(
    fields: &'a Vec<JsonField>,
    name: &'static str,
) -> (text: Result<Option<&'a String>, DecodingError>)
    ensures
        match optional_text_member(fields_view(fields@), name@) {
            Ok(Some(expected)) => text matches Ok(Some(found)) && found@ == expected,
            Ok(None) => text matches Ok(None),
            Err(expected) => text matches Err(error) && error@ == expected,
        },
{
    match find_field(fields, name) {
        Some(Some(JsonValue::Text(text))) => Ok(Some(text)),
        Some(Some(JsonValue::Null)) => Ok(None),
        None => Ok(None),
        Some(_) => Err(DecodingError::InvalidType(name)),
    }
}

/// Reads the record that an object stands for. What is read is well
/// formed.
pub fn record_from_fields(fields: &Vec<JsonField>) -> (record: Result<SlotMessage, DecodingError>)
    ensures
        match record_of(fields_view(fields@)) {
            Ok(expected) => record matches Ok(found) && found@ == expected,
            Err(expected) => record matches Err(error) && error@ == expected,
        },
        record matches Ok(found) ==> found@.well_formed(),
{
    let name = match read_text(fields, STATUS) {
        Ok(name) => name,
        Err(error) => { return Err(error); },
    };
    let status = match deserialize(name.as_str()) {
        Ok(status) => status,
        Err(error) => { return Err(DecodingError::UnknownVariant(error)); },
    };
    let slot = match read_unsigned(fields, SLOT) {
        Ok(slot) => slot,
        Err(error) => { return Err(error); },
    };
    let parent = match read_optional_unsigned(fields, PARENT) {
        Ok(parent) => parent,
        Err(error) => { return Err(error); },
    };
    let description = match read_optional_text(fields, DEAD_ERROR) {
        Ok(description) => description,
        Err(error) => { return Err(error); },
    };
    let created_at = match read_unsigned(fields, CREATED_AT) {
        Ok(created_at) => created_at,
        Err(error) => { return Err(error); },
    };
    let status = match status {
        SlotStatus::Dead(_) => SlotStatus::Dead(
            match description {
                Some(text) => text.clone(),
                None => String::from_str(DEFAULT_REASON),
            },
        ),
        other => other,
    };
    Ok(SlotMessage::new(slot, parent, &status, created_at))
}

/// Writes a record in its wire form. The record is handed to the JSON
/// writer as the object of [`document_of`]; an error of the writer is
/// returned as it is described.
pub fn encode(record: &SlotMessage) -> (text: Result<Vec<u8>, EncodingError>)
    ensures
        match encoded(record@) {
            Some(expected) => text matches Ok(bytes) && bytes@ == expected,
            None => text is Err,
        },
{
    let members = members_of(record);
    proof {
        lemma_document_names_differ(record@);
    }
    match write_object(&members) {
        Ok(bytes) => Ok(bytes),
        Err(error) => Err(EncodingError { message: error_text(&error) }),
    }
}

/// Reads a record from its wire form. A text that the JSON reader refuses
/// is `Malformed`; an object is read as [`record_of`] says. What is read is
/// well formed.
///
/// A text in which a member is repeated is not refused: the JSON reader
/// keeps the last value of the member, and that value is read.
pub fn decode(text: &[u8]) -> (record: Result<SlotMessage, DecodingError>)
    ensures
        match decoded(text@) {
            Ok(expected) => record matches Ok(found) && found@ == expected,
            Err(expected) => record matches Err(error) && error@ == expected,
        },
        record matches Ok(found) ==> found@.well_formed(),
{
    match read_object(text) {
        Ok(fields) => record_from_fields(&fields),
        Err(error) => Err(DecodingError::Malformed(error_text(&error))),
    }
}

} // verus!
