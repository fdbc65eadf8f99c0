//! Coercion: from raw bytes to a loosely typed value, and from a loosely
//! typed value to the value that the type of a field asks for.
use crate::clock::{
    date_from_text, date_time_from_text, parsed_date, parsed_date_time, parsed_time,
    time_from_text, Date, OffsetDateTime, Time,
};
use crate::double::{nearest_double, of_magnitude};
use crate::error::{Shape, ValueError};
use crate::field_value::{FieldValueModel, SchematicFieldValue};
use crate::id::{uuid_numbers, uuid_of_text, Uuid};
use crate::json::{json_document, json_of_text, Json, JsonModel, JsonNumber};
use crate::link::{url_from_text, url_serialization, Url};
use crate::schema::SchematicFieldType;
use crate::text::same_text;
use crate::value::{Number, SimpleValue, ValueModel};
use vstd::prelude::*;
use vstd::string::*;
use vstd::utf8::{decode_utf8, valid_utf8};

verus! {

/// The error of `String::from_utf8`.
#[verifier::external_type_specification]
#[verifier::external_body]
pub struct ExFromUtf8Error(std::string::FromUtf8Error);

/// `String::from_utf8` accepts exactly the byte sequences that are UTF-8,
/// and the text it gives is what they decode to. Nothing about it is proved
/// here.
pub assume_specification[ std::string::String::from_utf8 ](vec: Vec<u8>) -> (r: Result<
    std::string::String,
    std::string::FromUtf8Error,
>)
    ensures
        match r {
            Ok(s) => valid_utf8(vec@) && s@ == decode_utf8(vec@),
            Err(_) => !valid_utf8(vec@),
        },
;

/// A moment as year, month, day, hour and minute.
pub const DATE_TIME_MINUTES: &'static str = "[year]-[month]-[day]T[hour]:[minute]";

/// A moment as year, month, day, hour, minute and second.
pub const DATE_TIME_SECONDS: &'static str = "[year]-[month]-[day]T[hour]:[minute]:[second]";

/// A date as year, month and day.
pub const DATE: &'static str = "[year]-[month]-[day]";

/// A time as hour, minute and second.
pub const TIME_SECONDS: &'static str = "[hour]:[minute]:[second]";

/// A time as hour, minute, second and fraction of a second.
pub const TIME_FRACTION: &'static str = "[hour]:[minute]:[second].[subsecond]";

/// The first of two outcomes that is there.
pub open spec fn first_of<T>(first: Option<T>, second: Option<T>) -> Option<T> {
    if first is Some {
        first
    } else {
        second
    }
}

/// The boolean that a text spells: `1`, `on` and `true` are true, `0`, `off`
/// and `false` are false, and nothing else is a boolean. Case matters.
pub open spec fn boolean_of(text: Seq<char>) -> Result<bool, ValueError> {
    if text == "1"@ || text == "on"@ || text == "true"@ {
        Ok(true)
    } else if text == "0"@ || text == "off"@ || text == "false"@ {
        Ok(false)
    } else {
        Err(ValueError::Format(Shape::Boolean))
    }
}

/// The identities that the texts of a list spell, if every one of them
/// spells an identity.
pub open spec fn references_of(list: Seq<String>) -> Result<Seq<u128>, ValueError> {
    if forall|i: int| 0 <= i < list.len() ==> (#[trigger] uuid_of_text(list[i]@)) is Some {
        Ok(Seq::new(list.len(), |i: int| uuid_of_text(list[i]@)->0))
    } else {
        Err(ValueError::Format(Shape::Reference))
    }
}

/// The bytes of a sequence as a list of numbers, each a `Byte`.
pub open spec fn byte_numbers(bytes: Seq<u8>) -> Seq<Number> {
    Seq::new(bytes.len(), |i: int| Number::Byte(bytes[i]))
}

impl Number {
    /// The number that a JSON number is read as: a `Byte` where it fits
    /// one, else an `Integer` where it fits one, else the nearest double.
    pub open spec fn of_json(number: JsonNumber) -> Number {
        match number {
            JsonNumber::PosInt(u) => if u <= 255 {
                Number::Byte(u as u8)
            } else if u <= i64::MAX {
                Number::Integer(u as i64)
            } else {
                Number::Float(nearest_double(false, u as nat) as u64)
            },
            JsonNumber::NegInt(i) => Number::Integer(i),
            JsonNumber::Float(bits) => Number::Float(bits),
        }
    }

    /// The number that a JSON number is read as.
    pub fn from_json(number: JsonNumber) -> (r: Number)
        ensures
            r == Self::of_json(number),
    {
        match number {
            JsonNumber::PosInt(u) => {
                if u <= 255 {
                    Number::Byte(u as u8)
                } else if u <= 0x7fff_ffff_ffff_ffff {
                    Number::Integer(u as i64)
                } else {
                    Number::Float(of_magnitude(false, u))
                }
            },
            JsonNumber::NegInt(i) => Number::Integer(i),
            JsonNumber::Float(bits) => Number::Float(bits),
        }
    }
}

impl SimpleValue {
    /// The value that a JSON document stands for where a number is asked
    /// for: the number of a document that is one JSON number, else a
    /// decoding failure.
    pub open spec fn of_number_document(document: Option<JsonModel>) -> Result<Number, ValueError> {
        match document {
            Some(JsonModel::Number(n)) => Ok(Number::of_json(n)),
            _ => Err(ValueError::Decode),
        }
    }

    /// The number of a document that is one JSON number; any other
    /// document, and none, is a decoding failure.
    pub fn from_number_document(document: Option<Json>) -> (r: Result<SimpleValue, ValueError>)
        ensures
            match r {
                Ok(v) => v matches SimpleValue::Number(n) && Self::of_number_document(
                    match document {
                        Some(j) => Some(j@),
                        None => None,
                    },
                ) == Ok::<Number, ValueError>(n),
                Err(e) => Self::of_number_document(
                    match document {
                        Some(j) => Some(j@),
                        None => None,
                    },
                ) == Err::<Number, ValueError>(e),
            },
    {
        match document {
            Some(Json::Number(n)) => Ok(SimpleValue::Number(Number::from_json(n))),
            _ => Err(ValueError::Decode),
        }
    }

    /// The text that bytes decode to, or an encoding failure where they are
    /// not UTF-8.
    pub fn from_text_outcome(outcome: Option<String>) -> (r: Result<SimpleValue, ValueError>)
        ensures
            r == (match outcome {
                Some(s) => Ok::<SimpleValue, ValueError>(SimpleValue::Text(s)),
                None => Err(ValueError::Encoding),
            }),
    {
        match outcome {
            Some(s) => Ok(SimpleValue::Text(s)),
            None => Err(ValueError::Encoding),
        }
    }
}

/// The shape in which raw bytes of a field arrive.
#[derive(Debug, Clone, Copy, PartialEq, Eq, Structural)]
pub enum Storage {
    /// A JSON number.
    Numeric,
    /// UTF-8 text.
    Textual,
    /// The bytes of a file.
    Binary,
    /// Not supported as raw bytes.
    Unsupported,
}

impl SchematicFieldType {
    /// The shape in which raw bytes of a field of the type arrive.
    pub open spec fn spec_storage(self) -> Storage {
        match self {
            SchematicFieldType::Number => Storage::Numeric,
            SchematicFieldType::Document
            | SchematicFieldType::Image
            | SchematicFieldType::Video
            | SchematicFieldType::Audio => Storage::Binary,
            SchematicFieldType::MultiReference
            | SchematicFieldType::MediaGallery
            | SchematicFieldType::MultiDocument
            | SchematicFieldType::Tags => Storage::Unsupported,
            _ => Storage::Textual,
        }
    }

    /// The shape in which raw bytes of a field of the type arrive.
    pub fn storage(self) -> (r: Storage)
        ensures
            r == self.spec_storage(),
    {
        match self {
            SchematicFieldType::Number => Storage::Numeric,
            SchematicFieldType::Document
            | SchematicFieldType::Image
            | SchematicFieldType::Video
            | SchematicFieldType::Audio => Storage::Binary,
            SchematicFieldType::MultiReference
            | SchematicFieldType::MediaGallery
            | SchematicFieldType::MultiDocument
            | SchematicFieldType::Tags => Storage::Unsupported,
            _ => Storage::Textual,
        }
    }

    /// What raw bytes are read as for a field of the type. A number is the
    /// JSON number that the bytes spell; a text is what the bytes decode to
    /// as UTF-8; a file is the list of its bytes. The failures are a
    /// decoding failure for bytes that are no JSON number, an encoding
    /// failure for bytes that are no UTF-8, and `NotImplemented` for the
    /// types that raw bytes are not supported for.
    pub open spec fn read_bytes(self, bytes: Seq<u8>) -> Result<ValueModel, ValueError> {
        match self.spec_storage() {
            Storage::Numeric => match SimpleValue::of_number_document(json_document(bytes)) {
                Ok(n) => Ok(ValueModel::Number(n)),
                Err(e) => Err(e),
            },
            Storage::Textual => if valid_utf8(bytes) {
                Ok(ValueModel::Text(decode_utf8(bytes)))
            } else {
                Err(ValueError::Encoding)
            },
            Storage::Binary => Ok(ValueModel::ListNumber(byte_numbers(bytes))),
            Storage::Unsupported => Err(ValueError::NotImplemented),
        }
    }

    /// Reads the raw bytes of a field of the type.
    pub fn parse_value_bytes(self, bytes: Vec<u8>) -> (r: Result<SimpleValue, ValueError>)
        ensures
            match r {
                Ok(v) => self.read_bytes(bytes@) == Ok::<ValueModel, ValueError>(v@),
                Err(e) => self.read_bytes(bytes@) == Err::<ValueModel, ValueError>(e),
            },
    {
        match self.storage() {
            Storage::Numeric => SimpleValue::from_number_document(
                Json::parse_bytes(bytes.as_slice()),
            ),
            Storage::Textual => match String::from_utf8(bytes) {
                Ok(s) => SimpleValue::from_text_outcome(Some(s)),
                Err(_) => SimpleValue::from_text_outcome(None),
            },
            Storage::Binary => {
                let mut list: Vec<Number> = Vec::new();
                let mut i: usize = 0;
                while i < bytes.len()
                    invariant
                        i <= bytes.len(),
                        list@.len() == i,
                        forall|j: int| 0 <= j < i ==> list@[j] == Number::Byte(bytes@[j]),
                    decreases bytes.len() - i,
                {
                    list.push(Number::Byte(bytes[i]));
                    i += 1;
                }
                assert(list@ =~= byte_numbers(bytes@));
                Ok(SimpleValue::ListNumber(list))
            },
            Storage::Unsupported => Err(ValueError::NotImplemented),
        }
    }
}

impl SchematicFieldValue {
    /// The boolean that `text` spells, or a format failure.
    pub fn boolean_from_text(text: &str) -> (r: Result<bool, ValueError>)
        ensures
            r == boolean_of(text@),
    {
        if same_text(text, "1") || same_text(text, "on") || same_text(text, "true") {
            Ok(true)
        } else if same_text(text, "0") || same_text(text, "off") || same_text(text, "false") {
            Ok(false)
        } else {
            Err(ValueError::Format(Shape::Boolean))
        }
    }

    /// The address that was read, or a format failure where none was.
    pub fn from_url_outcome(outcome: Option<String>) -> (r: Result<SchematicFieldValue, ValueError>)
        ensures
            match r {
                Ok(v) => outcome matches Some(text) && v@ == FieldValueModel::Url(text@),
                Err(e) => outcome is None && e == ValueError::Format(Shape::Url),
            },
    {
        match Url::from_outcome(outcome) {
            Ok(url) => Ok(SchematicFieldValue::Url(url)),
            Err(e) => Err(e),
        }
    }

    /// The date and time that were read, taken as UTC, or a format failure
    /// where none were.
    pub fn from_date_time_outcome(outcome: Option<(Date, Time)>) -> (r: Result<
        SchematicFieldValue,
        ValueError,
    >)
        ensures
            match r {
                Ok(v) => outcome matches Some(pair) && v@ == FieldValueModel::DateTime(
                    (pair.0@, pair.1@, (0int, 0int, 0int)),
                ),
                Err(e) => outcome is None && e == ValueError::Format(Shape::DateTime),
            },
    {
        match outcome {
            Some(pair) => Ok(SchematicFieldValue::DateTime(OffsetDateTime::utc(pair.0, pair.1))),
            None => Err(ValueError::Format(Shape::DateTime)),
        }
    }

    /// The date that was read, or a format failure where none was.
    pub fn from_date_outcome(outcome: Option<Date>) -> (r: Result<SchematicFieldValue, ValueError>)
        ensures
            match r {
                Ok(v) => outcome matches Some(date) && v@ == FieldValueModel::Date(date@),
                Err(e) => outcome is None && e == ValueError::Format(Shape::Date),
            },
    {
        match outcome {
            Some(date) => Ok(SchematicFieldValue::Date(date)),
            None => Err(ValueError::Format(Shape::Date)),
        }
    }

    /// The time that was read, or a format failure where none was.
    pub fn from_time_outcome(outcome: Option<Time>) -> (r: Result<SchematicFieldValue, ValueError>)
        ensures
            match r {
                Ok(v) => outcome matches Some(time) && v@ == FieldValueModel::Time(time@),
                Err(e) => outcome is None && e == ValueError::Format(Shape::Time),
            },
    {
        match outcome {
            Some(time) => Ok(SchematicFieldValue::Time(time)),
            None => Err(ValueError::Format(Shape::Time)),
        }
    }

    /// The identity that was read, or a format failure where none was.
    pub fn reference_from_outcome(outcome: Option<Uuid>) -> (r: Result<Uuid, ValueError>)
        ensures
            r == (match outcome {
                Some(uuid) => Ok::<Uuid, ValueError>(uuid),
                None => Err(ValueError::Format(Shape::Reference)),
            }),
    {
        match outcome {
            Some(uuid) => Ok(uuid),
            None => Err(ValueError::Format(Shape::Reference)),
        }
    }

    /// The items of a document that is a JSON array; any other document,
    /// and none, is a decoding failure.
    pub fn from_array_document(document: Option<Json>) -> (r: Result<
        SchematicFieldValue,
        ValueError,
    >)
        ensures
            match r {
                Ok(v) => document matches Some(json) && json@ is Array && v@
                    == FieldValueModel::Array(json@->Array_0),
                Err(e) => e == ValueError::Decode && !(document matches Some(json) && json@ is Array),
            },
    {
        match document {
            Some(json) => match json.into_array() {
                Some(items) => Ok(SchematicFieldValue::Array(items)),
                None => Err(ValueError::Decode),
            },
            None => Err(ValueError::Decode),
        }
    }

    /// The document as an object value; no document is a decoding failure.
    pub fn from_object_document(document: Option<Json>) -> (r: Result<
        SchematicFieldValue,
        ValueError,
    >)
        ensures
            match r {
                Ok(v) => document matches Some(json) && v@ == FieldValueModel::Object(json@),
                Err(e) => e == ValueError::Decode && document is None,
            },
    {
        match document {
            Some(json) => Ok(SchematicFieldValue::Object(json)),
            None => Err(ValueError::Decode),
        }
    }
}

/// The items of a JSON array; any other JSON value, and none, is a decoding
/// failure.
pub open spec fn array_of(document: Option<JsonModel>) -> Result<FieldValueModel, ValueError> {
    match document {
        Some(JsonModel::Array(items)) => Ok(FieldValueModel::Array(items)),
        _ => Err(ValueError::Decode),
    }
}

/// A JSON value as an object value; none is a decoding failure.
pub open spec fn object_of(document: Option<JsonModel>) -> Result<FieldValueModel, ValueError> {
    match document {
        Some(json) => Ok(FieldValueModel::Object(json)),
        None => Err(ValueError::Decode),
    }
}

impl SchematicFieldType {
    /// What a loosely typed value is coerced to for a field of the type.
    ///
    /// Texts pass through for `Text`, `RichContent`, `RichText`, `Email`,
    /// `Phone` and `Address`; a number passes through for `Number`; a list
    /// of numbers passes through for the file types and for `Tags`. `URL`
    /// reads the text as a web address, `Boolean` as a boolean, `Reference`
    /// as an identity; `MultiReference` and `MediaGallery` read every text
    /// of a list as an identity, and fail if one of them is none.
    /// `DateTime`, `Date` and `Time` read the canonical text of the value, a
    /// moment with and a time without seconds first. `Array` and `Object`
    /// read a text as a JSON document and take any other value by its JSON
    /// form. `MultiDocument` is not supported.
    pub open spec fn coerced(self, received: SimpleValue) -> Result<FieldValueModel, ValueError> {
        match self {
            SchematicFieldType::Text | SchematicFieldType::RichContent | SchematicFieldType::RichText => match received {
                SimpleValue::Text(s) => Ok(FieldValueModel::Text(s@)),
                _ => Err(ValueError::TypeMismatch(Shape::Text)),
            },
            SchematicFieldType::Number => match received {
                SimpleValue::Number(n) => Ok(FieldValueModel::Number(n)),
                _ => Err(ValueError::TypeMismatch(Shape::Number)),
            },
            SchematicFieldType::URL => match received {
                SimpleValue::Text(s) => match url_serialization(s@) {
                    Some(url) => Ok(FieldValueModel::Url(url)),
                    None => Err(ValueError::Format(Shape::Url)),
                },
                _ => Err(ValueError::TypeMismatch(Shape::Text)),
            },
            SchematicFieldType::Email => match received {
                SimpleValue::Text(s) => Ok(FieldValueModel::Email(s@)),
                _ => Err(ValueError::TypeMismatch(Shape::Text)),
            },
            SchematicFieldType::Phone => match received {
                SimpleValue::Text(s) => Ok(FieldValueModel::Phone(s@)),
                _ => Err(ValueError::TypeMismatch(Shape::Text)),
            },
            SchematicFieldType::Address => match received {
                SimpleValue::Text(s) => Ok(FieldValueModel::Address(s@)),
                _ => Err(ValueError::TypeMismatch(Shape::Text)),
            },
            SchematicFieldType::Boolean => match received {
                SimpleValue::Text(s) => match boolean_of(s@) {
                    Ok(b) => Ok(FieldValueModel::Boolean(b)),
                    Err(e) => Err(e),
                },
                _ => Err(ValueError::TypeMismatch(Shape::Text)),
            },
            SchematicFieldType::DateTime => match received.text() {
                Ok(text) => match first_of(
                    parsed_date_time(text, DATE_TIME_MINUTES@),
                    parsed_date_time(text, DATE_TIME_SECONDS@),
                ) {
                    Some(pair) => Ok(FieldValueModel::DateTime((pair.0, pair.1, (0, 0, 0)))),
                    None => Err(ValueError::Format(Shape::DateTime)),
                },
                Err(e) => Err(e),
            },
            SchematicFieldType::Date => match received.text() {
                Ok(text) => match parsed_date(text, DATE@) {
                    Some(date) => Ok(FieldValueModel::Date(date)),
                    None => Err(ValueError::Format(Shape::Date)),
                },
                Err(e) => Err(e),
            },
            SchematicFieldType::Time => match received.text() {
                Ok(text) => match first_of(
                    parsed_time(text, TIME_SECONDS@),
                    parsed_time(text, TIME_FRACTION@),
                ) {
                    Some(time) => Ok(FieldValueModel::Time(time)),
                    None => Err(ValueError::Format(Shape::Time)),
                },
                Err(e) => Err(e),
            },
            SchematicFieldType::Reference => match received {
                SimpleValue::Text(s) => match uuid_of_text(s@) {
                    Some(value) => Ok(FieldValueModel::Reference(value)),
                    None => Err(ValueError::Format(Shape::Reference)),
                },
                _ => Err(ValueError::TypeMismatch(Shape::Text)),
            },
            SchematicFieldType::MultiReference | SchematicFieldType::MediaGallery => match received {
                SimpleValue::ListString(list) => match references_of(list@) {
                    Ok(values) => Ok(FieldValueModel::MultiReference(values)),
                    Err(e) => Err(e),
                },
                _ => Err(ValueError::TypeMismatch(Shape::StringList)),
            },
            SchematicFieldType::Document
            | SchematicFieldType::Image
            | SchematicFieldType::Video
            | SchematicFieldType::Audio
            | SchematicFieldType::Tags => match received {
                SimpleValue::ListNumber(list) => Ok(FieldValueModel::ListNumber(list@)),
                _ => Err(ValueError::TypeMismatch(Shape::NumberList)),
            },
            SchematicFieldType::MultiDocument => Err(ValueError::NotImplemented),
            SchematicFieldType::Array => match received {
                SimpleValue::Text(s) => array_of(json_of_text(s@)),
                _ => array_of(Some(received.json())),
            },
            SchematicFieldType::Object => match received {
                SimpleValue::Text(s) => object_of(json_of_text(s@)),
                _ => object_of(Some(received.json())),
            },
        }
    }
}


fn some_of<T, E>(outcome: Result<T, E>) -> (r: Option<T>)
    ensures
        r == (match outcome {
            Ok(v) => Some(v),
            Err(_) => None::<T>,
        }),
{
    match outcome {
        Ok(v) => Some(v),
        Err(_) => None,
    }
}

/// Whether `r` is what `kind` coerces `received` to.
pub open spec fn coerces(
    kind: SchematicFieldType,
    received: SimpleValue,
    r: Result<SchematicFieldValue, ValueError>,
) -> bool {
    match r {
        Ok(v) => kind.coerced(received) == Ok::<FieldValueModel, ValueError>(v@),
        Err(e) => kind.coerced(received) == Err::<FieldValueModel, ValueError>(e),
    }
}

fn coerce_url(received: SimpleValue) -> (r: Result<SchematicFieldValue, ValueError>)
    ensures
        coerces(SchematicFieldType::URL, received, r),
{
    match received.try_as_text() {
        Ok(s) => SchematicFieldValue::from_url_outcome(some_of(url_from_text(s.as_str()))),
        Err(e) => Err(e),
    }
}

fn coerce_boolean(received: SimpleValue) -> (r: Result<SchematicFieldValue, ValueError>)
    ensures
        coerces(SchematicFieldType::Boolean, received, r),
{
    match received.try_as_text() {
        Ok(s) => match SchematicFieldValue::boolean_from_text(s.as_str()) {
            Ok(b) => Ok(SchematicFieldValue::Boolean(b)),
            Err(e) => Err(e),
        },
        Err(e) => Err(e),
    }
}

fn coerce_date_time(received: SimpleValue) -> (r: Result<SchematicFieldValue, ValueError>)
    ensures
        coerces(SchematicFieldType::DateTime, received, r),
{
    match received.any_as_text() {
        Ok(text) => {
            let short = some_of(date_time_from_text(text.as_str(), DATE_TIME_MINUTES));
            let outcome = if short.is_some() {
                short
            } else {
                some_of(date_time_from_text(text.as_str(), DATE_TIME_SECONDS))
            };
            SchematicFieldValue::from_date_time_outcome(outcome)
        },
        Err(e) => Err(e),
    }
}

fn coerce_date(received: SimpleValue) -> (r: Result<SchematicFieldValue, ValueError>)
    ensures
        coerces(SchematicFieldType::Date, received, r),
{
    match received.any_as_text() {
        Ok(text) => SchematicFieldValue::from_date_outcome(
            some_of(date_from_text(text.as_str(), DATE)),
        ),
        Err(e) => Err(e),
    }
}

fn coerce_time(received: SimpleValue) -> (r: Result<SchematicFieldValue, ValueError>)
    ensures
        coerces(SchematicFieldType::Time, received, r),
{
    match received.any_as_text() {
        Ok(text) => {
            let plain = some_of(time_from_text(text.as_str(), TIME_SECONDS));
            let outcome = if plain.is_some() {
                plain
            } else {
                some_of(time_from_text(text.as_str(), TIME_FRACTION))
            };
            SchematicFieldValue::from_time_outcome(outcome)
        },
        Err(e) => Err(e),
    }
}

fn coerce_reference(received: SimpleValue) -> (r: Result<SchematicFieldValue, ValueError>)
    ensures
        coerces(SchematicFieldType::Reference, received, r),
{
    match received.try_as_text() {
        Ok(s) => match SchematicFieldValue::reference_from_outcome(Uuid::parse(s.as_str())) {
            Ok(uuid) => Ok(SchematicFieldValue::Reference(uuid)),
            Err(e) => Err(e),
        },
        Err(e) => Err(e),
    }
}

fn coerce_references(received: SimpleValue) -> (r: Result<SchematicFieldValue, ValueError>)
    ensures
        coerces(SchematicFieldType::MultiReference, received, r),
        coerces(SchematicFieldType::MediaGallery, received, r),
{
    match received.try_as_list_string() {
        Ok(list) => {
            let mut found: Vec<Uuid> = Vec::new();
            let mut i: usize = 0;
            while i < list.len()
                invariant
                    i <= list.len(),
                    found@.len() == i,
                    received == SimpleValue::ListString(list),
                    forall|j: int|
                        0 <= j < i ==> (#[trigger] uuid_of_text(list@[j]@)) == Some(found@[j].0),
                decreases list.len() - i,
            {
                match SchematicFieldValue::reference_from_outcome(Uuid::parse(list[i].as_str())) {
                    Ok(uuid) => found.push(uuid),
                    Err(e) => {
                        assert(uuid_of_text(list@[i as int]@) is None);
                        return Err(e);
                    },
                }
                i += 1;
            }
            assert(uuid_numbers(found@) =~= references_of(list@)->Ok_0);
            Ok(SchematicFieldValue::MultiReference(found))
        },
        Err(e) => Err(e),
    }
}

fn coerce_array(received: SimpleValue) -> (r: Result<SchematicFieldValue, ValueError>)
    ensures
        coerces(SchematicFieldType::Array, received, r),
{
    let document = match &received {
        SimpleValue::Text(s) => Json::parse(s.as_str()),
        _ => Some(received.to_json()),
    };
    SchematicFieldValue::from_array_document(document)
}

fn coerce_object(received: SimpleValue) -> (r: Result<SchematicFieldValue, ValueError>)
    ensures
        coerces(SchematicFieldType::Object, received, r),
{
    let document = match &received {
        SimpleValue::Text(s) => Json::parse(s.as_str()),
        _ => Some(received.to_json()),
    };
    SchematicFieldValue::from_object_document(document)
}

fn coerce_numbers(received: SimpleValue) -> (r: Result<SchematicFieldValue, ValueError>)
    ensures
        coerces(SchematicFieldType::Document, received, r),
        coerces(SchematicFieldType::Image, received, r),
        coerces(SchematicFieldType::Video, received, r),
        coerces(SchematicFieldType::Audio, received, r),
        coerces(SchematicFieldType::Tags, received, r),
{
    match received.try_as_list_number() {
        Ok(list) => Ok(SchematicFieldValue::ListNumber(list)),
        Err(e) => Err(e),
    }
}

fn coerce_text(received: SimpleValue) -> (r: Result<SchematicFieldValue, ValueError>)
    ensures
        coerces(SchematicFieldType::Text, received, r),
        coerces(SchematicFieldType::RichContent, received, r),
        coerces(SchematicFieldType::RichText, received, r),
{
    match received.try_as_text() {
        Ok(s) => Ok(SchematicFieldValue::Text(s)),
        Err(e) => Err(e),
    }
}

impl SchematicFieldType {
    /// Coerces a loosely typed value to the value that a field of the type
    /// asks for, or says why it cannot be.
    pub fn parse_value(self, received: SimpleValue) -> (r: Result<SchematicFieldValue, ValueError>)
        ensures
            coerces(self, received, r),
    {
        match self {
            SchematicFieldType::Text
            | SchematicFieldType::RichContent
            | SchematicFieldType::RichText => coerce_text(received),
            SchematicFieldType::Number => match received.try_as_number() {
                Ok(n) => Ok(SchematicFieldValue::Number(n)),
                Err(e) => Err(e),
            },
            SchematicFieldType::URL => coerce_url(received),
            SchematicFieldType::Email => match received.try_as_text() {
                Ok(s) => Ok(SchematicFieldValue::Email(s)),
                Err(e) => Err(e),
            },
            SchematicFieldType::Phone => match received.try_as_text() {
                Ok(s) => Ok(SchematicFieldValue::Phone(s)),
                Err(e) => Err(e),
            },
            SchematicFieldType::Address => match received.try_as_text() {
                Ok(s) => Ok(SchematicFieldValue::Address(s)),
                Err(e) => Err(e),
            },
            SchematicFieldType::Boolean => coerce_boolean(received),
            SchematicFieldType::DateTime => coerce_date_time(received),
            SchematicFieldType::Date => coerce_date(received),
            SchematicFieldType::Time => coerce_time(received),
            SchematicFieldType::Reference => coerce_reference(received),
            SchematicFieldType::MultiReference
            | SchematicFieldType::MediaGallery => coerce_references(received),
            SchematicFieldType::Document
            | SchematicFieldType::Image
            | SchematicFieldType::Video
            | SchematicFieldType::Audio
            | SchematicFieldType::Tags => coerce_numbers(received),
            SchematicFieldType::MultiDocument => Err(ValueError::NotImplemented),
            SchematicFieldType::Array => coerce_array(received),
            SchematicFieldType::Object => coerce_object(received),
        }
    }
}


impl SchematicFieldType {
    /// The shape of the values that coercion yields for the type; `None`
    /// for the type that coercion does not support.
    pub open spec fn spec_yields(self) -> Option<Shape> {
        match self {
            SchematicFieldType::Text
            | SchematicFieldType::RichContent
            | SchematicFieldType::RichText => Some(Shape::Text),
            SchematicFieldType::Number => Some(Shape::Number),
            SchematicFieldType::URL => Some(Shape::Url),
            SchematicFieldType::Email => Some(Shape::Email),
            SchematicFieldType::Phone => Some(Shape::Phone),
            SchematicFieldType::Address => Some(Shape::Address),
            SchematicFieldType::Boolean => Some(Shape::Boolean),
            SchematicFieldType::DateTime => Some(Shape::DateTime),
            SchematicFieldType::Date => Some(Shape::Date),
            SchematicFieldType::Time => Some(Shape::Time),
            SchematicFieldType::Reference => Some(Shape::Reference),
            SchematicFieldType::MultiReference
            | SchematicFieldType::MediaGallery => Some(Shape::ReferenceList),
            SchematicFieldType::Document
            | SchematicFieldType::Image
            | SchematicFieldType::Video
            | SchematicFieldType::Audio
            | SchematicFieldType::Tags => Some(Shape::NumberList),
            SchematicFieldType::MultiDocument => None,
            SchematicFieldType::Array => Some(Shape::ObjectArray),
            SchematicFieldType::Object => Some(Shape::Object),
        }
    }

    /// The shape of the values that coercion yields for the type.
    pub fn yields(self) -> (r: Option<Shape>)
        ensures
            r == self.spec_yields(),
    {
        match self {
            SchematicFieldType::Text
            | SchematicFieldType::RichContent
            | SchematicFieldType::RichText => Some(Shape::Text),
            SchematicFieldType::Number => Some(Shape::Number),
            SchematicFieldType::URL => Some(Shape::Url),
            SchematicFieldType::Email => Some(Shape::Email),
            SchematicFieldType::Phone => Some(Shape::Phone),
            SchematicFieldType::Address => Some(Shape::Address),
            SchematicFieldType::Boolean => Some(Shape::Boolean),
            SchematicFieldType::DateTime => Some(Shape::DateTime),
            SchematicFieldType::Date => Some(Shape::Date),
            SchematicFieldType::Time => Some(Shape::Time),
            SchematicFieldType::Reference => Some(Shape::Reference),
            SchematicFieldType::MultiReference
            | SchematicFieldType::MediaGallery => Some(Shape::ReferenceList),
            SchematicFieldType::Document
            | SchematicFieldType::Image
            | SchematicFieldType::Video
            | SchematicFieldType::Audio
            | SchematicFieldType::Tags => Some(Shape::NumberList),
            SchematicFieldType::MultiDocument => None,
            SchematicFieldType::Array => Some(Shape::ObjectArray),
            SchematicFieldType::Object => Some(Shape::Object),
        }
    }

    /// The type of a field fixes the shape of its values: whatever is
    /// coerced, what comes out has the one shape that the type yields, and
    /// nothing comes out for a type that yields none.
    pub proof fn lemma_shape_is_fixed_by_type(self, received: SimpleValue)
        ensures
            self.coerced(received) matches Ok(value) ==> self.spec_yields() == Some(value.shape()),
            self.spec_yields() is None ==> self.coerced(received) is Err,
    {
    }

    /// The bytes of a file come back from the list of numbers that they
    /// were read as.
    pub proof fn lemma_file_bytes_come_back(self, bytes: Seq<u8>)
        requires
            self.spec_storage() == Storage::Binary,
        ensures
            self.read_bytes(bytes) == Ok::<ValueModel, ValueError>(
                ValueModel::ListNumber(byte_numbers(bytes)),
            ),
            crate::value::all_bytes(byte_numbers(bytes)),
            crate::value::bytes_of(byte_numbers(bytes)) == bytes,
    {
        assert(crate::value::bytes_of(byte_numbers(bytes)) =~= bytes);
    }

    /// What is read from raw bytes is what coercion of the same type takes:
    /// a number for `Number`, a list of numbers for the file types, and a
    /// text for the types that are stored as text.
    pub proof fn lemma_bytes_fit_the_type(self, bytes: Seq<u8>)
        ensures
            self.read_bytes(bytes) matches Ok(value) ==> match self.spec_storage() {
                Storage::Numeric => value is Number,
                Storage::Textual => value is Text,
                Storage::Binary => value is ListNumber,
                Storage::Unsupported => false,
            },
    {
    }
}

} // verus!
