//! Values as JSON: the untagged form of loosely typed values and of the
//! values of filters, and the tagged form of typed values.
use crate::clock::{
    date_of_ordinal, days_before_month, lemma_ordinal_comes_back, lemma_valid_offset_is_mended,
    mended_offset, valid_date, valid_offset, valid_time, Date, OffsetDateTime, Time, UtcOffset,
};
use crate::error::{Shape, ValueError};
use crate::field_value::{FieldValueModel, SchematicFieldValue};
use crate::filter::{Filter, FilterConditionType, FilterModel, FilterValue, FilterValueModel};
use crate::id::{lemma_uuid_text_reads_back, uuid_numbers, uuid_of_text, uuid_text, Uuid};
use crate::double::{is_finite, Order};
use crate::json::{
    clone_items, lemma_array_model, lemma_object_model, member_models, member_of, models, Json,
    JsonModel,
};
use crate::link::{url_serialization, Url};
use crate::text::{same_text, texts};
use crate::value::{number_models, whole_numbers, Number, SimpleValue, ValueModel};
use vstd::prelude::*;
use vstd::string::*;

verus! {

/// The date that a JSON value spells: an array of a year and a day of the
/// year that the year has.
pub open spec fn date_of_json(json: JsonModel) -> Option<(int, int, int)> {
    match json {
        JsonModel::Array(items) => if items.len() == 2 {
            match (
                items[0].whole_between(i32::MIN as int, i32::MAX as int),
                items[1].whole_between(0, u16::MAX as int),
            ) {
                (Some(year), Some(ordinal)) => date_of_ordinal(year, ordinal),
                _ => None,
            }
        } else {
            None
        },
        _ => None,
    }
}

/// The four numbers from place `at` on as a time of day.
pub open spec fn time_at(items: Seq<JsonModel>, at: int) -> Option<(int, int, int, int)> {
    match (
        items[at].whole_between(0, 23),
        items[at + 1].whole_between(0, 59),
        items[at + 2].whole_between(0, 59),
        items[at + 3].whole_between(0, 999_999_999),
    ) {
        (Some(hour), Some(minute), Some(second), Some(nanosecond)) => Some(
            (hour, minute, second, nanosecond),
        ),
        _ => None,
    }
}

/// The time of day that a JSON value spells: an array of hour, minute,
/// second and nanosecond, each in range.
pub open spec fn time_of_json(json: JsonModel) -> Option<(int, int, int, int)> {
    match json {
        JsonModel::Array(items) => if items.len() == 4 {
            time_at(items, 0)
        } else {
            None
        },
        _ => None,
    }
}

/// The moment that a JSON value spells: an array of year, day of the year,
/// hour, minute, second, nanosecond, and hours, minutes and seconds of the
/// offset, each in range.
pub open spec fn date_time_of_json(json: JsonModel) -> Option<
    ((int, int, int), (int, int, int, int), (int, int, int)),
> {
    match json {
        JsonModel::Array(items) => if items.len() == 9 {
            match (
                date_of_json(JsonModel::Array(items.subrange(0, 2))),
                time_at(items, 2),
                items[6].whole_between(-128, 127),
                items[7].whole_between(-128, 127),
                items[8].whole_between(-128, 127),
            ) {
                (Some(date), Some(time), Some(hours), Some(minutes), Some(seconds)) => {
                    match mended_offset(hours, minutes, seconds) {
                        Some(offset) => Some((date, time, offset)),
                        None => None,
                    }
                },
                _ => None,
            }
        } else {
            None
        },
        _ => None,
    }
}

fn date_from_items(items: &Vec<Json>, at: usize) -> (r: Option<Date>)
    requires
        at + 2 <= items@.len(),
    ensures
        match r {
            Some(date) => date_of_json(
                JsonModel::Array(models(items@).subrange(at as int, at + 2)),
            ) == Some(date@),
            None => date_of_json(JsonModel::Array(models(items@).subrange(at as int, at + 2)))
                is None,
        },
{
    let count = items.len();
    assert(at + 2 <= count);
    let year = items[at].whole_between(-2147483648, 2147483647);
    let ordinal = items[at + 1].whole_between(0, 65535);
    match (year, ordinal) {
        (Some(year), Some(ordinal)) => Date::from_ordinal(year as i32, ordinal as u16),
        _ => None,
    }
}

fn time_from_items(items: &Vec<Json>, at: usize) -> (r: Option<Time>)
    requires
        at + 4 <= items@.len(),
    ensures
        match r {
            Some(time) => time_at(models(items@), at as int) == Some(time@),
            None => time_at(models(items@), at as int) is None,
        },
{
    let count = items.len();
    assert(at + 4 <= count);
    let hour = items[at].whole_between(0, 23);
    let minute = items[at + 1].whole_between(0, 59);
    let second = items[at + 2].whole_between(0, 59);
    let nanosecond = items[at + 3].whole_between(0, 999_999_999);
    match (hour, minute, second, nanosecond) {
        (Some(hour), Some(minute), Some(second), Some(nanosecond)) => Time::new(
            hour as u8,
            minute as u8,
            second as u8,
            nanosecond as u32,
        ),
        _ => None,
    }
}

impl Date {
    /// The date that a JSON value spells.
    pub fn from_json(json: &Json) -> (r: Option<Date>)
        ensures
            match r {
                Some(date) => date_of_json(json@) == Some(date@),
                None => date_of_json(json@) is None,
            },
    {
        match json.as_array() {
            Some(items) => {
                if items.len() == 2 {
                    assert(models(items@).subrange(0, 2) =~= models(items@));
                    date_from_items(items, 0)
                } else {
                    None
                }
            },
            None => None,
        }
    }
}

impl Time {
    /// The time of day that a JSON value spells.
    pub fn from_json(json: &Json) -> (r: Option<Time>)
        ensures
            match r {
                Some(time) => time_of_json(json@) == Some(time@),
                None => time_of_json(json@) is None,
            },
    {
        match json.as_array() {
            Some(items) => {
                if items.len() == 4 {
                    time_from_items(items, 0)
                } else {
                    None
                }
            },
            None => None,
        }
    }
}

impl OffsetDateTime {
    /// The moment that a JSON value spells.
    pub fn from_json(json: &Json) -> (r: Option<OffsetDateTime>)
        ensures
            match r {
                Some(moment) => date_time_of_json(json@) == Some(moment@),
                None => date_time_of_json(json@) is None,
            },
    {
        match json.as_array() {
            Some(items) => {
                if items.len() != 9 {
                    return None;
                }
                let date = date_from_items(items, 0);
                let time = time_from_items(items, 2);
                let hours = items[6].whole_between(-128, 127);
                let minutes = items[7].whole_between(-128, 127);
                let seconds = items[8].whole_between(-128, 127);
                match (date, time, hours, minutes, seconds) {
                    (Some(date), Some(time), Some(hours), Some(minutes), Some(seconds)) => {
                        match UtcOffset::from_hms(hours as i8, minutes as i8, seconds as i8) {
                            Some(offset) => Some(OffsetDateTime::new(date, time, offset)),
                            None => None,
                        }
                    },
                    _ => None,
                }
            },
            None => None,
        }
    }
}

/// Whether every item is a JSON string.
pub open spec fn all_texts(items: Seq<JsonModel>) -> bool {
    forall|i: int| 0 <= i < items.len() ==> (#[trigger] items[i]) is Text
}

/// Whether every item is a JSON number.
pub open spec fn all_numbers(items: Seq<JsonModel>) -> bool {
    forall|i: int| 0 <= i < items.len() ==> (#[trigger] items[i]) is Number
}

/// The texts of JSON strings, in order.
pub open spec fn texts_of(items: Seq<JsonModel>) -> Seq<Seq<char>> {
    Seq::new(items.len(), |i: int| items[i]->Text_0)
}

/// The numbers that JSON numbers are read as, in order.
pub open spec fn numbers_of(items: Seq<JsonModel>) -> Seq<Number> {
    Seq::new(items.len(), |i: int| Number::of_json(items[i]->Number_0))
}

/// The texts of the items, if every item is a JSON string.
pub fn texts_from_items(items: &Vec<Json>) -> (r: Option<Vec<String>>)
    ensures
        match r {
            Some(list) => all_texts(models(items@)) && texts(list@) == texts_of(models(items@)),
            None => !all_texts(models(items@)),
        },
{
    let mut list: Vec<String> = Vec::new();
    let mut i: usize = 0;
    while i < items.len()
        invariant
            i <= items.len(),
            list@.len() == i,
            forall|j: int| 0 <= j < i ==> (#[trigger] models(items@)[j]) == JsonModel::Text(list@[j]@),
        decreases items.len() - i,
    {
        match &items[i] {
            Json::Text(s) => list.push(s.clone()),
            _ => {
                assert(!(models(items@)[i as int] is Text));
                return None;
            },
        }
        i += 1;
    }
    assert(texts(list@) =~= texts_of(models(items@)));
    Some(list)
}

/// The numbers of the items, if every item is a JSON number.
pub fn numbers_from_items(items: &Vec<Json>) -> (r: Option<Vec<Number>>)
    ensures
        match r {
            Some(list) => all_numbers(models(items@)) && list@ == numbers_of(models(items@)),
            None => !all_numbers(models(items@)),
        },
{
    let mut list: Vec<Number> = Vec::new();
    let mut i: usize = 0;
    while i < items.len()
        invariant
            i <= items.len(),
            list@.len() == i,
            forall|j: int|
                0 <= j < i ==> (#[trigger] models(items@)[j]) is Number && list@[j]
                    == Number::of_json(models(items@)[j]->Number_0),
        decreases items.len() - i,
    {
        match &items[i] {
            Json::Number(n) => list.push(Number::from_json(*n)),
            _ => {
                assert(!(models(items@)[i as int] is Number));
                return None;
            },
        }
        i += 1;
    }
    assert(list@ =~= numbers_of(models(items@)));
    Some(list)
}

impl ValueModel {
    /// The loosely typed value that a JSON value is read as: the first of
    /// text, number, boolean, moment, date, time, list of texts, list of
    /// numbers, array and, for all that is left, object, that the value
    /// has the form of.
    pub open spec fn of_json(json: JsonModel) -> ValueModel {
        match json {
            JsonModel::Text(s) => ValueModel::Text(s),
            JsonModel::Number(n) => ValueModel::Number(Number::of_json(n)),
            JsonModel::Bool(b) => ValueModel::Boolean(b),
            JsonModel::Array(items) => if date_time_of_json(json) is Some {
                ValueModel::DateTime(date_time_of_json(json)->0)
            } else if date_of_json(json) is Some {
                ValueModel::Date(date_of_json(json)->0)
            } else if time_of_json(json) is Some {
                ValueModel::Time(time_of_json(json)->0)
            } else if all_texts(items) {
                ValueModel::ListString(texts_of(items))
            } else if all_numbers(items) {
                ValueModel::ListNumber(numbers_of(items))
            } else {
                ValueModel::ArrayUnknown(items)
            },
            _ => ValueModel::ObjectUnknown(json),
        }
    }
}

impl SimpleValue {
    /// The loosely typed value that a JSON value is read as. Every JSON
    /// value is read as one.
    pub fn from_json(json: &Json) -> (r: SimpleValue)
        ensures
            r@ == ValueModel::of_json(json@),
    {
        match json {
            Json::Text(s) => SimpleValue::Text(s.clone()),
            Json::Number(n) => SimpleValue::Number(Number::from_json(*n)),
            Json::Bool(b) => SimpleValue::Boolean(*b),
            Json::Array(items) => {
                proof {
                    lemma_array_model(*items);
                }
                if let Some(moment) = OffsetDateTime::from_json(json) {
                    return SimpleValue::DateTime(moment);
                }
                if let Some(date) = Date::from_json(json) {
                    return SimpleValue::Date(date);
                }
                if let Some(time) = Time::from_json(json) {
                    return SimpleValue::Time(time);
                }
                if let Some(list) = texts_from_items(items) {
                    return SimpleValue::ListString(list);
                }
                if let Some(list) = numbers_from_items(items) {
                    return SimpleValue::ListNumber(list);
                }
                SimpleValue::ArrayUnknown(clone_items(items))
            },
            _ => SimpleValue::ObjectUnknown(json.clone()),
        }
    }
}


impl Shape {
    /// The name of the variant of a typed value that has the shape, as the
    /// tagged form spells it; a shape that no typed value has gets none.
    pub open spec fn spec_tag(self) -> Option<Seq<char>> {
        match self {
            Shape::Text => Some("Text"@),
            Shape::Number => Some("Number"@),
            Shape::Boolean => Some("Boolean"@),
            Shape::Url => Some("Url"@),
            Shape::Email => Some("Email"@),
            Shape::Phone => Some("Phone"@),
            Shape::Address => Some("Address"@),
            Shape::DateTime => Some("DateTime"@),
            Shape::Date => Some("Date"@),
            Shape::Time => Some("Time"@),
            Shape::Reference => Some("Reference"@),
            Shape::ReferenceList => Some("MultiReference"@),
            Shape::StringList => Some("ListString"@),
            Shape::NumberList => Some("ListNumber"@),
            Shape::ObjectArray => Some("Array"@),
            Shape::Object => Some("Object"@),
            Shape::AnyText => None,
            Shape::Byte => None,
        }
    }

    /// The shape whose tag is `tag`.
    pub open spec fn of_tag(tag: Seq<char>) -> Option<Shape> {
        if tag == "Text"@ {
            Some(Shape::Text)
        } else if tag == "Number"@ {
            Some(Shape::Number)
        } else if tag == "Boolean"@ {
            Some(Shape::Boolean)
        } else if tag == "Url"@ {
            Some(Shape::Url)
        } else if tag == "Email"@ {
            Some(Shape::Email)
        } else if tag == "Phone"@ {
            Some(Shape::Phone)
        } else if tag == "Address"@ {
            Some(Shape::Address)
        } else if tag == "DateTime"@ {
            Some(Shape::DateTime)
        } else if tag == "Date"@ {
            Some(Shape::Date)
        } else if tag == "Time"@ {
            Some(Shape::Time)
        } else if tag == "Reference"@ {
            Some(Shape::Reference)
        } else if tag == "MultiReference"@ {
            Some(Shape::ReferenceList)
        } else if tag == "ListString"@ {
            Some(Shape::StringList)
        } else if tag == "ListNumber"@ {
            Some(Shape::NumberList)
        } else if tag == "Array"@ {
            Some(Shape::ObjectArray)
        } else if tag == "Object"@ {
            Some(Shape::Object)
        } else {
            None
        }
    }

    /// The tag of the shape; `None` for a shape that no typed value has.
    pub fn tag(self) -> (r: Option<&'static str>)
        ensures
            match r {
                Some(tag) => self.spec_tag() == Some(tag@),
                None => self.spec_tag() is None,
            },
    {
        match self {
            Shape::Text => Some("Text"),
            Shape::Number => Some("Number"),
            Shape::Boolean => Some("Boolean"),
            Shape::Url => Some("Url"),
            Shape::Email => Some("Email"),
            Shape::Phone => Some("Phone"),
            Shape::Address => Some("Address"),
            Shape::DateTime => Some("DateTime"),
            Shape::Date => Some("Date"),
            Shape::Time => Some("Time"),
            Shape::Reference => Some("Reference"),
            Shape::ReferenceList => Some("MultiReference"),
            Shape::StringList => Some("ListString"),
            Shape::NumberList => Some("ListNumber"),
            Shape::ObjectArray => Some("Array"),
            Shape::Object => Some("Object"),
            Shape::AnyText => None,
            Shape::Byte => None,
        }
    }

    /// The shape whose tag is `tag`.
    pub fn from_tag(tag: &str) -> (r: Option<Shape>)
        ensures
            r == Self::of_tag(tag@),
    {
        if same_text(tag, "Text") {
            Some(Shape::Text)
        } else if same_text(tag, "Number") {
            Some(Shape::Number)
        } else if same_text(tag, "Boolean") {
            Some(Shape::Boolean)
        } else if same_text(tag, "Url") {
            Some(Shape::Url)
        } else if same_text(tag, "Email") {
            Some(Shape::Email)
        } else if same_text(tag, "Phone") {
            Some(Shape::Phone)
        } else if same_text(tag, "Address") {
            Some(Shape::Address)
        } else if same_text(tag, "DateTime") {
            Some(Shape::DateTime)
        } else if same_text(tag, "Date") {
            Some(Shape::Date)
        } else if same_text(tag, "Time") {
            Some(Shape::Time)
        } else if same_text(tag, "Reference") {
            Some(Shape::Reference)
        } else if same_text(tag, "MultiReference") {
            Some(Shape::ReferenceList)
        } else if same_text(tag, "ListString") {
            Some(Shape::StringList)
        } else if same_text(tag, "ListNumber") {
            Some(Shape::NumberList)
        } else if same_text(tag, "Array") {
            Some(Shape::ObjectArray)
        } else if same_text(tag, "Object") {
            Some(Shape::Object)
        } else {
            None
        }
    }

    /// A shape is found again from its tag.
    pub proof fn lemma_tag_comes_back(self)
        requires
            self.spec_tag() is Some,
        ensures
            Self::of_tag(self.spec_tag()->0) == Some(self),
    {
        reveal_strlit("Text");
        reveal_strlit("Number");
        reveal_strlit("Boolean");
        reveal_strlit("Url");
        reveal_strlit("Email");
        reveal_strlit("Phone");
        reveal_strlit("Address");
        reveal_strlit("DateTime");
        reveal_strlit("Date");
        reveal_strlit("Time");
        reveal_strlit("Reference");
        reveal_strlit("MultiReference");
        reveal_strlit("ListString");
        reveal_strlit("ListNumber");
        reveal_strlit("Array");
        reveal_strlit("Object");
        let tag = self.spec_tag()->0;
        assert("Text"@.len() == 4 && "Text"@[1] == 'e');
        assert("Number"@.len() == 6 && "Number"@[0] == 'N');
        assert("Boolean"@.len() == 7 && "Boolean"@[0] == 'B');
        assert("Url"@.len() == 3);
        assert("Email"@.len() == 5 && "Email"@[0] == 'E');
        assert("Phone"@.len() == 5 && "Phone"@[0] == 'P');
        assert("Address"@.len() == 7 && "Address"@[0] == 'A');
        assert("DateTime"@.len() == 8);
        assert("Date"@.len() == 4 && "Date"@[1] == 'a');
        assert("Time"@.len() == 4 && "Time"@[1] == 'i');
        assert("Reference"@.len() == 9);
        assert("MultiReference"@.len() == 14);
        assert("ListString"@.len() == 10 && "ListString"@[4] == 'S');
        assert("ListNumber"@.len() == 10 && "ListNumber"@[4] == 'N');
        assert("Array"@.len() == 5 && "Array"@[0] == 'A');
        assert("Object"@.len() == 6 && "Object"@[0] == 'O');
    }
}

/// The texts of identifiers as JSON strings, in order.
pub open spec fn reference_models(list: Seq<u128>) -> Seq<JsonModel> {
    Seq::new(list.len(), |i: int| JsonModel::Text(uuid_text(list[i])))
}

/// Texts as JSON strings, in order.
pub open spec fn string_models(list: Seq<Seq<char>>) -> Seq<JsonModel> {
    Seq::new(list.len(), |i: int| JsonModel::Text(list[i]))
}

/// Whether every JSON string of the items spells an identifier.
pub open spec fn all_references(items: Seq<JsonModel>) -> bool {
    forall|i: int|
        0 <= i < items.len() ==> (#[trigger] items[i]) is Text && uuid_of_text(items[i]->Text_0)
            is Some
}

/// The identifiers that the JSON strings spell, in order.
pub open spec fn references_in(items: Seq<JsonModel>) -> Seq<u128> {
    Seq::new(items.len(), |i: int| uuid_of_text(items[i]->Text_0)->0)
}

impl FieldValueModel {
    /// The JSON value that stands for the payload of the value: a text, an
    /// address and an identifier as a string, a number as a number, a
    /// boolean as itself, a list as an array, a moment, a date and a time as
    /// arrays of their parts, an array and an object as they are.
    pub open spec fn payload(self) -> JsonModel {
        match self {
            FieldValueModel::Text(s) => JsonModel::Text(s),
            FieldValueModel::Number(n) => n.json(),
            FieldValueModel::Boolean(b) => JsonModel::Bool(b),
            FieldValueModel::Url(u) => JsonModel::Text(u),
            FieldValueModel::Email(s) => JsonModel::Text(s),
            FieldValueModel::Phone(s) => JsonModel::Text(s),
            FieldValueModel::Address(s) => JsonModel::Text(s),
            FieldValueModel::DateTime(m) => whole_numbers(
                seq![
                    m.0.0,
                    days_before_month(m.0.0, m.0.1) + m.0.2,
                    m.1.0,
                    m.1.1,
                    m.1.2,
                    m.1.3,
                    m.2.0,
                    m.2.1,
                    m.2.2,
                ],
            ),
            FieldValueModel::Date(d) => whole_numbers(
                seq![d.0, days_before_month(d.0, d.1) + d.2],
            ),
            FieldValueModel::Time(t) => whole_numbers(seq![t.0, t.1, t.2, t.3]),
            FieldValueModel::Reference(v) => JsonModel::Text(uuid_text(v)),
            FieldValueModel::MultiReference(list) => JsonModel::Array(reference_models(list)),
            FieldValueModel::ListString(list) => JsonModel::Array(string_models(list)),
            FieldValueModel::ListNumber(list) => JsonModel::Array(number_models(list)),
            FieldValueModel::Array(items) => JsonModel::Array(items),
            FieldValueModel::Object(json) => json,
        }
    }

    /// The tagged form of the value: an object whose member `type` names
    /// the variant and whose member `value` is the payload.
    pub open spec fn wire(self) -> JsonModel {
        JsonModel::Object(
            seq![
                ("type"@, JsonModel::Text(self.shape().spec_tag()->0)),
                ("value"@, self.payload()),
            ],
        )
    }

    /// The value of the given shape that a payload stands for; a payload of
    /// another form is a decoding failure.
    pub open spec fn of_payload(shape: Shape, payload: JsonModel) -> Result<
        FieldValueModel,
        ValueError,
    > {
        match shape {
            Shape::Text => match payload {
                JsonModel::Text(s) => Ok(FieldValueModel::Text(s)),
                _ => Err(ValueError::Decode),
            },
            Shape::Number => match payload {
                JsonModel::Number(n) => Ok(FieldValueModel::Number(Number::of_json(n))),
                _ => Err(ValueError::Decode),
            },
            Shape::Boolean => match payload {
                JsonModel::Bool(b) => Ok(FieldValueModel::Boolean(b)),
                _ => Err(ValueError::Decode),
            },
            Shape::Url => match payload {
                JsonModel::Text(s) => match url_serialization(s) {
                    Some(u) => Ok(FieldValueModel::Url(u)),
                    None => Err(ValueError::Decode),
                },
                _ => Err(ValueError::Decode),
            },
            Shape::Email => match payload {
                JsonModel::Text(s) => Ok(FieldValueModel::Email(s)),
                _ => Err(ValueError::Decode),
            },
            Shape::Phone => match payload {
                JsonModel::Text(s) => Ok(FieldValueModel::Phone(s)),
                _ => Err(ValueError::Decode),
            },
            Shape::Address => match payload {
                JsonModel::Text(s) => Ok(FieldValueModel::Address(s)),
                _ => Err(ValueError::Decode),
            },
            Shape::DateTime => match date_time_of_json(payload) {
                Some(m) => Ok(FieldValueModel::DateTime(m)),
                None => Err(ValueError::Decode),
            },
            Shape::Date => match date_of_json(payload) {
                Some(d) => Ok(FieldValueModel::Date(d)),
                None => Err(ValueError::Decode),
            },
            Shape::Time => match time_of_json(payload) {
                Some(t) => Ok(FieldValueModel::Time(t)),
                None => Err(ValueError::Decode),
            },
            Shape::Reference => match payload {
                JsonModel::Text(s) => match uuid_of_text(s) {
                    Some(v) => Ok(FieldValueModel::Reference(v)),
                    None => Err(ValueError::Decode),
                },
                _ => Err(ValueError::Decode),
            },
            Shape::ReferenceList => match payload {
                JsonModel::Array(items) => if all_references(items) {
                    Ok(FieldValueModel::MultiReference(references_in(items)))
                } else {
                    Err(ValueError::Decode)
                },
                _ => Err(ValueError::Decode),
            },
            Shape::StringList => match payload {
                JsonModel::Array(items) => if all_texts(items) {
                    Ok(FieldValueModel::ListString(texts_of(items)))
                } else {
                    Err(ValueError::Decode)
                },
                _ => Err(ValueError::Decode),
            },
            Shape::NumberList => match payload {
                JsonModel::Array(items) => if all_numbers(items) {
                    Ok(FieldValueModel::ListNumber(numbers_of(items)))
                } else {
                    Err(ValueError::Decode)
                },
                _ => Err(ValueError::Decode),
            },
            Shape::ObjectArray => match payload {
                JsonModel::Array(items) => Ok(FieldValueModel::Array(items)),
                _ => Err(ValueError::Decode),
            },
            Shape::Object => Ok(FieldValueModel::Object(payload)),
            Shape::AnyText => Err(ValueError::Decode),
            Shape::Byte => Err(ValueError::Decode),
        }
    }

    /// The value that a tagged form stands for: the member `type` must be
    /// the name of a variant, and the member `value` a payload of that
    /// variant; anything else is a decoding failure.
    pub open spec fn unwire(json: JsonModel) -> Result<FieldValueModel, ValueError> {
        match (json.member("type"@), json.member("value"@)) {
            (Some(JsonModel::Text(tag)), Some(payload)) => match Shape::of_tag(tag) {
                Some(shape) => Self::of_payload(shape, payload),
                None => Err(ValueError::Decode),
            },
            _ => Err(ValueError::Decode),
        }
    }
}


impl Number {
    /// Whether the number is written as a JSON number: every number but a
    /// double that is infinite or a NaN.
    pub open spec fn is_written(self) -> bool {
        self matches Number::Float(bits) ==> is_finite(bits)
    }

    /// Whether the number is written as a JSON number.
    pub fn written(&self) -> (r: bool)
        ensures
            r == self.is_written(),
    {
        match self {
            Number::Float(bits) => (*bits / crate::double::HIDDEN_BIT) % 0x800 != 0x7ff,
            _ => true,
        }
    }

    /// A number that is written as a JSON number is read back as a number
    /// of the same value.
    pub proof fn lemma_number_comes_back(self)
        requires
            self.is_written(),
        ensures
            self.json() is Number,
            self.order(Number::of_json(self.json()->Number_0)) == Some(Order::Equal),
    {
    }
}

impl FieldValueModel {
    /// Whether the value is well formed and its tagged form can be read
    /// back: its numbers are written as JSON numbers, its dates and times
    /// are dates and times, and its address is read from its own text as
    /// itself.
    pub open spec fn reads_back(self) -> bool {
        match self {
            FieldValueModel::Number(n) => n.is_written(),
            FieldValueModel::Url(u) => url_serialization(u) == Some(u),
            FieldValueModel::DateTime(m) => valid_date(m.0.0, m.0.1, m.0.2) && valid_time(
                m.1.0,
                m.1.1,
                m.1.2,
                m.1.3,
            ) && valid_offset(m.2.0, m.2.1, m.2.2),
            FieldValueModel::Date(d) => valid_date(d.0, d.1, d.2),
            FieldValueModel::Time(t) => valid_time(t.0, t.1, t.2, t.3),
            FieldValueModel::ListNumber(list) => forall|i: int|
                0 <= i < list.len() ==> (#[trigger] list[i]).is_written(),
            _ => true,
        }
    }

    /// Whether two values are the same: of one variant and with the same
    /// payload, where numbers are the same when their values are.
    pub open spec fn same(self, other: FieldValueModel) -> bool {
        match (self, other) {
            (FieldValueModel::Number(a), FieldValueModel::Number(b)) => a.order(b) == Some(
                Order::Equal,
            ),
            (FieldValueModel::ListNumber(a), FieldValueModel::ListNumber(b)) => {
                &&& a.len() == b.len()
                &&& forall|i: int|
                    0 <= i < a.len() ==> (#[trigger] a[i]).order(b[i]) == Some(Order::Equal)
            },
            _ => self == other,
        }
    }

    /// The payload of a value that reads back stands for the same value.
    pub proof fn lemma_payload_comes_back(self)
        requires
            self.reads_back(),
        ensures
            Self::of_payload(self.shape(), self.payload()) matches Ok(back) && self.same(back),
    {
        match self {
            FieldValueModel::Number(n) => {
                n.lemma_number_comes_back();
            },
            FieldValueModel::DateTime(m) => {
                lemma_ordinal_comes_back(m.0.0, m.0.1, m.0.2);
                lemma_valid_offset_is_mended(m.2.0, m.2.1, m.2.2);
                let items = self.payload()->Array_0;
                let ordinal = days_before_month(m.0.0, m.0.1) + m.0.2;
                assert(1 <= ordinal <= 366) by {
                    reveal_with_fuel(days_before_month, 14);
                }
                assert(items.subrange(0, 2)[0] == items[0]);
                assert(items.subrange(0, 2)[1] == items[1]);
                assert(items.subrange(0, 2).len() == 2);
            },
            FieldValueModel::Date(d) => {
                lemma_ordinal_comes_back(d.0, d.1, d.2);
                let ordinal = days_before_month(d.0, d.1) + d.2;
                assert(1 <= ordinal <= 366) by {
                    reveal_with_fuel(days_before_month, 14);
                }
            },
            FieldValueModel::Reference(v) => {
                lemma_uuid_text_reads_back(v);
            },
            FieldValueModel::MultiReference(list) => {
                let items = reference_models(list);
                assert forall|i: int| 0 <= i < items.len() implies (#[trigger] items[i])
                    is Text && uuid_of_text(items[i]->Text_0) == Some(list[i]) by {
                    lemma_uuid_text_reads_back(list[i]);
                }
                assert(all_references(items));
                assert(references_in(items) =~= list);
            },
            FieldValueModel::ListString(list) => {
                let items = string_models(list);
                assert(all_texts(items));
                assert(texts_of(items) =~= list);
            },
            FieldValueModel::ListNumber(list) => {
                let items = number_models(list);
                assert forall|i: int| 0 <= i < items.len() implies (#[trigger] items[i])
                    is Number by {
                    list[i].lemma_number_comes_back();
                }
                assert(all_numbers(items));
                let back = numbers_of(items);
                assert forall|i: int| 0 <= i < list.len() implies (#[trigger] list[i]).order(
                    back[i],
                ) == Some(Order::Equal) by {
                    list[i].lemma_number_comes_back();
                }
            },
            _ => {},
        }
    }

    /// Reading the tagged form of a value gives the value again: for every
    /// value that is well formed, whose numbers are written as JSON numbers,
    /// and whose address is read from its own text as itself.
    pub proof fn lemma_wire_round_trip(self)
        requires
            self.reads_back(),
        ensures
            Self::unwire(self.wire()) matches Ok(back) && self.same(back),
    {
        reveal_strlit("type");
        reveal_strlit("value");
        assert("type"@.len() == 4);
        assert("value"@.len() == 5);
        let tag = self.shape().spec_tag()->0;
        let members = seq![("type"@, JsonModel::Text(tag)), ("value"@, self.payload())];
        assert(member_of(members, "type"@) == Some(JsonModel::Text(tag)));
        assert(members.drop_first() =~= seq![("value"@, self.payload())]);
        assert(member_of(members.drop_first(), "value"@) == Some(self.payload()));
        assert(member_of(members, "value"@) == Some(self.payload()));
        self.shape().lemma_tag_comes_back();
        self.lemma_payload_comes_back();
    }
}


fn texts_to_items(list: &Vec<String>) -> (r: Vec<Json>)
    ensures
        models(r@) == string_models(texts(list@)),
{
    let mut items: Vec<Json> = Vec::new();
    let mut i: usize = 0;
    while i < list.len()
        invariant
            i <= list.len(),
            items@.len() == i,
            forall|j: int| 0 <= j < i ==> items@[j]@ == JsonModel::Text(list@[j]@),
        decreases list.len() - i,
    {
        items.push(Json::Text(list[i].clone()));
        i += 1;
    }
    assert(models(items@) =~= string_models(texts(list@)));
    items
}

fn numbers_to_items(list: &Vec<Number>) -> (r: Vec<Json>)
    ensures
        models(r@) == number_models(list@),
{
    let mut items: Vec<Json> = Vec::new();
    let mut i: usize = 0;
    while i < list.len()
        invariant
            i <= list.len(),
            items@.len() == i,
            forall|j: int| 0 <= j < i ==> items@[j]@ == list@[j].json(),
        decreases list.len() - i,
    {
        items.push(list[i].to_json());
        i += 1;
    }
    assert(models(items@) =~= number_models(list@));
    items
}

fn references_to_items(list: &Vec<Uuid>) -> (r: Vec<Json>)
    ensures
        models(r@) == reference_models(uuid_numbers(list@)),
{
    let mut items: Vec<Json> = Vec::new();
    let mut i: usize = 0;
    while i < list.len()
        invariant
            i <= list.len(),
            items@.len() == i,
            forall|j: int| 0 <= j < i ==> items@[j]@ == JsonModel::Text(uuid_text(list@[j].0)),
        decreases list.len() - i,
    {
        items.push(Json::Text(list[i].to_text()));
        i += 1;
    }
    assert(models(items@) =~= reference_models(uuid_numbers(list@)));
    items
}

fn references_from_items(items: &Vec<Json>) -> (r: Option<Vec<Uuid>>)
    ensures
        match r {
            Some(list) => all_references(models(items@)) && uuid_numbers(list@) == references_in(
                models(items@),
            ),
            None => !all_references(models(items@)),
        },
{
    let mut list: Vec<Uuid> = Vec::new();
    let mut i: usize = 0;
    while i < items.len()
        invariant
            i <= items.len(),
            list@.len() == i,
            forall|j: int|
                0 <= j < i ==> (#[trigger] models(items@)[j]) is Text && uuid_of_text(
                    models(items@)[j]->Text_0,
                ) == Some(list@[j].0),
        decreases items.len() - i,
    {
        match &items[i] {
            Json::Text(s) => match Uuid::parse(s.as_str()) {
                Some(uuid) => list.push(uuid),
                None => {
                    assert(uuid_of_text(models(items@)[i as int]->Text_0) is None);
                    return None;
                },
            },
            _ => {
                assert(!(models(items@)[i as int] is Text));
                return None;
            },
        }
        i += 1;
    }
    assert(uuid_numbers(list@) =~= references_in(models(items@)));
    Some(list)
}

impl SchematicFieldValue {
    /// The JSON value that stands for the payload of the value.
    pub fn to_payload(&self) -> (r: Json)
        ensures
            r@ == self@.payload(),
    {
        match self {
            SchematicFieldValue::Text(s) => Json::Text(s.clone()),
            SchematicFieldValue::Number(n) => n.to_json(),
            SchematicFieldValue::Boolean(b) => Json::Bool(*b),
            SchematicFieldValue::Url(u) => Json::Text(String::from_str(u.as_str())),
            SchematicFieldValue::Email(s) => Json::Text(s.clone()),
            SchematicFieldValue::Phone(s) => Json::Text(s.clone()),
            SchematicFieldValue::Address(s) => Json::Text(s.clone()),
            SchematicFieldValue::DateTime(m) => SimpleValue::DateTime(*m).to_json(),
            SchematicFieldValue::Date(d) => SimpleValue::Date(*d).to_json(),
            SchematicFieldValue::Time(t) => SimpleValue::Time(*t).to_json(),
            SchematicFieldValue::Reference(u) => Json::Text(u.to_text()),
            SchematicFieldValue::MultiReference(list) => {
                let items = references_to_items(list);
                proof {
                    lemma_array_model(items);
                }
                Json::Array(items)
            },
            SchematicFieldValue::ListString(list) => {
                let items = texts_to_items(list);
                proof {
                    lemma_array_model(items);
                }
                Json::Array(items)
            },
            SchematicFieldValue::ListNumber(list) => {
                let items = numbers_to_items(list);
                proof {
                    lemma_array_model(items);
                }
                Json::Array(items)
            },
            SchematicFieldValue::Array(items) => {
                let copy = clone_items(items);
                proof {
                    lemma_array_model(copy);
                }
                Json::Array(copy)
            },
            SchematicFieldValue::Object(json) => json.clone(),
        }
    }

    /// The tagged form of the value.
    pub fn to_wire(&self) -> (r: Json)
        ensures
            r@ == self@.wire(),
    {
        let tag = match self.shape().tag() {
            Some(tag) => tag,
            None => "",
        };
        let payload = self.to_payload();
        let mut members: Vec<(String, Json)> = Vec::new();
        members.push((String::from_str("type"), Json::Text(String::from_str(tag))));
        members.push((String::from_str("value"), payload));
        proof {
            lemma_object_model(members);
            assert(member_models(members@) =~= seq![
                ("type"@, JsonModel::Text(self@.shape().spec_tag()->0)),
                ("value"@, self@.payload()),
            ]);
        }
        Json::Object(members)
    }

    /// The value of the given shape that a payload stands for.
    pub fn from_payload(shape: Shape, payload: &Json) -> (r: Result<SchematicFieldValue, ValueError>)
        ensures
            match r {
                Ok(v) => FieldValueModel::of_payload(shape, payload@) == Ok::<
                    FieldValueModel,
                    ValueError,
                >(v@),
                Err(e) => FieldValueModel::of_payload(shape, payload@) == Err::<
                    FieldValueModel,
                    ValueError,
                >(e),
            },
    {
        match shape {
            Shape::Text => match payload {
                Json::Text(s) => Ok(SchematicFieldValue::Text(s.clone())),
                _ => Err(ValueError::Decode),
            },
            Shape::Number => match payload {
                Json::Number(n) => Ok(SchematicFieldValue::Number(Number::from_json(*n))),
                _ => Err(ValueError::Decode),
            },
            Shape::Boolean => match payload {
                Json::Bool(b) => Ok(SchematicFieldValue::Boolean(*b)),
                _ => Err(ValueError::Decode),
            },
            Shape::Url => match payload {
                Json::Text(s) => match Url::parse(s.as_str()) {
                    Ok(url) => Ok(SchematicFieldValue::Url(url)),
                    Err(_) => Err(ValueError::Decode),
                },
                _ => Err(ValueError::Decode),
            },
            Shape::Email => match payload {
                Json::Text(s) => Ok(SchematicFieldValue::Email(s.clone())),
                _ => Err(ValueError::Decode),
            },
            Shape::Phone => match payload {
                Json::Text(s) => Ok(SchematicFieldValue::Phone(s.clone())),
                _ => Err(ValueError::Decode),
            },
            Shape::Address => match payload {
                Json::Text(s) => Ok(SchematicFieldValue::Address(s.clone())),
                _ => Err(ValueError::Decode),
            },
            Shape::DateTime => match OffsetDateTime::from_json(payload) {
                Some(m) => Ok(SchematicFieldValue::DateTime(m)),
                None => Err(ValueError::Decode),
            },
            Shape::Date => match Date::from_json(payload) {
                Some(d) => Ok(SchematicFieldValue::Date(d)),
                None => Err(ValueError::Decode),
            },
            Shape::Time => match Time::from_json(payload) {
                Some(t) => Ok(SchematicFieldValue::Time(t)),
                None => Err(ValueError::Decode),
            },
            Shape::Reference => match payload {
                Json::Text(s) => match Uuid::parse(s.as_str()) {
                    Some(uuid) => Ok(SchematicFieldValue::Reference(uuid)),
                    None => Err(ValueError::Decode),
                },
                _ => Err(ValueError::Decode),
            },
            Shape::ReferenceList => match payload.as_array() {
                Some(items) => match references_from_items(items) {
                    Some(list) => Ok(SchematicFieldValue::MultiReference(list)),
                    None => Err(ValueError::Decode),
                },
                None => Err(ValueError::Decode),
            },
            Shape::StringList => match payload.as_array() {
                Some(items) => match texts_from_items(items) {
                    Some(list) => Ok(SchematicFieldValue::ListString(list)),
                    None => Err(ValueError::Decode),
                },
                None => Err(ValueError::Decode),
            },
            Shape::NumberList => match payload.as_array() {
                Some(items) => match numbers_from_items(items) {
                    Some(list) => Ok(SchematicFieldValue::ListNumber(list)),
                    None => Err(ValueError::Decode),
                },
                None => Err(ValueError::Decode),
            },
            Shape::ObjectArray => match payload.as_array() {
                Some(items) => Ok(SchematicFieldValue::Array(clone_items(items))),
                None => Err(ValueError::Decode),
            },
            Shape::Object => Ok(SchematicFieldValue::Object(payload.clone())),
            Shape::AnyText => Err(ValueError::Decode),
            Shape::Byte => Err(ValueError::Decode),
        }
    }

    /// The value that a tagged form stands for.
    pub fn from_wire(json: &Json) -> (r: Result<SchematicFieldValue, ValueError>)
        ensures
            match r {
                Ok(v) => FieldValueModel::unwire(json@) == Ok::<FieldValueModel, ValueError>(v@),
                Err(e) => FieldValueModel::unwire(json@) == Err::<FieldValueModel, ValueError>(e),
            },
    {
        let tag = match json.member("type") {
            Some(Json::Text(tag)) => tag,
            _ => {
                return Err(ValueError::Decode);
            },
        };
        let payload = match json.member("value") {
            Some(payload) => payload,
            None => {
                return Err(ValueError::Decode);
            },
        };
        match Shape::from_tag(tag.as_str()) {
            Some(shape) => Self::from_payload(shape, payload),
            None => Err(ValueError::Decode),
        }
    }

    /// Whether the tagged form of the value can be read back: its numbers
    /// are written as JSON numbers, and its address is read from its own
    /// text as itself.
    pub fn reads_back(&self) -> (r: bool)
        ensures
            r == self@.reads_back(),
    {
        match self {
            SchematicFieldValue::Number(n) => n.written(),
            SchematicFieldValue::Url(u) => match Url::parse(u.as_str()) {
                Ok(again) => same_text(again.as_str(), u.as_str()),
                Err(_) => false,
            },
            SchematicFieldValue::DateTime(m) => {
                let date = m.date();
                let time = m.time();
                let offset = m.offset();
                date.known_valid();
                time.known_valid();
                offset.known_valid();
                true
            },
            SchematicFieldValue::Date(d) => {
                d.known_valid();
                true
            },
            SchematicFieldValue::Time(t) => {
                t.known_valid();
                true
            },
            SchematicFieldValue::ListNumber(list) => {
                let mut i: usize = 0;
                while i < list.len()
                    invariant
                        i <= list.len(),
                        self@ == FieldValueModel::ListNumber(list@),
                        forall|j: int| 0 <= j < i ==> (#[trigger] list@[j]).is_written(),
                    decreases list.len() - i,
                {
                    if !list[i].written() {
                        assert(!self@->ListNumber_0[i as int].is_written());
                        assert(!self@.reads_back());
                        return false;
                    }
                    i += 1;
                }
                true
            },
            _ => true,
        }
    }
}


impl FilterValueModel {
    /// The JSON value that the value is written as, without a tag: a
    /// number, a string, an array of strings, or the array of the two ends
    /// of a range.
    pub open spec fn json(self) -> JsonModel {
        match self {
            FilterValueModel::Number(n) => n.json(),
            FilterValueModel::Text(s) => JsonModel::Text(s),
            FilterValueModel::IdList(ids) => JsonModel::Array(string_models(ids)),
            FilterValueModel::Range(start, end) => JsonModel::Array(seq![start.json(), end.json()]),
        }
    }

    /// The value of a filter that a JSON value is read as: the first of
    /// number, text, list of texts and range that the value has the form
    /// of, if it has the form of one.
    pub open spec fn of_json(json: JsonModel) -> Option<FilterValueModel> {
        match json {
            JsonModel::Number(n) => Some(FilterValueModel::Number(Number::of_json(n))),
            JsonModel::Text(s) => Some(FilterValueModel::Text(s)),
            JsonModel::Array(items) => if all_texts(items) {
                Some(FilterValueModel::IdList(texts_of(items)))
            } else if items.len() == 2 && items[0] is Number && items[1] is Number {
                Some(
                    FilterValueModel::Range(
                        Number::of_json(items[0]->Number_0),
                        Number::of_json(items[1]->Number_0),
                    ),
                )
            } else {
                None
            },
            _ => None,
        }
    }

    /// Whether the value can be read back: its numbers are written as JSON
    /// numbers.
    pub open spec fn reads_back(self) -> bool {
        match self {
            FilterValueModel::Number(n) => n.is_written(),
            FilterValueModel::Range(start, end) => start.is_written() && end.is_written(),
            _ => true,
        }
    }

    /// Whether two values are the same: of one variant and with the same
    /// payload, where numbers are the same when their values are.
    pub open spec fn same(self, other: FilterValueModel) -> bool {
        match (self, other) {
            (FilterValueModel::Number(a), FilterValueModel::Number(b)) => a.order(b) == Some(
                Order::Equal,
            ),
            (FilterValueModel::Range(a, b), FilterValueModel::Range(c, d)) => a.order(c) == Some(
                Order::Equal,
            ) && b.order(d) == Some(Order::Equal),
            _ => self == other,
        }
    }

    /// Reading what a value of a filter is written as gives the value
    /// again, if its numbers are written as JSON numbers.
    pub proof fn lemma_json_round_trip(self)
        requires
            self.reads_back(),
        ensures
            Self::of_json(self.json()) matches Some(back) && self.same(back),
    {
        match self {
            FilterValueModel::Number(n) => {
                n.lemma_number_comes_back();
            },
            FilterValueModel::IdList(ids) => {
                let items = string_models(ids);
                assert(all_texts(items));
                assert(texts_of(items) =~= ids);
            },
            FilterValueModel::Range(start, end) => {
                start.lemma_number_comes_back();
                end.lemma_number_comes_back();
                let items = seq![start.json(), end.json()];
                assert(!(items[0] is Text));
                assert(!all_texts(items));
            },
            _ => {},
        }
    }
}

impl FilterValue {
    /// The JSON value that the value is written as.
    pub fn to_json(&self) -> (r: Json)
        ensures
            r@ == self@.json(),
    {
        match self {
            FilterValue::Number(n) => n.to_json(),
            FilterValue::Text(s) => Json::Text(s.clone()),
            FilterValue::IdList(ids) => {
                let items = texts_to_items(ids);
                proof {
                    lemma_array_model(items);
                }
                Json::Array(items)
            },
            FilterValue::Range(ends) => {
                let mut items: Vec<Json> = Vec::new();
                items.push(ends.0.to_json());
                items.push(ends.1.to_json());
                proof {
                    lemma_array_model(items);
                    assert(models(items@) =~= seq![ends.0.json(), ends.1.json()]);
                }
                Json::Array(items)
            },
        }
    }

    /// The value of a filter that a JSON value is read as.
    pub fn from_json(json: &Json) -> (r: Option<FilterValue>)
        ensures
            match r {
                Some(v) => FilterValueModel::of_json(json@) == Some(v@),
                None => FilterValueModel::of_json(json@) is None,
            },
    {
        match json {
            Json::Number(n) => Some(FilterValue::Number(Number::from_json(*n))),
            Json::Text(s) => Some(FilterValue::Text(s.clone())),
            Json::Array(items) => {
                proof {
                    lemma_array_model(*items);
                }
                if let Some(ids) = texts_from_items(items) {
                    return Some(FilterValue::IdList(ids));
                }
                if items.len() != 2 {
                    return None;
                }
                match (&items[0], &items[1]) {
                    (Json::Number(a), Json::Number(b)) => Some(
                        FilterValue::Range((Number::from_json(*a), Number::from_json(*b))),
                    ),
                    _ => None,
                }
            },
            _ => None,
        }
    }
}


impl FilterModel {
    /// The JSON object that the predicate is written as: its members
    /// `cond`, the name of the condition, `name` and `value`.
    pub open spec fn json(self) -> JsonModel {
        JsonModel::Object(
            seq![
                ("cond"@, JsonModel::Text(self.cond.spec_name())),
                ("name"@, JsonModel::Text(self.name)),
                ("value"@, self.value.json()),
            ],
        )
    }

    /// The predicate that a JSON value is read as: an object with a text
    /// `name`, the name of a condition as `cond`, and the value of a filter
    /// as `value`.
    pub open spec fn of_json(json: JsonModel) -> Option<FilterModel> {
        match (json.member("name"@), json.member("cond"@), json.member("value"@)) {
            (Some(JsonModel::Text(name)), Some(JsonModel::Text(cond)), Some(value)) => match (
                FilterConditionType::named(cond),
                FilterValueModel::of_json(value),
            ) {
                (Some(cond), Some(value)) => Some(FilterModel { name, cond, value }),
                _ => None,
            },
            _ => None,
        }
    }

    /// Reading what a predicate is written as gives the predicate again, if
    /// the numbers of its value are written as JSON numbers.
    pub proof fn lemma_json_round_trip(self)
        requires
            self.value.reads_back(),
        ensures
            Self::of_json(self.json()) matches Some(back) && back.name == self.name && back.cond
                == self.cond && self.value.same(back.value),
    {
        reveal_strlit("cond");
        reveal_strlit("name");
        reveal_strlit("value");
        assert("cond"@.len() == 4 && "cond"@[0] == 'c');
        assert("name"@.len() == 4 && "name"@[0] == 'n');
        assert("value"@.len() == 5);
        let members = seq![
            ("cond"@, JsonModel::Text(self.cond.spec_name())),
            ("name"@, JsonModel::Text(self.name)),
            ("value"@, self.value.json()),
        ];
        let second = members.drop_first();
        let third = second.drop_first();
        assert(second =~= seq![
            ("name"@, JsonModel::Text(self.name)),
            ("value"@, self.value.json()),
        ]);
        assert(third =~= seq![("value"@, self.value.json())]);
        assert(member_of(third, "value"@) == Some(self.value.json()));
        assert(member_of(second, "value"@) == Some(self.value.json()));
        assert(member_of(members, "value"@) == Some(self.value.json()));
        assert(member_of(second, "name"@) == Some(JsonModel::Text(self.name)));
        assert(member_of(members, "name"@) == Some(JsonModel::Text(self.name)));
        assert(member_of(members, "cond"@) == Some(JsonModel::Text(self.cond.spec_name())));
        self.cond.lemma_name_comes_back();
        self.value.lemma_json_round_trip();
    }
}

impl Filter {
    /// The JSON object that the predicate is written as.
    pub fn to_json(&self) -> (r: Json)
        ensures
            r@ == self@.json(),
    {
        let mut members: Vec<(String, Json)> = Vec::new();
        members.push((String::from_str("cond"), Json::Text(String::from_str(self.cond.as_name()))));
        members.push((String::from_str("name"), Json::Text(self.name.clone())));
        members.push((String::from_str("value"), self.value.to_json()));
        proof {
            lemma_object_model(members);
            assert(member_models(members@) =~= seq![
                ("cond"@, JsonModel::Text(self.cond.spec_name())),
                ("name"@, JsonModel::Text(self.name@)),
                ("value"@, self.value@.json()),
            ]);
        }
        Json::Object(members)
    }

    /// The predicate that a JSON value is read as.
    pub fn from_json(json: &Json) -> (r: Option<Filter>)
        ensures
            match r {
                Some(filter) => FilterModel::of_json(json@) == Some(filter@),
                None => FilterModel::of_json(json@) is None,
            },
    {
        let name = match json.member("name") {
            Some(Json::Text(name)) => name,
            _ => {
                return None;
            },
        };
        let cond = match json.member("cond") {
            Some(Json::Text(cond)) => cond,
            _ => {
                return None;
            },
        };
        let value = match json.member("value") {
            Some(value) => value,
            None => {
                return None;
            },
        };
        match (FilterConditionType::from_name(cond.as_str()), FilterValue::from_json(value)) {
            (Some(cond), Some(value)) => Some(Filter { name: name.clone(), cond, value }),
            _ => None,
        }
    }
}

} // verus!
