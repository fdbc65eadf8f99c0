//! Values that have been checked against the type of their field.
use crate::clock::{Date, OffsetDateTime, Time};
use crate::error::{Shape, ValueError};
use crate::id::{uuid_numbers, Uuid};
use crate::json::{models, Json, JsonModel};
use crate::link::Url;
use crate::text::texts;
use crate::value::Number;
use vstd::prelude::*;

verus! {

/// A value of a field, typed as the schema says.
#[derive(Debug, Clone)]
pub enum SchematicFieldValue {
    Text(String),
    Number(Number),
    Boolean(bool),
    Url(Url),
    Email(String),
    Phone(String),
    Address(String),
    DateTime(OffsetDateTime),
    Date(Date),
    Time(Time),
    Reference(Uuid),
    MultiReference(Vec<Uuid>),
    ListString(Vec<String>),
    ListNumber(Vec<Number>),
    Array(Vec<Json>),
    Object(Json),
}

/// What a typed value holds: the mathematical value that contracts speak of.
pub enum FieldValueModel {
    Text(Seq<char>),
    Number(Number),
    Boolean(bool),
    Url(Seq<char>),
    Email(Seq<char>),
    Phone(Seq<char>),
    Address(Seq<char>),
    DateTime(((int, int, int), (int, int, int, int), (int, int, int))),
    Date((int, int, int)),
    Time((int, int, int, int)),
    Reference(u128),
    MultiReference(Seq<u128>),
    ListString(Seq<Seq<char>>),
    ListNumber(Seq<Number>),
    Array(Seq<JsonModel>),
    Object(JsonModel),
}

impl View for SchematicFieldValue {
    type V = FieldValueModel;

    open spec fn view(&self) -> FieldValueModel {
        match self {
            SchematicFieldValue::Text(s) => FieldValueModel::Text(s@),
            SchematicFieldValue::Number(n) => FieldValueModel::Number(*n),
            SchematicFieldValue::Boolean(b) => FieldValueModel::Boolean(*b),
            SchematicFieldValue::Url(u) => FieldValueModel::Url(u@),
            SchematicFieldValue::Email(s) => FieldValueModel::Email(s@),
            SchematicFieldValue::Phone(s) => FieldValueModel::Phone(s@),
            SchematicFieldValue::Address(s) => FieldValueModel::Address(s@),
            SchematicFieldValue::DateTime(m) => FieldValueModel::DateTime(m@),
            SchematicFieldValue::Date(d) => FieldValueModel::Date(d@),
            SchematicFieldValue::Time(t) => FieldValueModel::Time(t@),
            SchematicFieldValue::Reference(u) => FieldValueModel::Reference(u.0),
            SchematicFieldValue::MultiReference(list) => FieldValueModel::MultiReference(
                uuid_numbers(list@),
            ),
            SchematicFieldValue::ListString(list) => FieldValueModel::ListString(texts(list@)),
            SchematicFieldValue::ListNumber(list) => FieldValueModel::ListNumber(list@),
            SchematicFieldValue::Array(items) => FieldValueModel::Array(models(items@)),
            SchematicFieldValue::Object(json) => FieldValueModel::Object(json@),
        }
    }
}

impl FieldValueModel {
    /// The shape of the value.
    pub open spec fn shape(self) -> Shape {
        match self {
            FieldValueModel::Text(_) => Shape::Text,
            FieldValueModel::Number(_) => Shape::Number,
            FieldValueModel::Boolean(_) => Shape::Boolean,
            FieldValueModel::Url(_) => Shape::Url,
            FieldValueModel::Email(_) => Shape::Email,
            FieldValueModel::Phone(_) => Shape::Phone,
            FieldValueModel::Address(_) => Shape::Address,
            FieldValueModel::DateTime(_) => Shape::DateTime,
            FieldValueModel::Date(_) => Shape::Date,
            FieldValueModel::Time(_) => Shape::Time,
            FieldValueModel::Reference(_) => Shape::Reference,
            FieldValueModel::MultiReference(_) => Shape::ReferenceList,
            FieldValueModel::ListString(_) => Shape::StringList,
            FieldValueModel::ListNumber(_) => Shape::NumberList,
            FieldValueModel::Array(_) => Shape::ObjectArray,
            FieldValueModel::Object(_) => Shape::Object,
        }
    }
}

impl SchematicFieldValue {
    /// The shape of the value.
    pub fn shape(&self) -> (r: Shape)
        ensures
            r == self@.shape(),
    {
        match self {
            SchematicFieldValue::Text(_) => Shape::Text,
            SchematicFieldValue::Number(_) => Shape::Number,
            SchematicFieldValue::Boolean(_) => Shape::Boolean,
            SchematicFieldValue::Url(_) => Shape::Url,
            SchematicFieldValue::Email(_) => Shape::Email,
            SchematicFieldValue::Phone(_) => Shape::Phone,
            SchematicFieldValue::Address(_) => Shape::Address,
            SchematicFieldValue::DateTime(_) => Shape::DateTime,
            SchematicFieldValue::Date(_) => Shape::Date,
            SchematicFieldValue::Time(_) => Shape::Time,
            SchematicFieldValue::Reference(_) => Shape::Reference,
            SchematicFieldValue::MultiReference(_) => Shape::ReferenceList,
            SchematicFieldValue::ListString(_) => Shape::StringList,
            SchematicFieldValue::ListNumber(_) => Shape::NumberList,
            SchematicFieldValue::Array(_) => Shape::ObjectArray,
            SchematicFieldValue::Object(_) => Shape::Object,
        }
    }

    /// The identity of a `Reference`; any other value is a mismatch.
    pub fn try_as_reference(self) -> (r: Result<Uuid, ValueError>)
        ensures
            r == (match self {
                SchematicFieldValue::Reference(u) => Ok::<Uuid, ValueError>(u),
                _ => Err(ValueError::TypeMismatch(Shape::Reference)),
            }),
    {
        if let SchematicFieldValue::Reference(v) = self {
            Ok(v)
        } else {
            Err(ValueError::TypeMismatch(Shape::Reference))
        }
    }

    /// The text of a `Text`; any other value is a mismatch.
    pub fn try_as_text(self) -> (r: Result<String, ValueError>)
        ensures
            r == (match self {
                SchematicFieldValue::Text(s) => Ok::<String, ValueError>(s),
                _ => Err(ValueError::TypeMismatch(Shape::Text)),
            }),
    {
        if let SchematicFieldValue::Text(v) = self {
            Ok(v)
        } else {
            Err(ValueError::TypeMismatch(Shape::Text))
        }
    }

    /// The number of a `Number`; any other value is a mismatch.
    pub fn try_as_number(&self) -> (r: Result<Number, ValueError>)
        ensures
            r == (match *self {
                SchematicFieldValue::Number(n) => Ok::<Number, ValueError>(n),
                _ => Err(ValueError::TypeMismatch(Shape::Number)),
            }),
    {
        if let SchematicFieldValue::Number(v) = self {
            Ok(*v)
        } else {
            Err(ValueError::TypeMismatch(Shape::Number))
        }
    }

    /// The boolean of a `Boolean`; any other value is a mismatch.
    pub fn try_as_boolean(&self) -> (r: Result<bool, ValueError>)
        ensures
            r == (match *self {
                SchematicFieldValue::Boolean(b) => Ok::<bool, ValueError>(b),
                _ => Err(ValueError::TypeMismatch(Shape::Boolean)),
            }),
    {
        if let SchematicFieldValue::Boolean(v) = self {
            Ok(*v)
        } else {
            Err(ValueError::TypeMismatch(Shape::Boolean))
        }
    }

    /// The address of a `Url`; any other value is a mismatch.
    pub fn try_as_url(self) -> (r: Result<Url, ValueError>)
        ensures
            r == (match self {
                SchematicFieldValue::Url(u) => Ok::<Url, ValueError>(u),
                _ => Err(ValueError::TypeMismatch(Shape::Url)),
            }),
    {
        if let SchematicFieldValue::Url(v) = self {
            Ok(v)
        } else {
            Err(ValueError::TypeMismatch(Shape::Url))
        }
    }

    /// The text of an `Email`; any other value is a mismatch.
    pub fn try_as_email(self) -> (r: Result<String, ValueError>)
        ensures
            r == (match self {
                SchematicFieldValue::Email(s) => Ok::<String, ValueError>(s),
                _ => Err(ValueError::TypeMismatch(Shape::Email)),
            }),
    {
        if let SchematicFieldValue::Email(v) = self {
            Ok(v)
        } else {
            Err(ValueError::TypeMismatch(Shape::Email))
        }
    }

    /// The text of a `Phone`; any other value is a mismatch.
    pub fn try_as_phone(self) -> (r: Result<String, ValueError>)
        ensures
            r == (match self {
                SchematicFieldValue::Phone(s) => Ok::<String, ValueError>(s),
                _ => Err(ValueError::TypeMismatch(Shape::Phone)),
            }),
    {
        if let SchematicFieldValue::Phone(v) = self {
            Ok(v)
        } else {
            Err(ValueError::TypeMismatch(Shape::Phone))
        }
    }

    /// The text of an `Address`; any other value is a mismatch.
    pub fn try_as_address(self) -> (r: Result<String, ValueError>)
        ensures
            r == (match self {
                SchematicFieldValue::Address(s) => Ok::<String, ValueError>(s),
                _ => Err(ValueError::TypeMismatch(Shape::Address)),
            }),
    {
        if let SchematicFieldValue::Address(v) = self {
            Ok(v)
        } else {
            Err(ValueError::TypeMismatch(Shape::Address))
        }
    }

    /// The moment of a `DateTime`; any other value is a mismatch.
    pub fn try_as_date_time(&self) -> (r: Result<OffsetDateTime, ValueError>)
        ensures
            r == (match *self {
                SchematicFieldValue::DateTime(m) => Ok::<OffsetDateTime, ValueError>(m),
                _ => Err(ValueError::TypeMismatch(Shape::DateTime)),
            }),
    {
        if let SchematicFieldValue::DateTime(v) = self {
            Ok(*v)
        } else {
            Err(ValueError::TypeMismatch(Shape::DateTime))
        }
    }

    /// The date of a `Date`; any other value is a mismatch.
    pub fn try_as_date(&self) -> (r: Result<Date, ValueError>)
        ensures
            r == (match *self {
                SchematicFieldValue::Date(d) => Ok::<Date, ValueError>(d),
                _ => Err(ValueError::TypeMismatch(Shape::Date)),
            }),
    {
        if let SchematicFieldValue::Date(v) = self {
            Ok(*v)
        } else {
            Err(ValueError::TypeMismatch(Shape::Date))
        }
    }

    /// The time of a `Time`; any other value is a mismatch.
    pub fn try_as_time(&self) -> (r: Result<Time, ValueError>)
        ensures
            r == (match *self {
                SchematicFieldValue::Time(t) => Ok::<Time, ValueError>(t),
                _ => Err(ValueError::TypeMismatch(Shape::Time)),
            }),
    {
        if let SchematicFieldValue::Time(v) = self {
            Ok(*v)
        } else {
            Err(ValueError::TypeMismatch(Shape::Time))
        }
    }

    /// The list of a `ListString`; any other value is a mismatch.
    pub fn try_as_list_string(self) -> (r: Result<Vec<String>, ValueError>)
        ensures
            r == (match self {
                SchematicFieldValue::ListString(list) => Ok::<Vec<String>, ValueError>(list),
                _ => Err(ValueError::TypeMismatch(Shape::StringList)),
            }),
    {
        if let SchematicFieldValue::ListString(v) = self {
            Ok(v)
        } else {
            Err(ValueError::TypeMismatch(Shape::StringList))
        }
    }

    /// The list of a `ListNumber`; any other value is a mismatch.
    pub fn try_as_list_number(self) -> (r: Result<Vec<Number>, ValueError>)
        ensures
            r == (match self {
                SchematicFieldValue::ListNumber(list) => Ok::<Vec<Number>, ValueError>(list),
                _ => Err(ValueError::TypeMismatch(Shape::NumberList)),
            }),
    {
        if let SchematicFieldValue::ListNumber(v) = self {
            Ok(v)
        } else {
            Err(ValueError::TypeMismatch(Shape::NumberList))
        }
    }

    /// The identities of a `MultiReference`; any other value is a mismatch.
    pub fn try_as_list_reference(self) -> (r: Result<Vec<Uuid>, ValueError>)
        ensures
            r == (match self {
                SchematicFieldValue::MultiReference(list) => Ok::<Vec<Uuid>, ValueError>(list),
                _ => Err(ValueError::TypeMismatch(Shape::ReferenceList)),
            }),
    {
        if let SchematicFieldValue::MultiReference(v) = self {
            Ok(v)
        } else {
            Err(ValueError::TypeMismatch(Shape::ReferenceList))
        }
    }

    /// The items of an `Array`; any other value is a mismatch.
    pub fn try_as_array(self) -> (r: Result<Vec<Json>, ValueError>)
        ensures
            r == (match self {
                SchematicFieldValue::Array(items) => Ok::<Vec<Json>, ValueError>(items),
                _ => Err(ValueError::TypeMismatch(Shape::ObjectArray)),
            }),
    {
        if let SchematicFieldValue::Array(v) = self {
            Ok(v)
        } else {
            Err(ValueError::TypeMismatch(Shape::ObjectArray))
        }
    }

    /// The JSON value of an `Object`; any other value is a mismatch.
    pub fn try_as_object(self) -> (r: Result<Json, ValueError>)
        ensures
            r == (match self {
                SchematicFieldValue::Object(json) => Ok::<Json, ValueError>(json),
                _ => Err(ValueError::TypeMismatch(Shape::Object)),
            }),
    {
        if let SchematicFieldValue::Object(v) = self {
            Ok(v)
        } else {
            Err(ValueError::TypeMismatch(Shape::Object))
        }
    }
}

} // verus!
