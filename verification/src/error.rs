//! The failures of accessors and coercions.
use vstd::prelude::*;
use vstd::string::*;

verus! {

/// The shape that a value was asked to have, or the kind of text that was
/// being read, when an operation failed.
#[derive(Clone, Copy, Debug, PartialEq, Eq, Structural)]
pub enum Shape {
    /// Any value that has a canonical text.
    AnyText,
    Text,
    Number,
    /// A number held as a single byte.
    Byte,
    Boolean,
    DateTime,
    Date,
    Time,
    StringList,
    NumberList,
    Url,
    Email,
    Phone,
    Address,
    Reference,
    ReferenceList,
    ObjectArray,
    Object,
}

/// Why an accessor or a coercion failed.
#[derive(Clone, Copy, Debug, PartialEq, Eq, Structural)]
pub enum ValueError {
    /// The value does not have the shape that was asked for.
    TypeMismatch(Shape),
    /// A text could not be read as the named kind of value.
    Format(Shape),
    /// Bytes or text were not a JSON document of the expected form.
    Decode,
    /// Bytes were not UTF-8 where text was required.
    Encoding,
    /// The combination of field type and operation is not supported.
    NotImplemented,
}

impl Shape {
    /// The name of the shape as messages spell it.
    pub open spec fn spec_label(self) -> Seq<char> {
        match self {
            Shape::AnyText => "String"@,
            Shape::Text => "Text"@,
            Shape::Number => "Number"@,
            Shape::Byte => "Byte"@,
            Shape::Boolean => "Boolean"@,
            Shape::DateTime => "DateTime"@,
            Shape::Date => "Date"@,
            Shape::Time => "Time"@,
            Shape::StringList => "String List"@,
            Shape::NumberList => "Number List"@,
            Shape::Url => "Url"@,
            Shape::Email => "Email"@,
            Shape::Phone => "Phone"@,
            Shape::Address => "Address"@,
            Shape::Reference => "Reference"@,
            Shape::ReferenceList => "Reference List"@,
            Shape::ObjectArray => "Object Array"@,
            Shape::Object => "Object"@,
        }
    }

    /// The name of the shape as messages spell it.
    pub fn label(self) -> (r: &'static str)
        ensures
            r@ == self.spec_label(),
    {
        match self {
            Shape::AnyText => "String",
            Shape::Text => "Text",
            Shape::Number => "Number",
            Shape::Byte => "Byte",
            Shape::Boolean => "Boolean",
            Shape::DateTime => "DateTime",
            Shape::Date => "Date",
            Shape::Time => "Time",
            Shape::StringList => "String List",
            Shape::NumberList => "Number List",
            Shape::Url => "Url",
            Shape::Email => "Email",
            Shape::Phone => "Phone",
            Shape::Address => "Address",
            Shape::Reference => "Reference",
            Shape::ReferenceList => "Reference List",
            Shape::ObjectArray => "Object Array",
            Shape::Object => "Object",
        }
    }
}

impl ValueError {
    /// The message of the failure.
    pub open spec fn spec_message(self) -> Seq<char> {
        match self {
            ValueError::TypeMismatch(shape) => "Unable to convert to "@ + shape.spec_label(),
            ValueError::Format(shape) => "Unable to parse as "@ + shape.spec_label(),
            ValueError::Decode => "Unable to decode JSON"@,
            ValueError::Encoding => "Invalid UTF-8"@,
            ValueError::NotImplemented => "Not implemented"@,
        }
    }

    /// The message of the failure.
    pub fn message(&self) -> (r: String)
        ensures
            r@ == self.spec_message(),
    {
        match self {
            ValueError::TypeMismatch(shape) => {
                String::from_str("Unable to convert to ").concat(shape.label())
            },
            ValueError::Format(shape) => {
                String::from_str("Unable to parse as ").concat(shape.label())
            },
            ValueError::Decode => String::from_str("Unable to decode JSON"),
            ValueError::Encoding => String::from_str("Invalid UTF-8"),
            ValueError::NotImplemented => String::from_str("Not implemented"),
        }
    }
}

} // verus!
