//! Numbers and loosely typed values as they arrive from a client.
use crate::clock::{days_before_month, Date, OffsetDateTime, Time};
use crate::double::{
    double_of_int, is_finite, is_nan, of_i64, order_of, order_scaled, scaled, to_i32, to_i64,
    to_integer, Order, HIDDEN_BIT, SIGN_BIT,
};
use vstd::arithmetic::power2::{lemma_pow2_pos, pow2};
use crate::error::{Shape, ValueError};
use crate::json::{clone_items, lemma_array_model, models, Json, JsonModel, JsonNumber};
use crate::text::{push_signed_decimal, signed_decimal, texts};
use vstd::prelude::*;
use vstd::string::*;

verus! {

/// A number: a single byte, a signed whole number, or a double given by its
/// IEEE 754 bit pattern.
#[derive(Debug, Clone, Copy)]
pub enum Number {
    Byte(u8),
    Integer(i64),
    Float(u64),
}

impl Number {
    /// The byte of a `Byte`; any other number is a mismatch.
    pub fn into_u8(self) -> (r: Result<u8, ValueError>)
        ensures
            r == (match self {
                Number::Byte(v) => Ok::<u8, ValueError>(v),
                _ => Err(ValueError::TypeMismatch(Shape::Byte)),
            }),
    {
        if let Number::Byte(v) = self {
            Ok(v)
        } else {
            Err(ValueError::TypeMismatch(Shape::Byte))
        }
    }

    /// The bit pattern of the number as a double: that of the nearest double
    /// for a whole number, the pattern itself for a double.
    pub open spec fn spec_convert_f64(self) -> int {
        match self {
            Number::Byte(v) => double_of_int(v as int),
            Number::Integer(v) => double_of_int(v as int),
            Number::Float(bits) => bits as int,
        }
    }

    /// The number as a 64-bit signed integer: itself for a whole number; for
    /// a double zero if it is a NaN, else the double rounded toward zero, the
    /// nearest bound where that lies outside the range.
    pub open spec fn spec_convert_i64(self) -> int {
        match self {
            Number::Byte(v) => v as int,
            Number::Integer(v) => v as int,
            Number::Float(bits) => to_integer(bits, i64::MIN as int, i64::MAX as int),
        }
    }

    /// The number as a 32-bit signed integer: itself for a byte; the low 32
    /// bits, read as signed, for a whole number; for a double zero if it is
    /// a NaN, else the double rounded toward zero, the nearest bound where
    /// that lies outside the range.
    pub open spec fn spec_convert_i32(self) -> int {
        match self {
            Number::Byte(v) => v as int,
            Number::Integer(v) => (v as i32) as int,
            Number::Float(bits) => to_integer(bits, i32::MIN as int, i32::MAX as int),
        }
    }

    /// The number as a double, given by its bit pattern. Never fails.
    pub fn convert_f64(self) -> (r: u64)
        ensures
            r == self.spec_convert_f64(),
    {
        match self {
            Number::Byte(v) => of_i64(v as i64),
            Number::Integer(v) => of_i64(v),
            Number::Float(bits) => bits,
        }
    }

    /// The number as a 64-bit signed integer. Never fails.
    pub fn convert_i64(self) -> (r: i64)
        ensures
            r == self.spec_convert_i64(),
    {
        match self {
            Number::Byte(v) => v as i64,
            Number::Integer(v) => v,
            Number::Float(bits) => to_i64(bits),
        }
    }

    /// The number as a 32-bit signed integer. Never fails.
    pub fn convert_i32(self) -> (r: i32)
        ensures
            r == self.spec_convert_i32(),
    {
        match self {
            Number::Byte(v) => v as i32,
            Number::Integer(v) => #[verifier::truncate]
            (v as i32),
            Number::Float(bits) => to_i32(bits),
        }
    }

    /// The double with the given bit pattern.
    pub fn from_bits(bits: u64) -> (r: Number)
        ensures
            r == Number::Float(bits),
    {
        Number::Float(bits)
    }

    /// The decimal text of a whole number. The text of a double is not
    /// produced here.
    pub open spec fn text(self) -> Result<Seq<char>, ValueError> {
        match self {
            Number::Byte(v) => Ok(signed_decimal(v as int)),
            Number::Integer(v) => Ok(signed_decimal(v as int)),
            Number::Float(_) => Err(ValueError::NotImplemented),
        }
    }

    /// The decimal text of a whole number; for a double the failure
    /// `NotImplemented`.
    pub fn to_text(&self) -> (r: Result<String, ValueError>)
        ensures
            match r {
                Ok(s) => self.text() == Ok::<Seq<char>, ValueError>(s@),
                Err(e) => self.text() == Err::<Seq<char>, ValueError>(e),
            },
    {
        match self {
            Number::Byte(v) => {
                let mut out = String::new();
                push_signed_decimal(&mut out, *v as i64);
                assert(out@ =~= signed_decimal(*v as int));
                Ok(out)
            },
            Number::Integer(v) => {
                let mut out = String::new();
                push_signed_decimal(&mut out, *v);
                assert(out@ =~= signed_decimal(*v as int));
                Ok(out)
            },
            Number::Float(_) => Err(ValueError::NotImplemented),
        }
    }

    /// The JSON value that the number is written as: a JSON number, but
    /// `null` for a double that is infinite or a NaN.
    pub open spec fn json(self) -> JsonModel {
        match self {
            Number::Byte(v) => JsonModel::Number(JsonNumber::PosInt(v as u64)),
            Number::Integer(v) => JsonModel::Number(JsonNumber::of_int(v as int)),
            Number::Float(bits) => if is_finite(bits) {
                JsonModel::Number(JsonNumber::Float(bits))
            } else {
                JsonModel::Null
            },
        }
    }

    /// The JSON value that the number is written as.
    pub fn to_json(&self) -> (r: Json)
        ensures
            r@ == self.json(),
    {
        match self {
            Number::Byte(v) => Json::Number(JsonNumber::PosInt(*v as u64)),
            Number::Integer(v) => Json::Number(JsonNumber::from_i64(*v)),
            Number::Float(bits) => {
                if (*bits / HIDDEN_BIT) % 0x800 != 0x7ff {
                    Json::Number(JsonNumber::Float(*bits))
                } else {
                    Json::Null
                }
            },
        }
    }
}

/// A number as sign, whole magnitude and power of two.
struct Parts {
    negative: bool,
    magnitude: u64,
    shift: u32,
}

impl Parts {
    spec fn value(self) -> int {
        if self.negative {
            -(self.magnitude * pow2(self.shift as nat))
        } else {
            self.magnitude * pow2(self.shift as nat)
        }
    }
}

impl Number {
    /// The value of the number multiplied by two to the power 1074, which
    /// makes a whole number of every double; `None` for a NaN. An infinity
    /// comes out beyond every number.
    pub open spec fn scaled(self) -> Option<int> {
        match self {
            Number::Byte(v) => Some(v * pow2(1074)),
            Number::Integer(v) => Some(v * pow2(1074)),
            Number::Float(bits) => if is_nan(bits) {
                None
            } else {
                Some(scaled(bits))
            },
        }
    }

    /// How the value of the number stands to the value of `other`, whatever
    /// the variants; `None` where either is a NaN.
    pub open spec fn order(self, other: Number) -> Option<Order> {
        match (self.scaled(), other.scaled()) {
            (Some(a), Some(b)) => Some(order_of(a, b)),
            _ => None,
        }
    }

    fn parts(&self) -> (r: Option<Parts>)
        ensures
            match r {
                Some(p) => self.scaled() == Some(p.value()) && p.shift <= 4096,
                None => self.scaled() is None,
            },
    {
        match self {
            Number::Byte(v) => Some(Parts { negative: false, magnitude: *v as u64, shift: 1074 }),
            Number::Integer(v) => {
                if *v < 0 {
                    let magnitude: u64 = if *v == i64::MIN {
                        SIGN_BIT
                    } else {
                        (-*v) as u64
                    };
                    assert(*v * pow2(1074) == -(magnitude * pow2(1074))) by (nonlinear_arith)
                        requires
                            *v == -magnitude,
                    ;
                    Some(Parts { negative: true, magnitude, shift: 1074 })
                } else {
                    Some(Parts { negative: false, magnitude: *v as u64, shift: 1074 })
                }
            },
            Number::Float(bits) => {
                let e: u64 = (*bits / HIDDEN_BIT) % 0x800;
                let f: u64 = *bits % HIDDEN_BIT;
                if e == 0x7ff && f != 0 {
                    return None;
                }
                let negative = *bits >= SIGN_BIT;
                proof {
                    vstd::arithmetic::power2::lemma2_to64();
                }
                if e == 0 {
                    assert(f * pow2(0) == f) by (nonlinear_arith)
                        requires
                            pow2(0) == 1,
                    ;
                    Some(Parts { negative, magnitude: f, shift: 0 })
                } else {
                    Some(Parts { negative, magnitude: HIDDEN_BIT + f, shift: (e - 1) as u32 })
                }
            },
        }
    }

    /// How the value of the number stands to the value of `other`.
    pub fn numeric_order(&self, other: &Number) -> (r: Option<Order>)
        ensures
            r == self.order(*other),
    {
        let a = match self.parts() {
            Some(p) => p,
            None => {
                return None;
            },
        };
        let b = match other.parts() {
            Some(p) => p,
            None => {
                return None;
            },
        };
        let between = order_scaled(a.magnitude, a.shift, b.magnitude, b.shift);
        proof {
            lemma_pow2_pos(a.shift as nat);
            lemma_pow2_pos(b.shift as nat);
            assert(a.magnitude * pow2(a.shift as nat) >= 0) by (nonlinear_arith)
                requires
                    pow2(a.shift as nat) > 0,
                    a.magnitude >= 0,
            ;
            assert(b.magnitude * pow2(b.shift as nat) >= 0) by (nonlinear_arith)
                requires
                    pow2(b.shift as nat) > 0,
                    b.magnitude >= 0,
            ;
        }
        if a.negative == b.negative {
            if a.negative {
                Some(
                    match between {
                        Order::Less => Order::Greater,
                        Order::Equal => Order::Equal,
                        Order::Greater => Order::Less,
                    },
                )
            } else {
                Some(between)
            }
        } else if between == Order::Equal && a.magnitude == 0 {
            proof {
                assert(a.magnitude * pow2(a.shift as nat) == 0) by (nonlinear_arith)
                    requires
                        a.magnitude == 0,
                ;
            }
            Some(Order::Equal)
        } else {
            proof {
                assert(a.magnitude > 0 ==> a.magnitude * pow2(a.shift as nat) > 0)
                    by (nonlinear_arith)
                    requires
                        pow2(a.shift as nat) > 0,
                ;
                assert(a.magnitude == 0 ==> a.magnitude * pow2(a.shift as nat) == 0)
                    by (nonlinear_arith);
            }
            if a.negative {
                Some(Order::Less)
            } else {
                Some(Order::Greater)
            }
        }
    }

    /// Whether the two numbers have the same value. A NaN has the value of
    /// no number, itself included.
    pub fn same_value(&self, other: &Number) -> (r: bool)
        ensures
            r == (self.order(*other) == Some(Order::Equal)),
    {
        match self.numeric_order(other) {
            Some(Order::Equal) => true,
            _ => false,
        }
    }
}

impl Number {
    /// The conversions agree with each other on whole numbers of up to 53
    /// binary digits, every byte among them: as a double and back as an
    /// integer, such a number is itself.
    pub proof fn lemma_conversions_agree(self)
        requires
            self matches Number::Integer(v) ==> -0x20_0000_0000_0000 < v < 0x20_0000_0000_0000,
            !(self is Float),
        ensures
            0 <= self.spec_convert_f64() <= u64::MAX,
            Number::Float(self.spec_convert_f64() as u64).spec_convert_i64()
                == self.spec_convert_i64(),
    {
        crate::double::lemma_whole_number_comes_back(self.spec_convert_i64());
    }
}

impl Default for Number {
    fn default() -> (r: Number)
        ensures
            r == Number::Integer(0),
    {
        Number::Integer(0)
    }
}


/// A value as it arrives from a client or a generic store, before the
/// schema has been applied to it.
#[derive(Debug, Clone, PartialEq)]
pub enum SimpleValue {
    Text(String),
    Number(Number),
    Boolean(bool),
    DateTime(OffsetDateTime),
    Date(Date),
    Time(Time),
    ListString(Vec<String>),
    ListNumber(Vec<Number>),
    ArrayUnknown(Vec<Json>),
    ObjectUnknown(Json),
}

/// What a loosely typed value holds: the mathematical value that contracts
/// speak of.
pub enum ValueModel {
    Text(Seq<char>),
    Number(Number),
    Boolean(bool),
    DateTime(((int, int, int), (int, int, int, int), (int, int, int))),
    Date((int, int, int)),
    Time((int, int, int, int)),
    ListString(Seq<Seq<char>>),
    ListNumber(Seq<Number>),
    ArrayUnknown(Seq<JsonModel>),
    ObjectUnknown(JsonModel),
}

impl View for SimpleValue {
    type V = ValueModel;

    open spec fn view(&self) -> ValueModel {
        match self {
            SimpleValue::Text(s) => ValueModel::Text(s@),
            SimpleValue::Number(n) => ValueModel::Number(*n),
            SimpleValue::Boolean(b) => ValueModel::Boolean(*b),
            SimpleValue::DateTime(m) => ValueModel::DateTime(m@),
            SimpleValue::Date(d) => ValueModel::Date(d@),
            SimpleValue::Time(t) => ValueModel::Time(t@),
            SimpleValue::ListString(list) => ValueModel::ListString(texts(list@)),
            SimpleValue::ListNumber(list) => ValueModel::ListNumber(list@),
            SimpleValue::ArrayUnknown(items) => ValueModel::ArrayUnknown(models(items@)),
            SimpleValue::ObjectUnknown(json) => ValueModel::ObjectUnknown(json@),
        }
    }
}

/// The JSON array of the given whole numbers.
pub open spec fn whole_numbers(values: Seq<int>) -> JsonModel {
    JsonModel::Array(
        Seq::new(values.len(), |i: int| JsonModel::Number(JsonNumber::of_int(values[i]))),
    )
}

/// Whether every number of the list is a `Byte`.
pub open spec fn all_bytes(list: Seq<Number>) -> bool {
    forall|i: int| 0 <= i < list.len() ==> list[i] is Byte
}

/// The bytes of a list of `Byte`s.
pub open spec fn bytes_of(list: Seq<Number>) -> Seq<u8> {
    Seq::new(list.len(), |i: int| list[i]->Byte_0)
}

fn json_of_numbers(values: &Vec<i64>) -> (r: Json)
    ensures
        r@ == whole_numbers(Seq::new(values@.len(), |i: int| values@[i] as int)),
{
    let mut items: Vec<Json> = Vec::new();
    let mut i: usize = 0;
    while i < values.len()
        invariant
            i <= values.len(),
            items@.len() == i,
            forall|j: int|
                0 <= j < i ==> items@[j]@ == JsonModel::Number(
                    JsonNumber::of_int(values@[j] as int),
                ),
        decreases values.len() - i,
    {
        items.push(Json::Number(JsonNumber::from_i64(values[i])));
        i += 1;
    }
    proof {
        lemma_array_model(items);
        assert(models(items@) =~= Seq::new(
            values@.len(),
            |i: int|
                JsonModel::Number(
                    JsonNumber::of_int(Seq::new(values@.len(), |i: int| values@[i] as int)[i]),
                ),
        ));
    }
    Json::Array(items)
}

impl SimpleValue {
    /// The canonical text of the value: of a text itself, of a whole number
    /// its decimal form, of a boolean `true` or `false`, of a moment, a date
    /// or a time its canonical text. A list, an array and an object have
    /// none; the text of a double is not produced here.
    pub open spec fn text(self) -> Result<Seq<char>, ValueError> {
        match self {
            SimpleValue::Text(s) => Ok(s@),
            SimpleValue::Number(n) => n.text(),
            SimpleValue::Boolean(b) => Ok(
                if b {
                    "true"@
                } else {
                    "false"@
                },
            ),
            SimpleValue::DateTime(m) => Ok(m.text()),
            SimpleValue::Date(d) => Ok(d.text()),
            SimpleValue::Time(t) => Ok(t.text()),
            _ => Err(ValueError::TypeMismatch(Shape::AnyText)),
        }
    }

    /// The canonical text of the value. It fails with a mismatch for a list,
    /// an array and an object, and with `NotImplemented` for a double.
    pub fn any_as_text(&self) -> (r: Result<String, ValueError>)
        ensures
            match r {
                Ok(s) => self.text() == Ok::<Seq<char>, ValueError>(s@),
                Err(e) => self.text() == Err::<Seq<char>, ValueError>(e),
            },
    {
        match self {
            SimpleValue::Text(s) => Ok(s.clone()),
            SimpleValue::Number(n) => n.to_text(),
            SimpleValue::Boolean(b) => {
                if *b {
                    Ok(String::from_str("true"))
                } else {
                    Ok(String::from_str("false"))
                }
            },
            SimpleValue::DateTime(m) => {
                let mut out = String::new();
                m.push_text(&mut out);
                assert(out@ =~= m.text());
                Ok(out)
            },
            SimpleValue::Date(d) => {
                let mut out = String::new();
                d.push_text(&mut out);
                assert(out@ =~= d.text());
                Ok(out)
            },
            SimpleValue::Time(t) => {
                let mut out = String::new();
                t.push_text(&mut out);
                assert(out@ =~= t.text());
                Ok(out)
            },
            _ => Err(ValueError::TypeMismatch(Shape::AnyText)),
        }
    }

    /// The text of a `Text`; any other value is a mismatch.
    pub fn try_as_text(self) -> (r: Result<String, ValueError>)
        ensures
            r == (match self {
                SimpleValue::Text(s) => Ok::<String, ValueError>(s),
                _ => Err(ValueError::TypeMismatch(Shape::Text)),
            }),
    {
        if let SimpleValue::Text(v) = self {
            Ok(v)
        } else {
            Err(ValueError::TypeMismatch(Shape::Text))
        }
    }

    /// The number of a `Number`; any other value is a mismatch.
    pub fn try_as_number(&self) -> (r: Result<Number, ValueError>)
        ensures
            r == (match *self {
                SimpleValue::Number(n) => Ok::<Number, ValueError>(n),
                _ => Err(ValueError::TypeMismatch(Shape::Number)),
            }),
    {
        if let SimpleValue::Number(v) = self {
            Ok(*v)
        } else {
            Err(ValueError::TypeMismatch(Shape::Number))
        }
    }

    /// The boolean of a `Boolean`; any other value is a mismatch.
    pub fn try_as_boolean(&self) -> (r: Result<bool, ValueError>)
        ensures
            r == (match *self {
                SimpleValue::Boolean(b) => Ok::<bool, ValueError>(b),
                _ => Err(ValueError::TypeMismatch(Shape::Boolean)),
            }),
    {
        if let SimpleValue::Boolean(v) = self {
            Ok(*v)
        } else {
            Err(ValueError::TypeMismatch(Shape::Boolean))
        }
    }

    /// The moment of a `DateTime`; any other value is a mismatch.
    pub fn try_as_date_time(&self) -> (r: Result<OffsetDateTime, ValueError>)
        ensures
            r == (match *self {
                SimpleValue::DateTime(m) => Ok::<OffsetDateTime, ValueError>(m),
                _ => Err(ValueError::TypeMismatch(Shape::DateTime)),
            }),
    {
        if let SimpleValue::DateTime(v) = self {
            Ok(*v)
        } else {
            Err(ValueError::TypeMismatch(Shape::DateTime))
        }
    }

    /// The date of a `Date`; any other value is a mismatch.
    pub fn try_as_date(&self) -> (r: Result<Date, ValueError>)
        ensures
            r == (match *self {
                SimpleValue::Date(d) => Ok::<Date, ValueError>(d),
                _ => Err(ValueError::TypeMismatch(Shape::Date)),
            }),
    {
        if let SimpleValue::Date(v) = self {
            Ok(*v)
        } else {
            Err(ValueError::TypeMismatch(Shape::Date))
        }
    }

    /// The time of a `Time`; any other value is a mismatch.
    pub fn try_as_time(&self) -> (r: Result<Time, ValueError>)
        ensures
            r == (match *self {
                SimpleValue::Time(t) => Ok::<Time, ValueError>(t),
                _ => Err(ValueError::TypeMismatch(Shape::Time)),
            }),
    {
        if let SimpleValue::Time(v) = self {
            Ok(*v)
        } else {
            Err(ValueError::TypeMismatch(Shape::Time))
        }
    }

    /// The list of a `ListString`; any other value is a mismatch.
    pub fn try_as_list_string(self) -> (r: Result<Vec<String>, ValueError>)
        ensures
            r == (match self {
                SimpleValue::ListString(list) => Ok::<Vec<String>, ValueError>(list),
                _ => Err(ValueError::TypeMismatch(Shape::StringList)),
            }),
    {
        if let SimpleValue::ListString(v) = self {
            Ok(v)
        } else {
            Err(ValueError::TypeMismatch(Shape::StringList))
        }
    }

    /// The list of a `ListNumber`; any other value is a mismatch.
    pub fn try_as_list_number(self) -> (r: Result<Vec<Number>, ValueError>)
        ensures
            r == (match self {
                SimpleValue::ListNumber(list) => Ok::<Vec<Number>, ValueError>(list),
                _ => Err(ValueError::TypeMismatch(Shape::NumberList)),
            }),
    {
        if let SimpleValue::ListNumber(v) = self {
            Ok(v)
        } else {
            Err(ValueError::TypeMismatch(Shape::NumberList))
        }
    }

    /// The bytes of a `ListNumber` that holds nothing but `Byte`s. Any other
    /// value is a mismatch with a list of numbers, and a list with another
    /// kind of number in it a mismatch with a byte.
    pub fn try_as_bytes(self) -> (r: Result<Vec<u8>, ValueError>)
        ensures
            match self {
                SimpleValue::ListNumber(list) => if all_bytes(list@) {
                    r matches Ok(bytes) && bytes@ == bytes_of(list@)
                } else {
                    r == Err::<Vec<u8>, ValueError>(ValueError::TypeMismatch(Shape::Byte))
                },
                _ => r == Err::<Vec<u8>, ValueError>(ValueError::TypeMismatch(Shape::NumberList)),
            },
    {
        if let SimpleValue::ListNumber(list) = self {
            let mut bytes: Vec<u8> = Vec::new();
            let mut i: usize = 0;
            while i < list.len()
                invariant
                    i <= list.len(),
                    bytes@.len() == i,
                    self == SimpleValue::ListNumber(list),
                    forall|j: int| 0 <= j < i ==> list@[j] == Number::Byte(bytes@[j]),
                decreases list.len() - i,
            {
                match list[i].into_u8() {
                    Ok(b) => bytes.push(b),
                    Err(e) => {
                        assert(!(list@[i as int] is Byte));
                        return Err(e);
                    },
                }
                i += 1;
            }
            assert(all_bytes(list@));
            assert(bytes@ =~= bytes_of(list@));
            Ok(bytes)
        } else {
            Err(ValueError::TypeMismatch(Shape::NumberList))
        }
    }

    /// The value itself if it is a `Text`, else a mismatch.
    pub fn ensure_text(self) -> (r: Result<SimpleValue, ValueError>)
        ensures
            r == (if self is Text {
                Ok::<SimpleValue, ValueError>(self)
            } else {
                Err(ValueError::TypeMismatch(Shape::Text))
            }),
    {
        if let SimpleValue::Text(_) = &self {
            Ok(self)
        } else {
            Err(ValueError::TypeMismatch(Shape::Text))
        }
    }

    /// The value itself if it is a `Number`, else a mismatch.
    pub fn ensure_number(self) -> (r: Result<SimpleValue, ValueError>)
        ensures
            r == (if self is Number {
                Ok::<SimpleValue, ValueError>(self)
            } else {
                Err(ValueError::TypeMismatch(Shape::Number))
            }),
    {
        if let SimpleValue::Number(_) = &self {
            Ok(self)
        } else {
            Err(ValueError::TypeMismatch(Shape::Number))
        }
    }

    /// The value itself if it is a `Boolean`, else a mismatch.
    pub fn ensure_boolean(self) -> (r: Result<SimpleValue, ValueError>)
        ensures
            r == (if self is Boolean {
                Ok::<SimpleValue, ValueError>(self)
            } else {
                Err(ValueError::TypeMismatch(Shape::Boolean))
            }),
    {
        if let SimpleValue::Boolean(_) = &self {
            Ok(self)
        } else {
            Err(ValueError::TypeMismatch(Shape::Boolean))
        }
    }

    /// The value itself if it is a `DateTime`, else a mismatch.
    pub fn ensure_date_time(self) -> (r: Result<SimpleValue, ValueError>)
        ensures
            r == (if self is DateTime {
                Ok::<SimpleValue, ValueError>(self)
            } else {
                Err(ValueError::TypeMismatch(Shape::DateTime))
            }),
    {
        if let SimpleValue::DateTime(_) = &self {
            Ok(self)
        } else {
            Err(ValueError::TypeMismatch(Shape::DateTime))
        }
    }

    /// The value itself if it is a `Date`, else a mismatch.
    pub fn ensure_date(self) -> (r: Result<SimpleValue, ValueError>)
        ensures
            r == (if self is Date {
                Ok::<SimpleValue, ValueError>(self)
            } else {
                Err(ValueError::TypeMismatch(Shape::Date))
            }),
    {
        if let SimpleValue::Date(_) = &self {
            Ok(self)
        } else {
            Err(ValueError::TypeMismatch(Shape::Date))
        }
    }

    /// The value itself if it is a `Time`, else a mismatch.
    pub fn ensure_time(self) -> (r: Result<SimpleValue, ValueError>)
        ensures
            r == (if self is Time {
                Ok::<SimpleValue, ValueError>(self)
            } else {
                Err(ValueError::TypeMismatch(Shape::Time))
            }),
    {
        if let SimpleValue::Time(_) = &self {
            Ok(self)
        } else {
            Err(ValueError::TypeMismatch(Shape::Time))
        }
    }

    /// The value itself if it is a `ListString`, else a mismatch.
    pub fn ensure_list_string(self) -> (r: Result<SimpleValue, ValueError>)
        ensures
            r == (if self is ListString {
                Ok::<SimpleValue, ValueError>(self)
            } else {
                Err(ValueError::TypeMismatch(Shape::StringList))
            }),
    {
        if let SimpleValue::ListString(_) = &self {
            Ok(self)
        } else {
            Err(ValueError::TypeMismatch(Shape::StringList))
        }
    }

    /// The value itself if it is a `ListNumber`, else a mismatch.
    pub fn ensure_list_number(self) -> (r: Result<SimpleValue, ValueError>)
        ensures
            r == (if self is ListNumber {
                Ok::<SimpleValue, ValueError>(self)
            } else {
                Err(ValueError::TypeMismatch(Shape::NumberList))
            }),
    {
        if let SimpleValue::ListNumber(_) = &self {
            Ok(self)
        } else {
            Err(ValueError::TypeMismatch(Shape::NumberList))
        }
    }
}


/// The JSON texts of a list of strings, in order.
pub open spec fn text_models(list: Seq<String>) -> Seq<JsonModel> {
    Seq::new(list.len(), |i: int| JsonModel::Text(list[i]@))
}

/// The JSON values of a list of numbers, in order.
pub open spec fn number_models(list: Seq<Number>) -> Seq<JsonModel> {
    Seq::new(list.len(), |i: int| list[i].json())
}

impl SimpleValue {
    /// The JSON value that the value is written as, without a tag: a text as
    /// a string, a number as a number, a boolean as itself, a list as an
    /// array, an array and an object as they are. A date is the array of its
    /// year and its day of the year; a time the array of hour, minute,
    /// second and nanosecond; a moment the array of the parts of its date,
    /// of its time and of hours, minutes and seconds of its offset.
    pub open spec fn json(self) -> JsonModel {
        match self {
            SimpleValue::Text(s) => JsonModel::Text(s@),
            SimpleValue::Number(n) => n.json(),
            SimpleValue::Boolean(b) => JsonModel::Bool(b),
            SimpleValue::DateTime(m) => whole_numbers(
                seq![
                    m@.0.0,
                    days_before_month(m@.0.0, m@.0.1) + m@.0.2,
                    m@.1.0,
                    m@.1.1,
                    m@.1.2,
                    m@.1.3,
                    m@.2.0,
                    m@.2.1,
                    m@.2.2,
                ],
            ),
            SimpleValue::Date(d) => whole_numbers(seq![d@.0, d.spec_ordinal()]),
            SimpleValue::Time(t) => whole_numbers(seq![t@.0, t@.1, t@.2, t@.3]),
            SimpleValue::ListString(list) => JsonModel::Array(text_models(list@)),
            SimpleValue::ListNumber(list) => JsonModel::Array(number_models(list@)),
            SimpleValue::ArrayUnknown(items) => JsonModel::Array(models(items@)),
            SimpleValue::ObjectUnknown(json) => json@,
        }
    }

    /// The JSON value that the value is written as.
    pub fn to_json(&self) -> (r: Json)
        ensures
            r@ == self.json(),
    {
        match self {
            SimpleValue::Text(s) => Json::Text(s.clone()),
            SimpleValue::Number(n) => n.to_json(),
            SimpleValue::Boolean(b) => Json::Bool(*b),
            SimpleValue::DateTime(m) => {
                let date = m.date();
                let time = m.time();
                let offset = m.offset();
                let mut values: Vec<i64> = Vec::new();
                values.push(date.year() as i64);
                values.push(date.ordinal() as i64);
                values.push(time.hour() as i64);
                values.push(time.minute() as i64);
                values.push(time.second() as i64);
                values.push(time.nanosecond() as i64);
                values.push(offset.hours() as i64);
                values.push(offset.minutes() as i64);
                values.push(offset.seconds() as i64);
                let r = json_of_numbers(&values);
                assert(r@ == self.json()) by {
                    assert(Seq::new(values@.len(), |i: int| values@[i] as int) =~= seq![
                        m@.0.0,
                        days_before_month(m@.0.0, m@.0.1) + m@.0.2,
                        m@.1.0,
                        m@.1.1,
                        m@.1.2,
                        m@.1.3,
                        m@.2.0,
                        m@.2.1,
                        m@.2.2,
                    ]);
                }
                r
            },
            SimpleValue::Date(d) => {
                let mut values: Vec<i64> = Vec::new();
                values.push(d.year() as i64);
                values.push(d.ordinal() as i64);
                let r = json_of_numbers(&values);
                assert(r@ == self.json()) by {
                    assert(Seq::new(values@.len(), |i: int| values@[i] as int) =~= seq![
                        d@.0,
                        d.spec_ordinal(),
                    ]);
                }
                r
            },
            SimpleValue::Time(t) => {
                let mut values: Vec<i64> = Vec::new();
                values.push(t.hour() as i64);
                values.push(t.minute() as i64);
                values.push(t.second() as i64);
                values.push(t.nanosecond() as i64);
                let r = json_of_numbers(&values);
                assert(r@ == self.json()) by {
                    assert(Seq::new(values@.len(), |i: int| values@[i] as int) =~= seq![
                        t@.0,
                        t@.1,
                        t@.2,
                        t@.3,
                    ]);
                }
                r
            },
            SimpleValue::ListString(list) => {
                let mut items: Vec<Json> = Vec::new();
                let mut i: usize = 0;
                while i < list.len()
                    invariant
                        i <= list.len(),
                        items@.len() == i,
                        forall|j: int| 0 <= j < i ==> items@[j]@ == JsonModel::Text(list@[j]@),
                    decreases list.len() - i,
                {
                    items.push(Json::Text(list[i].clone()));
                    i += 1;
                }
                proof {
                    lemma_array_model(items);
                    assert(models(items@) =~= text_models(list@));
                }
                Json::Array(items)
            },
            SimpleValue::ListNumber(list) => {
                let mut items: Vec<Json> = Vec::new();
                let mut i: usize = 0;
                while i < list.len()
                    invariant
                        i <= list.len(),
                        items@.len() == i,
                        forall|j: int| 0 <= j < i ==> items@[j]@ == list@[j].json(),
                    decreases list.len() - i,
                {
                    items.push(list[i].to_json());
                    i += 1;
                }
                proof {
                    lemma_array_model(items);
                    assert(models(items@) =~= number_models(list@));
                }
                Json::Array(items)
            },
            SimpleValue::ArrayUnknown(items) => {
                let copy = clone_items(items);
                proof {
                    lemma_array_model(copy);
                }
                Json::Array(copy)
            },
            SimpleValue::ObjectUnknown(json) => json.clone(),
        }
    }
}


impl From<u8> for Number {
    fn from(value: u8) -> (r: Number) {
        Number::Byte(value)
    }
}

impl vstd::std_specs::convert::FromSpecImpl<u8> for Number {
    open spec fn obeys_from_spec() -> bool {
        true
    }

    open spec fn from_spec(value: u8) -> Number {
        Number::Byte(value)
    }
}

impl From<i32> for Number {
    fn from(value: i32) -> (r: Number) {
        Number::Integer(value as i64)
    }
}

impl vstd::std_specs::convert::FromSpecImpl<i32> for Number {
    open spec fn obeys_from_spec() -> bool {
        true
    }

    open spec fn from_spec(value: i32) -> Number {
        Number::Integer(value as i64)
    }
}

impl From<i64> for Number {
    fn from(value: i64) -> (r: Number) {
        Number::Integer(value)
    }
}

impl vstd::std_specs::convert::FromSpecImpl<i64> for Number {
    open spec fn obeys_from_spec() -> bool {
        true
    }

    open spec fn from_spec(value: i64) -> Number {
        Number::Integer(value)
    }
}

impl From<Number> for i32 {
    fn from(value: Number) -> (r: i32) {
        value.convert_i32()
    }
}

impl vstd::std_specs::convert::FromSpecImpl<Number> for i32 {
    open spec fn obeys_from_spec() -> bool {
        true
    }

    open spec fn from_spec(value: Number) -> i32 {
        value.spec_convert_i32() as i32
    }
}

impl From<Number> for i64 {
    fn from(value: Number) -> (r: i64) {
        value.convert_i64()
    }
}

impl vstd::std_specs::convert::FromSpecImpl<Number> for i64 {
    open spec fn obeys_from_spec() -> bool {
        true
    }

    open spec fn from_spec(value: Number) -> i64 {
        value.spec_convert_i64() as i64
    }
}

impl From<String> for SimpleValue {
    fn from(value: String) -> (r: SimpleValue) {
        SimpleValue::Text(value)
    }
}

impl vstd::std_specs::convert::FromSpecImpl<String> for SimpleValue {
    open spec fn obeys_from_spec() -> bool {
        true
    }

    open spec fn from_spec(value: String) -> SimpleValue {
        SimpleValue::Text(value)
    }
}

impl From<Number> for SimpleValue {
    fn from(value: Number) -> (r: SimpleValue) {
        SimpleValue::Number(value)
    }
}

impl vstd::std_specs::convert::FromSpecImpl<Number> for SimpleValue {
    open spec fn obeys_from_spec() -> bool {
        true
    }

    open spec fn from_spec(value: Number) -> SimpleValue {
        SimpleValue::Number(value)
    }
}

impl From<bool> for SimpleValue {
    fn from(value: bool) -> (r: SimpleValue) {
        SimpleValue::Boolean(value)
    }
}

impl vstd::std_specs::convert::FromSpecImpl<bool> for SimpleValue {
    open spec fn obeys_from_spec() -> bool {
        true
    }

    open spec fn from_spec(value: bool) -> SimpleValue {
        SimpleValue::Boolean(value)
    }
}

impl From<OffsetDateTime> for SimpleValue {
    fn from(value: OffsetDateTime) -> (r: SimpleValue) {
        SimpleValue::DateTime(value)
    }
}

impl vstd::std_specs::convert::FromSpecImpl<OffsetDateTime> for SimpleValue {
    open spec fn obeys_from_spec() -> bool {
        true
    }

    open spec fn from_spec(value: OffsetDateTime) -> SimpleValue {
        SimpleValue::DateTime(value)
    }
}

impl From<Date> for SimpleValue {
    fn from(value: Date) -> (r: SimpleValue) {
        SimpleValue::Date(value)
    }
}

impl vstd::std_specs::convert::FromSpecImpl<Date> for SimpleValue {
    open spec fn obeys_from_spec() -> bool {
        true
    }

    open spec fn from_spec(value: Date) -> SimpleValue {
        SimpleValue::Date(value)
    }
}

impl From<Time> for SimpleValue {
    fn from(value: Time) -> (r: SimpleValue) {
        SimpleValue::Time(value)
    }
}

impl vstd::std_specs::convert::FromSpecImpl<Time> for SimpleValue {
    open spec fn obeys_from_spec() -> bool {
        true
    }

    open spec fn from_spec(value: Time) -> SimpleValue {
        SimpleValue::Time(value)
    }
}

impl From<Vec<String>> for SimpleValue {
    fn from(value: Vec<String>) -> (r: SimpleValue) {
        SimpleValue::ListString(value)
    }
}

impl vstd::std_specs::convert::FromSpecImpl<Vec<String>> for SimpleValue {
    open spec fn obeys_from_spec() -> bool {
        true
    }

    open spec fn from_spec(value: Vec<String>) -> SimpleValue {
        SimpleValue::ListString(value)
    }
}

impl From<Vec<Number>> for SimpleValue {
    fn from(value: Vec<Number>) -> (r: SimpleValue) {
        SimpleValue::ListNumber(value)
    }
}

impl vstd::std_specs::convert::FromSpecImpl<Vec<Number>> for SimpleValue {
    open spec fn obeys_from_spec() -> bool {
        true
    }

    open spec fn from_spec(value: Vec<Number>) -> SimpleValue {
        SimpleValue::ListNumber(value)
    }
}

} // verus!
