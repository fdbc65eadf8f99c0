//! Identities: 128-bit identifiers, the kinds of thing they name, and the
//! identity that is tagged with the kind of its owner.
use crate::text::digit;
use core::marker::PhantomData;
use vstd::prelude::*;
use vstd::slice::slice_subrange;
use vstd::string::*;

verus! {

/// A 128-bit identifier, as the number that its sixteen bytes spell, the
/// first byte most significant.
#[derive(Clone, Copy, Debug, PartialEq, Eq, PartialOrd, Ord, Hash, Structural)]
pub struct Uuid(pub u128);

/// The character of a hexadecimal digit `d`, for `0 <= d <= 15`, in lower case.
pub open spec fn hex_digit(d: int) -> char {
    if d < 10 {
        digit(d)
    } else {
        (d + 87) as char
    }
}

/// The last `width` hexadecimal digits of `n`, with leading zeros where `n`
/// is short.
pub open spec fn fixed_hex(n: nat, width: nat) -> Seq<char>
    decreases width,
{
    if width == 0 {
        Seq::empty()
    } else {
        fixed_hex(n / 16, (width - 1) as nat).push(hex_digit((n % 16) as int))
    }
}

/// The text of an identifier: its 32 hexadecimal digits in lower case, in
/// groups of 8, 4, 4, 4 and 12 joined by `-`.
pub open spec fn uuid_text(value: u128) -> Seq<char> {
    fixed_hex((value / 0x1_0000_0000_0000_0000_0000_0000) as nat, 8) + seq!['-'] + fixed_hex(
        (value / 0x1_0000_0000_0000_0000_0000) as nat,
        4,
    ) + seq!['-'] + fixed_hex((value / 0x1_0000_0000_0000_0000) as nat, 4) + seq!['-'] + fixed_hex(
        (value / 0x1_0000_0000_0000) as nat,
        4,
    ) + seq!['-'] + fixed_hex(value as nat, 12)
}

/// The value of a hexadecimal digit, in either case.
pub open spec fn hex_value(c: u8) -> Option<int> {
    if 48 <= c <= 57 {
        Some(c - 48)
    } else if 97 <= c <= 102 {
        Some(c - 87)
    } else if 65 <= c <= 70 {
        Some(c - 55)
    } else {
        None
    }
}

/// Whether every byte is a hexadecimal digit.
pub open spec fn all_hex(s: Seq<u8>) -> bool {
    forall|i: int| 0 <= i < s.len() ==> hex_value(#[trigger] s[i]) is Some
}

/// The number that hexadecimal digits spell, the first most significant.
pub open spec fn hex_number(s: Seq<u8>) -> nat
    decreases s.len(),
{
    if s.len() == 0 {
        0
    } else {
        (hex_number(s.drop_last()) * 16 + hex_value(s.last())->0) as nat
    }
}

/// The identifier that 36 bytes spell in groups of 8, 4, 4, 4 and 12
/// hexadecimal digits with a `-` between one group and the next.
pub open spec fn hyphenated_value(s: Seq<u8>) -> Option<u128> {
    if s.len() == 36 && s[8] == 45 && s[13] == 45 && s[18] == 45 && s[23] == 45 && all_hex(
        s.subrange(0, 8),
    ) && all_hex(s.subrange(9, 13)) && all_hex(s.subrange(14, 18)) && all_hex(s.subrange(19, 23))
        && all_hex(s.subrange(24, 36)) {
        Some(
            (hex_number(s.subrange(0, 8)) * 0x1_0000_0000_0000_0000_0000_0000 + hex_number(
                s.subrange(9, 13),
            ) * 0x1_0000_0000_0000_0000_0000 + hex_number(s.subrange(14, 18))
                * 0x1_0000_0000_0000_0000 + hex_number(s.subrange(19, 23)) * 0x1_0000_0000_0000
                + hex_number(s.subrange(24, 36))) as u128,
        )
    } else {
        None
    }
}

/// An ASCII letter in lower case; any other byte as it is.
pub open spec fn lower_case(c: u8) -> u8 {
    if 65 <= c <= 90 {
        (c + 32) as u8
    } else {
        c
    }
}

/// Whether nine bytes spell `urn:uuid:`, in any case.
pub open spec fn is_urn_prefix(p: Seq<u8>) -> bool {
    &&& p.len() == 9
    &&& lower_case(p[0]) == 117
    &&& lower_case(p[1]) == 114
    &&& lower_case(p[2]) == 110
    &&& p[3] == 58
    &&& lower_case(p[4]) == 117
    &&& lower_case(p[5]) == 117
    &&& lower_case(p[6]) == 105
    &&& lower_case(p[7]) == 100
    &&& p[8] == 58
}

/// The identifier that bytes spell: 32 hexadecimal digits, or the
/// hyphenated groups, these also between `{` and `}` or after `urn:uuid:`.
/// Nothing else spells an identifier.
pub open spec fn uuid_value(bytes: Seq<u8>) -> Option<u128> {
    if bytes.len() == 32 {
        if all_hex(bytes) {
            Some(hex_number(bytes) as u128)
        } else {
            None
        }
    } else if bytes.len() == 36 {
        hyphenated_value(bytes)
    } else if bytes.len() == 38 && bytes[0] == 123 && bytes[37] == 125 {
        hyphenated_value(bytes.subrange(1, 37))
    } else if bytes.len() == 45 && is_urn_prefix(bytes.subrange(0, 9)) {
        hyphenated_value(bytes.subrange(9, 45))
    } else {
        None
    }
}

/// The identifier that is read from the UTF-8 bytes of `text`.
pub open spec fn uuid_of_text(text: Seq<char>) -> Option<u128> {
    uuid_value(vstd::utf8::encode_utf8(text))
}

/// The numbers of a list of identifiers, in order.
pub open spec fn uuid_numbers(list: Seq<Uuid>) -> Seq<u128> {
    Seq::new(list.len(), |i: int| list[i].0)
}

/// The bytes of ASCII characters.
pub open spec fn ascii_bytes(chars: Seq<char>) -> Seq<u8> {
    Seq::new(chars.len(), |i: int| chars[i] as u8)
}

/// Sixteen to the power `width`.
pub open spec fn sixteen_to(width: nat) -> nat
    decreases width,
{
    if width == 0 {
        1
    } else {
        16 * sixteen_to((width - 1) as nat)
    }
}

/// The digits of a number in a fixed width are ASCII, and they spell the
/// number again, as far as the width holds it.
pub proof fn lemma_fixed_hex_spells(n: nat, width: nat)
    ensures
        fixed_hex(n, width).len() == width,
        vstd::utf8::is_ascii_chars(fixed_hex(n, width)),
        all_hex(ascii_bytes(fixed_hex(n, width))),
        sixteen_to(width) > 0,
        hex_number(ascii_bytes(fixed_hex(n, width))) == n % sixteen_to(width),
    decreases width,
{
    if width > 0 {
        let shorter = fixed_hex(n / 16, (width - 1) as nat);
        let d = (n % 16) as int;
        lemma_fixed_hex_spells(n / 16, (width - 1) as nat);
        let digits = fixed_hex(n, width);
        assert(digits == shorter.push(hex_digit(d)));
        let c = hex_digit(d);
        assert(hex_value(c as u8) == Some(d));
        let bytes = ascii_bytes(digits);
        assert(bytes.drop_last() =~= ascii_bytes(shorter));
        assert(bytes.last() == c as u8);
        assert forall|i: int| 0 <= i < bytes.len() implies hex_value(#[trigger] bytes[i])
            is Some by {
            if i < width - 1 {
                assert(bytes[i] == ascii_bytes(shorter)[i]);
            }
        }
        assert forall|i: int| 0 <= i < digits.len() implies '\0' <= #[trigger] digits[i]
            <= '\u{7f}' by {
            if i < width - 1 {
                assert(digits[i] == shorter[i]);
            }
        }
        vstd::arithmetic::div_mod::lemma_mod_breakdown(
            n as int,
            16,
            sixteen_to((width - 1) as nat) as int,
        );
    } else {
        assert(ascii_bytes(fixed_hex(n, width)) =~= Seq::<u8>::empty());
    }
}

/// A 128-bit number is the sum of its five groups of hexadecimal digits,
/// each at its place.
proof fn lemma_groups(v: nat)
    requires
        v < 0x1_0000_0000_0000_0000_0000_0000_0000_0000,
    ensures
        v / 0x1_0000_0000_0000_0000_0000_0000 < 0x1_0000_0000,
        v == (v / 0x1_0000_0000_0000_0000_0000_0000) * 0x1_0000_0000_0000_0000_0000_0000 + ((v
            / 0x1_0000_0000_0000_0000_0000) % 0x1_0000) * 0x1_0000_0000_0000_0000_0000 + ((v
            / 0x1_0000_0000_0000_0000) % 0x1_0000) * 0x1_0000_0000_0000_0000 + ((v
            / 0x1_0000_0000_0000) % 0x1_0000) * 0x1_0000_0000_0000 + v % 0x1_0000_0000_0000,
{
    let x1 = v / 0x1_0000_0000_0000;
    let x2 = x1 / 0x1_0000;
    let x3 = x2 / 0x1_0000;
    let x4 = x3 / 0x1_0000;
    assert(v == x1 * 0x1_0000_0000_0000 + v % 0x1_0000_0000_0000);
    assert(x1 == x2 * 0x1_0000 + x1 % 0x1_0000);
    assert(x2 == x3 * 0x1_0000 + x2 % 0x1_0000);
    assert(x3 == x4 * 0x1_0000 + x3 % 0x1_0000);
    assert(x2 == v / 0x1_0000_0000_0000_0000);
    assert(x3 == v / 0x1_0000_0000_0000_0000_0000);
    assert(x4 == v / 0x1_0000_0000_0000_0000_0000_0000);
}

/// The bytes of the text of an identifier: 36 of them, the groups of
/// digits at their places and a `-` between one group and the next.
proof fn lemma_uuid_text_bytes(value: u128)
    ensures
        ({
            let v = value as nat;
            let bytes = vstd::utf8::encode_utf8(uuid_text(value));
            &&& bytes.len() == 36
            &&& bytes[8] == 45 && bytes[13] == 45 && bytes[18] == 45 && bytes[23] == 45
            &&& bytes.subrange(0, 8) == ascii_bytes(
                fixed_hex(v / 0x1_0000_0000_0000_0000_0000_0000, 8),
            )
            &&& bytes.subrange(9, 13) == ascii_bytes(fixed_hex(v / 0x1_0000_0000_0000_0000_0000, 4))
            &&& bytes.subrange(14, 18) == ascii_bytes(fixed_hex(v / 0x1_0000_0000_0000_0000, 4))
            &&& bytes.subrange(19, 23) == ascii_bytes(fixed_hex(v / 0x1_0000_0000_0000, 4))
            &&& bytes.subrange(24, 36) == ascii_bytes(fixed_hex(v, 12))
        }),
{
    let v = value as nat;
    let g1 = fixed_hex(v / 0x1_0000_0000_0000_0000_0000_0000, 8);
    let g2 = fixed_hex(v / 0x1_0000_0000_0000_0000_0000, 4);
    let g3 = fixed_hex(v / 0x1_0000_0000_0000_0000, 4);
    let g4 = fixed_hex(v / 0x1_0000_0000_0000, 4);
    let g5 = fixed_hex(v, 12);
    lemma_fixed_hex_spells(v / 0x1_0000_0000_0000_0000_0000_0000, 8);
    lemma_fixed_hex_spells(v / 0x1_0000_0000_0000_0000_0000, 4);
    lemma_fixed_hex_spells(v / 0x1_0000_0000_0000_0000, 4);
    lemma_fixed_hex_spells(v / 0x1_0000_0000_0000, 4);
    lemma_fixed_hex_spells(v, 12);
    let text = uuid_text(value);
    assert(text == g1 + seq!['-'] + g2 + seq!['-'] + g3 + seq!['-'] + g4 + seq!['-'] + g5);
    assert(text.len() == 36);
    assert forall|i: int| 0 <= i < text.len() implies '\0' <= #[trigger] text[i] <= '\u{7f}' by {
        lemma_tail_is_ascii(value, i);
    }
    vstd::utf8::is_ascii_chars_encode_utf8(text);
    let bytes = vstd::utf8::encode_utf8(text);
    assert(bytes =~= ascii_bytes(text));
    assert(bytes.subrange(0, 8) =~= ascii_bytes(g1));
    assert(bytes.subrange(9, 13) =~= ascii_bytes(g2));
    assert(bytes.subrange(14, 18) =~= ascii_bytes(g3));
    assert(bytes.subrange(19, 23) =~= ascii_bytes(g4));
    assert(bytes.subrange(24, 36) =~= ascii_bytes(g5));
}

/// The text of an identifier is read as the identifier.
pub proof fn lemma_uuid_text_reads_back(value: u128)
    ensures
        uuid_of_text(uuid_text(value)) == Some(value),
{
    let v = value as nat;
    lemma_uuid_text_bytes(value);
    lemma_fixed_hex_spells(v / 0x1_0000_0000_0000_0000_0000_0000, 8);
    lemma_fixed_hex_spells(v / 0x1_0000_0000_0000_0000_0000, 4);
    lemma_fixed_hex_spells(v / 0x1_0000_0000_0000_0000, 4);
    lemma_fixed_hex_spells(v / 0x1_0000_0000_0000, 4);
    lemma_fixed_hex_spells(v, 12);
    assert(sixteen_to(4) == 0x1_0000 && sixteen_to(8) == 0x1_0000_0000 && sixteen_to(12)
        == 0x1_0000_0000_0000) by {
        reveal_with_fuel(sixteen_to, 13);
    }
    lemma_groups(v);
}

/// The error of the `uuid` crate.
#[verifier::external_type_specification]
#[verifier::external_body]
pub struct ExUuidError(::uuid::Error);

/// Calls `uuid::Uuid::try_parse_ascii` and takes the identifier by
/// `as_u128`. The contract claims that the call accepts the four forms of
/// `uuid_value` and nothing else, and that the number of the identifier is
/// the number that its hexadecimal digits spell. None of it is proved here.
#[verifier::external_body]
pub(crate) fn uuid_from_ascii(bytes: &[u8]) -> (r: Result<Uuid, ::uuid::Error>)
    ensures
        match r {
            Ok(uuid) => uuid_value(bytes@) == Some(uuid.0),
            Err(_) => uuid_value(bytes@) is None,
        },
{
    Ok(Uuid(::uuid::Uuid::try_parse_ascii(bytes)?.as_u128()))
}

/// Calls `uuid::Uuid::now_v7`, which draws on the clock and on chance, and
/// takes the identifier by `as_u128`. Whatever comes back carries the
/// version 7 in the high half of its seventh byte.
#[verifier::external_body]
pub(crate) fn uuid_now_v7() -> (r: Uuid)
    ensures
        (r.0 / 0x1_0000_0000_0000_0000_000) % 16 == 7,
{
    Uuid(::uuid::Uuid::now_v7().as_u128())
}

fn hex_char(d: u8) -> (c: char)
    requires
        d <= 15,
    ensures
        c == hex_digit(d as int),
{
    if d < 10 {
        (d + 48) as char
    } else {
        (d + 87) as char
    }
}

fn push_fixed_hex(out: &mut String, n: u128, width: u8)
    ensures
        final(out)@ == old(out)@ + fixed_hex(n as nat, width as nat),
    decreases width,
{
    if width > 0 {
        push_fixed_hex(out, n / 16, width - 1);
        out.push(hex_char((n % 16) as u8));
    }
}

impl Uuid {
    /// The identifier of all zeros.
    pub fn nil() -> (r: Uuid)
        ensures
            r.0 == 0,
    {
        Uuid(0)
    }

    /// A fresh identifier of version 7, made from the clock and from
    /// chance. It is never the identifier of all zeros.
    pub fn now_v7() -> (r: Uuid)
        ensures
            r.0 != 0,
    {
        uuid_now_v7()
    }

    /// Whether this is the identifier of all zeros.
    pub fn is_nil(&self) -> (r: bool)
        ensures
            r == (self.0 == 0),
    {
        self.0 == 0
    }

    /// What a parse outcome stands for: the identifier that was read, or a
    /// format failure.
    pub open spec fn of_outcome(outcome: Option<u128>) -> Result<Uuid, crate::error::ValueError> {
        match outcome {
            Some(value) => Ok(Uuid(value)),
            None => Err(crate::error::ValueError::Format(crate::error::Shape::Reference)),
        }
    }

    /// Reads an identifier from ASCII bytes: 32 hexadecimal digits, plain or
    /// in hyphenated groups, the latter also in braces or after `urn:uuid:`.
    pub fn parse_ascii(bytes: &[u8]) -> (r: Option<Uuid>)
        ensures
            match r {
                Some(uuid) => uuid_value(bytes@) == Some(uuid.0),
                None => uuid_value(bytes@) is None,
            },
    {
        match uuid_from_ascii(bytes) {
            Ok(uuid) => Some(uuid),
            Err(_) => None,
        }
    }

    /// Reads an identifier from text.
    pub fn parse(text: &str) -> (r: Option<Uuid>)
        ensures
            match r {
                Some(uuid) => uuid_of_text(text@) == Some(uuid.0),
                None => uuid_of_text(text@) is None,
            },
    {
        Self::parse_ascii(text.as_bytes())
    }

    /// Appends the text of the identifier to `out`.
    pub fn push_text(&self, out: &mut String)
        ensures
            final(out)@ == old(out)@ + uuid_text(self.0),
    {
        let ghost before = out@;
        let v = self.0;
        push_fixed_hex(out, v / 0x1_0000_0000_0000_0000_0000_0000, 8);
        out.push('-');
        push_fixed_hex(out, v / 0x1_0000_0000_0000_0000_0000, 4);
        out.push('-');
        push_fixed_hex(out, v / 0x1_0000_0000_0000_0000, 4);
        out.push('-');
        push_fixed_hex(out, v / 0x1_0000_0000_0000, 4);
        out.push('-');
        push_fixed_hex(out, v, 12);
        assert(out@ =~= before + uuid_text(self.0));
    }

    /// The text of the identifier.
    pub fn to_text(&self) -> (r: String)
        ensures
            r@ == uuid_text(self.0),
    {
        let mut out = String::new();
        self.push_text(&mut out);
        assert(out@ =~= uuid_text(self.0));
        out
    }
}

/// Marks the identity of an addon.
#[derive(Clone, Copy, Debug, PartialEq, Eq, PartialOrd, Ord, Hash)]
pub struct AddonKind;

/// Marks the identity of an installed instance of an addon.
#[derive(Clone, Copy, Debug, PartialEq, Eq, PartialOrd, Ord, Hash)]
pub struct AddonInstanceKind;

/// Marks the identity of a website.
#[derive(Clone, Copy, Debug, PartialEq, Eq, PartialOrd, Ord, Hash)]
pub struct WebsiteKind;

/// Marks the identity of a row of schema data.
#[derive(Clone, Copy, Debug, PartialEq, Eq, PartialOrd, Ord, Hash)]
pub struct SchemaDataKind;

/// Marks the identity of a form.
#[derive(Clone, Copy, Debug, PartialEq, Eq, PartialOrd, Ord, Hash)]
pub struct FormKind;

/// An identifier that names a thing of kind `K`, and no other kind.
#[derive(Debug, PartialEq, Eq, PartialOrd, Ord, Hash)]
pub struct Tagged<K> {
    pub uuid: Uuid,
    pub kind: PhantomData<K>,
}

pub type AddonUuid = Tagged<AddonKind>;

pub type AddonInstanceUuid = Tagged<AddonInstanceKind>;

pub type WebsitePublicId = Tagged<WebsiteKind>;

pub type SchemaDataPublicId = Tagged<SchemaDataKind>;

pub type FormPublicId = Tagged<FormKind>;

impl<K> Clone for Tagged<K> {
    fn clone(&self) -> (r: Self)
        ensures
            r == *self,
    {
        Tagged { uuid: self.uuid, kind: PhantomData }
    }
}

impl<K> Copy for Tagged<K> {

}

impl<K> View for Tagged<K> {
    type V = u128;

    /// The number of the identifier.
    open spec fn view(&self) -> u128 {
        self.uuid.0
    }
}

impl<K> Tagged<K> {
    /// A fresh identifier, which names something.
    pub fn new() -> (r: Self)
        ensures
            r@ != 0,
    {
        Tagged { uuid: Uuid::now_v7(), kind: PhantomData }
    }

    /// The identifier of all zeros, which names nothing.
    pub fn none() -> (r: Self)
        ensures
            r@ == 0,
    {
        Tagged { uuid: Uuid(0), kind: PhantomData }
    }

    /// Whether this is the identifier that names nothing.
    pub fn is_none(self) -> (r: bool)
        ensures
            r == (self@ == 0),
    {
        self.uuid.0 == 0
    }

    /// The plain identifier.
    pub fn uuid(&self) -> (r: Uuid)
        ensures
            r.0 == self@,
    {
        self.uuid
    }

    /// Whether this names the same as the plain identifier `other`.
    pub fn is(&self, other: &Uuid) -> (r: bool)
        ensures
            r == (self@ == other.0),
    {
        self.uuid.0 == other.0
    }

    /// Reads an identifier of this kind from text.
    pub fn parse(text: &str) -> (r: Option<Self>)
        ensures
            match r {
                Some(id) => uuid_of_text(text@) == Some(id@),
                None => uuid_of_text(text@) is None,
            },
    {
        match Uuid::parse(text) {
            Some(uuid) => Some(Tagged { uuid, kind: PhantomData }),
            None => None,
        }
    }

    /// The text of the identifier.
    pub fn to_text(&self) -> (r: String)
        ensures
            r@ == uuid_text(self@),
    {
        self.uuid.to_text()
    }
}

impl<K> core::str::FromStr for Tagged<K> {
    type Err = crate::error::ValueError;

    /// Reads an identifier of this kind from text.
    fn from_str(text: &str) -> (r: Result<Self, crate::error::ValueError>)
        ensures
            match r {
                Ok(id) => uuid_of_text(text@) == Some(id@),
                Err(e) => uuid_of_text(text@) is None && e == crate::error::ValueError::Format(
                    crate::error::Shape::Reference,
                ),
            },
    {
        match Uuid::parse(text) {
            Some(uuid) => Ok(Tagged { uuid, kind: PhantomData }),
            None => Err(crate::error::ValueError::Format(crate::error::Shape::Reference)),
        }
    }
}

impl core::str::FromStr for Uuid {
    type Err = crate::error::ValueError;

    /// Reads an identifier from text.
    fn from_str(text: &str) -> (r: Result<Uuid, crate::error::ValueError>)
        ensures
            match r {
                Ok(uuid) => uuid_of_text(text@) == Some(uuid.0),
                Err(e) => uuid_of_text(text@) is None && e == crate::error::ValueError::Format(
                    crate::error::Shape::Reference,
                ),
            },
    {
        match Uuid::parse(text) {
            Some(uuid) => Ok(uuid),
            None => Err(crate::error::ValueError::Format(crate::error::Shape::Reference)),
        }
    }
}

impl<K> Default for Tagged<K> {
    fn default() -> (r: Self)
        ensures
            r@ == 0,
    {
        Self::none()
    }
}

impl<K> From<Uuid> for Tagged<K> {
    fn from(value: Uuid) -> (r: Self) {
        Tagged { uuid: value, kind: PhantomData }
    }
}

impl<K> vstd::std_specs::convert::FromSpecImpl<Uuid> for Tagged<K> {
    open spec fn obeys_from_spec() -> bool {
        true
    }

    open spec fn from_spec(value: Uuid) -> Self {
        Tagged { uuid: value, kind: PhantomData }
    }
}


/// An identity tagged with the kind of its owner: a website or an addon.
#[derive(Debug, Clone, Copy, PartialEq, Eq)]
pub enum UuidType {
    Site(WebsitePublicId),
    Addon(AddonUuid),
}

/// Why a text is no tagged identity.
#[derive(Debug, Clone, Copy, PartialEq, Eq, Structural)]
pub enum UuidTypeError {
    /// The text is no identifier and does not start with `s` or `a`.
    Unknown,
    /// The text starts with `s` or `a`, but no identifier follows its
    /// second byte.
    Malformed,
}

/// The identifier that follows the first two bytes, if there are two and an
/// identifier follows them.
pub open spec fn tagged_value(bytes: Seq<u8>) -> Option<u128> {
    if bytes.len() >= 2 {
        uuid_value(bytes.skip(2))
    } else {
        None
    }
}

impl UuidType {
    /// The tagged identity that bytes spell. An identifier alone is the
    /// identity of a website. Otherwise the first byte decides: after `s`
    /// stands the identity of a website, after `a` that of an addon, each
    /// from the third byte on; any other first byte, and none, is unknown.
    pub open spec fn decoded(bytes: Seq<u8>) -> Result<UuidType, UuidTypeError> {
        if uuid_value(bytes) is Some {
            Ok(UuidType::Site(Tagged { uuid: Uuid(uuid_value(bytes)->0), kind: PhantomData }))
        } else if bytes.len() == 0 {
            Err(UuidTypeError::Unknown)
        } else if bytes[0] == 115 {
            match tagged_value(bytes) {
                Some(v) => Ok(UuidType::Site(Tagged { uuid: Uuid(v), kind: PhantomData })),
                None => Err(UuidTypeError::Malformed),
            }
        } else if bytes[0] == 97 {
            match tagged_value(bytes) {
                Some(v) => Ok(UuidType::Addon(Tagged { uuid: Uuid(v), kind: PhantomData })),
                None => Err(UuidTypeError::Malformed),
            }
        } else {
            Err(UuidTypeError::Unknown)
        }
    }

    /// The identifier, whatever the kind of its owner.
    pub open spec fn spec_uuid(self) -> Uuid {
        match self {
            UuidType::Site(id) => id.uuid,
            UuidType::Addon(id) => id.uuid,
        }
    }

    /// The text of the identity: `s:` before the identifier of a website,
    /// `a:` before that of an addon.
    pub open spec fn text(self) -> Seq<char> {
        match self {
            UuidType::Site(id) => seq!['s', ':'] + uuid_text(id@),
            UuidType::Addon(id) => seq!['a', ':'] + uuid_text(id@),
        }
    }

    /// Whether the owner is a website.
    pub fn is_site(&self) -> (r: bool)
        ensures
            r == (self is Site),
    {
        match self {
            UuidType::Site(_) => true,
            UuidType::Addon(_) => false,
        }
    }

    /// Whether the owner is an addon.
    pub fn is_addon(&self) -> (r: bool)
        ensures
            r == (self is Addon),
    {
        match self {
            UuidType::Site(_) => false,
            UuidType::Addon(_) => true,
        }
    }

    /// The identifier, whatever the kind of its owner.
    pub fn get_uuid(&self) -> (r: Uuid)
        ensures
            r == self.spec_uuid(),
    {
        match self {
            UuidType::Site(id) => id.uuid,
            UuidType::Addon(id) => id.uuid,
        }
    }

    /// The text of the identity.
    pub fn to_text(&self) -> (r: String)
        ensures
            r@ == self.text(),
    {
        let mut out = String::new();
        match self {
            UuidType::Site(id) => {
                out.push('s');
                out.push(':');
                id.uuid.push_text(&mut out);
            },
            UuidType::Addon(id) => {
                out.push('a');
                out.push(':');
                id.uuid.push_text(&mut out);
            },
        }
        assert(out@ =~= self.text());
        out
    }

    /// Reads a tagged identity from the bytes of its text.
    pub fn decode_bytes(bytes: &[u8]) -> (r: Result<UuidType, UuidTypeError>)
        ensures
            r == Self::decoded(bytes@),
    {
        if let Some(uuid) = Uuid::parse_ascii(bytes) {
            return Ok(UuidType::Site(Tagged { uuid, kind: PhantomData }));
        }
        if bytes.len() == 0 {
            return Err(UuidTypeError::Unknown);
        }
        let first = bytes[0];
        if first != 115 && first != 97 {
            return Err(UuidTypeError::Unknown);
        }
        if bytes.len() < 2 {
            return Err(UuidTypeError::Malformed);
        }
        let rest = slice_subrange(bytes, 2, bytes.len());
        assert(rest@ =~= bytes@.skip(2));
        match Uuid::parse_ascii(rest) {
            Some(uuid) => {
                if first == 115 {
                    Ok(UuidType::Site(Tagged { uuid, kind: PhantomData }))
                } else {
                    Ok(UuidType::Addon(Tagged { uuid, kind: PhantomData }))
                }
            },
            None => Err(UuidTypeError::Malformed),
        }
    }

    /// Reads a tagged identity from its text.
    pub fn decode(text: &str) -> (r: Result<UuidType, UuidTypeError>)
        ensures
            r == Self::decoded(vstd::utf8::encode_utf8(text@)),
    {
        Self::decode_bytes(text.as_bytes())
    }
}


impl UuidType {
    /// Reading the text of a tagged identity gives the identity again.
    pub proof fn lemma_text_round_trip(self)
        ensures
            Self::decoded(vstd::utf8::encode_utf8(self.text())) == Ok::<UuidType, UuidTypeError>(
                self,
            ),
    {
        let value = self.spec_uuid().0;
        let text = self.text();
        let tail = uuid_text(value);
        lemma_uuid_text_reads_back(value);
        assert forall|i: int| 0 <= i < tail.len() implies '\0' <= #[trigger] tail[i]
            <= '\u{7f}' by {
            lemma_tail_is_ascii(value, 0);
            lemma_tail_is_ascii(value, i);
        }
        lemma_tail_is_ascii(value, 0);
        assert forall|i: int| 0 <= i < text.len() implies '\0' <= #[trigger] text[i]
            <= '\u{7f}' by {
            if i >= 2 {
                assert(text[i] == tail[i - 2]);
            }
        }
        vstd::utf8::is_ascii_chars_encode_utf8(tail);
        vstd::utf8::is_ascii_chars_encode_utf8(text);
        let bytes = vstd::utf8::encode_utf8(text);
        let tail_bytes = vstd::utf8::encode_utf8(tail);
        assert(bytes[0] == text[0] as u8);
        assert(bytes.skip(2) =~= tail_bytes) by {
            assert forall|i: int| 0 <= i < 36 implies bytes.skip(2)[i] == tail_bytes[i] by {
                assert(bytes[i + 2] == text[i + 2] as u8);
                assert(text[i + 2] == tail[i]);
                assert(tail_bytes[i] == tail[i] as u8);
            }
        }
    }
}

/// Every character of the text of an identifier is ASCII.
proof fn lemma_tail_is_ascii(value: u128, i: int)
    requires
        0 <= i < 36,
    ensures
        uuid_text(value).len() == 36,
        '\0' <= uuid_text(value)[i] <= '\u{7f}',
{
    let v = value as nat;
    let g1 = fixed_hex(v / 0x1_0000_0000_0000_0000_0000_0000, 8);
    let g2 = fixed_hex(v / 0x1_0000_0000_0000_0000_0000, 4);
    let g3 = fixed_hex(v / 0x1_0000_0000_0000_0000, 4);
    let g4 = fixed_hex(v / 0x1_0000_0000_0000, 4);
    let g5 = fixed_hex(v, 12);
    lemma_fixed_hex_spells(v / 0x1_0000_0000_0000_0000_0000_0000, 8);
    lemma_fixed_hex_spells(v / 0x1_0000_0000_0000_0000_0000, 4);
    lemma_fixed_hex_spells(v / 0x1_0000_0000_0000_0000, 4);
    lemma_fixed_hex_spells(v / 0x1_0000_0000_0000, 4);
    lemma_fixed_hex_spells(v, 12);
    let text = uuid_text(value);
    assert(text == g1 + seq!['-'] + g2 + seq!['-'] + g3 + seq!['-'] + g4 + seq!['-'] + g5);
    if i < 8 {
        assert(text[i] == g1[i]);
    } else if i == 8 {
    } else if i < 13 {
        assert(text[i] == g2[i - 9]);
    } else if i == 13 {
    } else if i < 18 {
        assert(text[i] == g3[i - 14]);
    } else if i == 18 {
    } else if i < 23 {
        assert(text[i] == g4[i - 19]);
    } else if i == 23 {
    } else {
        assert(text[i] == g5[i - 24]);
    }
}

} // verus!
