//! The schema: the keys of fields and the catalog of field types.
use crate::field_value::SchematicFieldValue;
use crate::text::same_text;
use std::collections::HashMap;
use vstd::prelude::*;
use vstd::std_specs::cmp::PartialEqSpec;
use vstd::string::*;

verus! {

/// The kinds of field that a schema can declare.
#[derive(Debug, Clone, Copy, PartialEq, Eq, Structural)]
pub enum SchematicFieldType {
    /// A string of text.
    Text,
    /// A number.
    Number,
    /// A URL.
    URL,
    /// An email address.
    Email,
    /// An address.
    Address,
    /// A phone number.
    Phone,
    /// A boolean.
    Boolean,
    /// A date and time.
    DateTime,
    /// A date.
    Date,
    /// A time.
    Time,
    /// Rich content.
    RichContent,
    /// Rich text.
    RichText,
    /// A reference to another schema item.
    Reference,
    /// A reference to multiple schema items.
    MultiReference,
    /// A media gallery.
    MediaGallery,
    /// A document.
    Document,
    /// A multi-document.
    MultiDocument,
    /// An image.
    Image,
    /// A video.
    Video,
    /// An audio.
    Audio,
    /// An array of tags.
    Tags,
    /// An array
    Array,
    /// An object.
    Object,
}

/// One mebibyte.
pub const MEBIBYTE: usize = 0x10_0000;

impl SchematicFieldType {
    /// Whether values of the type arrive as uploaded files.
    pub open spec fn spec_is_upload_file_type(self) -> bool {
        self == SchematicFieldType::Document || self == SchematicFieldType::MultiDocument || self
            == SchematicFieldType::Audio || self == SchematicFieldType::Image || self
            == SchematicFieldType::Video
    }

    /// The largest number of bytes that a value of the type may take, or
    /// `None` where there is no limit.
    pub open spec fn spec_max_bytes_length(self) -> Option<usize> {
        match self {
            SchematicFieldType::Text => Some(0x4000_0000usize),
            SchematicFieldType::Email => Some(100usize),
            SchematicFieldType::Number => Some(10usize),
            SchematicFieldType::URL => Some(1024usize),
            SchematicFieldType::Address => Some(1024usize),
            SchematicFieldType::Phone => Some(50usize),
            SchematicFieldType::Boolean => Some(1usize),
            SchematicFieldType::DateTime => Some(50usize),
            SchematicFieldType::Date => Some(50usize),
            SchematicFieldType::Time => Some(50usize),
            SchematicFieldType::RichContent => Some(0xa0_0000usize),
            SchematicFieldType::RichText => Some(0xa0_0000usize),
            SchematicFieldType::Reference => None,
            SchematicFieldType::MultiReference => None,
            SchematicFieldType::MediaGallery => Some(0x640_0000usize),
            SchematicFieldType::Document => Some(0x640_0000usize),
            SchematicFieldType::MultiDocument => Some(0x640_0000usize),
            SchematicFieldType::Image => Some(0x640_0000usize),
            SchematicFieldType::Video => Some(0x640_0000usize),
            SchematicFieldType::Audio => Some(0x640_0000usize),
            SchematicFieldType::Tags => None,
            SchematicFieldType::Array => None,
            SchematicFieldType::Object => None,
        }
    }

    /// The name of the type as people read it.
    pub open spec fn spec_name(self) -> Seq<char> {
        match self {
            SchematicFieldType::Text => "Text"@,
            SchematicFieldType::Number => "Number"@,
            SchematicFieldType::URL => "URL"@,
            SchematicFieldType::Email => "Email"@,
            SchematicFieldType::Address => "Address"@,
            SchematicFieldType::Phone => "Phone"@,
            SchematicFieldType::Boolean => "True/False"@,
            SchematicFieldType::DateTime => "Date & Time"@,
            SchematicFieldType::Date => "Date"@,
            SchematicFieldType::Time => "Time"@,
            SchematicFieldType::RichContent => "Rich Content"@,
            SchematicFieldType::RichText => "Rich Text"@,
            SchematicFieldType::Reference => "Reference"@,
            SchematicFieldType::MultiReference => "Multi Reference"@,
            SchematicFieldType::MediaGallery => "Media Gallery"@,
            SchematicFieldType::Document => "Document"@,
            SchematicFieldType::MultiDocument => "Multi Document"@,
            SchematicFieldType::Image => "Image"@,
            SchematicFieldType::Video => "Video"@,
            SchematicFieldType::Audio => "Audio"@,
            SchematicFieldType::Tags => "Tags"@,
            SchematicFieldType::Array => "Array"@,
            SchematicFieldType::Object => "Object"@,
        }
    }

    /// The number that stands for the type in storage and on the wire: the
    /// place of the type in the catalog, from zero.
    pub open spec fn spec_code(self) -> int {
        match self {
            SchematicFieldType::Text => 0,
            SchematicFieldType::Number => 1,
            SchematicFieldType::URL => 2,
            SchematicFieldType::Email => 3,
            SchematicFieldType::Address => 4,
            SchematicFieldType::Phone => 5,
            SchematicFieldType::Boolean => 6,
            SchematicFieldType::DateTime => 7,
            SchematicFieldType::Date => 8,
            SchematicFieldType::Time => 9,
            SchematicFieldType::RichContent => 10,
            SchematicFieldType::RichText => 11,
            SchematicFieldType::Reference => 12,
            SchematicFieldType::MultiReference => 13,
            SchematicFieldType::MediaGallery => 14,
            SchematicFieldType::Document => 15,
            SchematicFieldType::MultiDocument => 16,
            SchematicFieldType::Image => 17,
            SchematicFieldType::Video => 18,
            SchematicFieldType::Audio => 19,
            SchematicFieldType::Tags => 20,
            SchematicFieldType::Array => 21,
            SchematicFieldType::Object => 22,
        }
    }

    /// The type that the code `code` stands for, for a code from 0 to 22.
    pub open spec fn of_code(code: int) -> SchematicFieldType {
        if code == 0 {
            SchematicFieldType::Text
        } else if code == 1 {
            SchematicFieldType::Number
        } else if code == 2 {
            SchematicFieldType::URL
        } else if code == 3 {
            SchematicFieldType::Email
        } else if code == 4 {
            SchematicFieldType::Address
        } else if code == 5 {
            SchematicFieldType::Phone
        } else if code == 6 {
            SchematicFieldType::Boolean
        } else if code == 7 {
            SchematicFieldType::DateTime
        } else if code == 8 {
            SchematicFieldType::Date
        } else if code == 9 {
            SchematicFieldType::Time
        } else if code == 10 {
            SchematicFieldType::RichContent
        } else if code == 11 {
            SchematicFieldType::RichText
        } else if code == 12 {
            SchematicFieldType::Reference
        } else if code == 13 {
            SchematicFieldType::MultiReference
        } else if code == 14 {
            SchematicFieldType::MediaGallery
        } else if code == 15 {
            SchematicFieldType::Document
        } else if code == 16 {
            SchematicFieldType::MultiDocument
        } else if code == 17 {
            SchematicFieldType::Image
        } else if code == 18 {
            SchematicFieldType::Video
        } else if code == 19 {
            SchematicFieldType::Audio
        } else if code == 20 {
            SchematicFieldType::Tags
        } else if code == 21 {
            SchematicFieldType::Array
        } else {
            SchematicFieldType::Object
        }
    }

    /// Whether values of the type arrive as uploaded files.
    pub fn is_upload_file_type(&self) -> (r: bool)
        ensures
            r == self.spec_is_upload_file_type(),
    {
        match self {
            SchematicFieldType::Document
            | SchematicFieldType::MultiDocument
            | SchematicFieldType::Audio
            | SchematicFieldType::Image
            | SchematicFieldType::Video => true,
            _ => false,
        }
    }

    /// The largest number of bytes that a value of the type may take, or
    /// `None` where there is no limit.
    pub fn max_bytes_length(&self) -> (r: Option<usize>)
        ensures
            r == self.spec_max_bytes_length(),
    {
        match self {
            SchematicFieldType::Text => Some(1024 * MEBIBYTE),
            SchematicFieldType::Email => Some(100),
            SchematicFieldType::Number => Some(10),
            SchematicFieldType::URL => Some(1024),
            SchematicFieldType::Address => Some(1024),
            SchematicFieldType::Phone => Some(50),
            SchematicFieldType::Boolean => Some(1),
            SchematicFieldType::DateTime => Some(50),
            SchematicFieldType::Date => Some(50),
            SchematicFieldType::Time => Some(50),
            SchematicFieldType::RichContent => Some(10 * MEBIBYTE),
            SchematicFieldType::RichText => Some(10 * MEBIBYTE),
            SchematicFieldType::Reference => None,
            SchematicFieldType::MultiReference => None,
            SchematicFieldType::MediaGallery => Some(100 * MEBIBYTE),
            SchematicFieldType::Document => Some(100 * MEBIBYTE),
            SchematicFieldType::MultiDocument => Some(100 * MEBIBYTE),
            SchematicFieldType::Image => Some(100 * MEBIBYTE),
            SchematicFieldType::Video => Some(100 * MEBIBYTE),
            SchematicFieldType::Audio => Some(100 * MEBIBYTE),
            SchematicFieldType::Tags => None,
            SchematicFieldType::Array => None,
            SchematicFieldType::Object => None,
        }
    }

    /// The name of the type as people read it.
    pub fn as_name(self) -> (r: &'static str)
        ensures
            r@ == self.spec_name(),
    {
        match self {
            SchematicFieldType::Text => "Text",
            SchematicFieldType::Number => "Number",
            SchematicFieldType::URL => "URL",
            SchematicFieldType::Email => "Email",
            SchematicFieldType::Address => "Address",
            SchematicFieldType::Phone => "Phone",
            SchematicFieldType::Boolean => "True/False",
            SchematicFieldType::DateTime => "Date & Time",
            SchematicFieldType::Date => "Date",
            SchematicFieldType::Time => "Time",
            SchematicFieldType::RichContent => "Rich Content",
            SchematicFieldType::RichText => "Rich Text",
            SchematicFieldType::Reference => "Reference",
            SchematicFieldType::MultiReference => "Multi Reference",
            SchematicFieldType::MediaGallery => "Media Gallery",
            SchematicFieldType::Document => "Document",
            SchematicFieldType::MultiDocument => "Multi Document",
            SchematicFieldType::Image => "Image",
            SchematicFieldType::Video => "Video",
            SchematicFieldType::Audio => "Audio",
            SchematicFieldType::Tags => "Tags",
            SchematicFieldType::Array => "Array",
            SchematicFieldType::Object => "Object",
        }
    }

    /// The number that stands for the type in storage and on the wire.
    pub fn code(self) -> (r: i32)
        ensures
            r == self.spec_code(),
    {
        match self {
            SchematicFieldType::Text => 0,
            SchematicFieldType::Number => 1,
            SchematicFieldType::URL => 2,
            SchematicFieldType::Email => 3,
            SchematicFieldType::Address => 4,
            SchematicFieldType::Phone => 5,
            SchematicFieldType::Boolean => 6,
            SchematicFieldType::DateTime => 7,
            SchematicFieldType::Date => 8,
            SchematicFieldType::Time => 9,
            SchematicFieldType::RichContent => 10,
            SchematicFieldType::RichText => 11,
            SchematicFieldType::Reference => 12,
            SchematicFieldType::MultiReference => 13,
            SchematicFieldType::MediaGallery => 14,
            SchematicFieldType::Document => 15,
            SchematicFieldType::MultiDocument => 16,
            SchematicFieldType::Image => 17,
            SchematicFieldType::Video => 18,
            SchematicFieldType::Audio => 19,
            SchematicFieldType::Tags => 20,
            SchematicFieldType::Array => 21,
            SchematicFieldType::Object => 22,
        }
    }

    /// The type that `code` stands for, if it stands for one.
    pub fn from_code(code: i32) -> (r: Option<SchematicFieldType>)
        ensures
            match r {
                Some(t) => 0 <= code <= 22 && t == Self::of_code(code as int) && t.spec_code()
                    == code,
                None => code < 0 || code > 22,
            },
    {
        match code {
            0 => Some(SchematicFieldType::Text),
            1 => Some(SchematicFieldType::Number),
            2 => Some(SchematicFieldType::URL),
            3 => Some(SchematicFieldType::Email),
            4 => Some(SchematicFieldType::Address),
            5 => Some(SchematicFieldType::Phone),
            6 => Some(SchematicFieldType::Boolean),
            7 => Some(SchematicFieldType::DateTime),
            8 => Some(SchematicFieldType::Date),
            9 => Some(SchematicFieldType::Time),
            10 => Some(SchematicFieldType::RichContent),
            11 => Some(SchematicFieldType::RichText),
            12 => Some(SchematicFieldType::Reference),
            13 => Some(SchematicFieldType::MultiReference),
            14 => Some(SchematicFieldType::MediaGallery),
            15 => Some(SchematicFieldType::Document),
            16 => Some(SchematicFieldType::MultiDocument),
            17 => Some(SchematicFieldType::Image),
            18 => Some(SchematicFieldType::Video),
            19 => Some(SchematicFieldType::Audio),
            20 => Some(SchematicFieldType::Tags),
            21 => Some(SchematicFieldType::Array),
            22 => Some(SchematicFieldType::Object),
            _ => None,
        }
    }

    /// No two types share a code, and a type is found again from its code.
    pub proof fn lemma_code_is_unique(a: SchematicFieldType, b: SchematicFieldType)
        ensures
            a.spec_code() == b.spec_code() ==> a == b,
            0 <= a.spec_code() <= 22,
            Self::of_code(a.spec_code()) == a,
    {
    }
}


impl From<SchematicFieldType> for i32 {
    /// The number that stands for the type.
    fn from(value: SchematicFieldType) -> (r: i32) {
        value.code()
    }
}

impl vstd::std_specs::convert::FromSpecImpl<SchematicFieldType> for i32 {
    open spec fn obeys_from_spec() -> bool {
        true
    }

    open spec fn from_spec(value: SchematicFieldType) -> i32 {
        value.spec_code() as i32
    }
}

/// A number that stands for no type of field.
#[derive(Debug, Clone, Copy, PartialEq, Eq, Structural)]
pub struct UnknownFieldType(pub i32);

impl TryFrom<i32> for SchematicFieldType {
    type Error = UnknownFieldType;

    /// The type that `code` stands for, or the code itself as the failure.
    fn try_from(code: i32) -> (r: Result<SchematicFieldType, UnknownFieldType>) {
        match SchematicFieldType::from_code(code) {
            Some(t) => Ok(t),
            None => Err(UnknownFieldType(code)),
        }
    }
}

impl vstd::std_specs::convert::TryFromSpecImpl<i32> for SchematicFieldType {
    open spec fn obeys_try_from_spec() -> bool {
        true
    }

    open spec fn try_from_spec(code: i32) -> Result<SchematicFieldType, UnknownFieldType> {
        if 0 <= code <= 22 {
            Ok(SchematicFieldType::of_code(code as int))
        } else {
            Err(UnknownFieldType(code))
        }
    }
}

/// The key of a field in a record: one of the four keys that the system
/// reserves, or the name of a field that a user defined.
///
/// Two keys are equal when they spell the same name, whatever their
/// variant: `Other` with the name `_id` is the same key as `Id`.
#[derive(Debug, Clone)]
pub enum SchematicFieldKey {
    Id,
    Owner,
    CreatedAt,
    UpdatedAt,
    Other(String),
    OtherStatic(&'static str),
}

impl SchematicFieldKey {
    /// The name that the key spells.
    pub open spec fn spec_str(self) -> Seq<char> {
        match self {
            SchematicFieldKey::Id => "_id"@,
            SchematicFieldKey::Owner => "_owner"@,
            SchematicFieldKey::CreatedAt => "_createdAt"@,
            SchematicFieldKey::UpdatedAt => "_updatedAt"@,
            SchematicFieldKey::Other(s) => s@,
            SchematicFieldKey::OtherStatic(s) => s@,
        }
    }

    /// The key that a name is read as: the reserved key of a reserved name,
    /// else the key of a field of that name.
    pub open spec fn named(name: String) -> SchematicFieldKey {
        if name@ == "_id"@ {
            SchematicFieldKey::Id
        } else if name@ == "_owner"@ {
            SchematicFieldKey::Owner
        } else if name@ == "_createdAt"@ {
            SchematicFieldKey::CreatedAt
        } else if name@ == "_updatedAt"@ {
            SchematicFieldKey::UpdatedAt
        } else {
            SchematicFieldKey::Other(name)
        }
    }

    /// The name that the key spells.
    pub fn as_str(&self) -> (r: &str)
        ensures
            r@ == self.spec_str(),
    {
        match self {
            SchematicFieldKey::Id => "_id",
            SchematicFieldKey::Owner => "_owner",
            SchematicFieldKey::CreatedAt => "_createdAt",
            SchematicFieldKey::UpdatedAt => "_updatedAt",
            SchematicFieldKey::Other(s) => s.as_str(),
            SchematicFieldKey::OtherStatic(s) => s,
        }
    }

    /// Whether the key is written as the name of a user's field.
    pub fn is_other(&self) -> (r: bool)
        ensures
            r == (self is Other || self is OtherStatic),
    {
        match self {
            SchematicFieldKey::Other(_) | SchematicFieldKey::OtherStatic(_) => true,
            _ => false,
        }
    }

    /// The key that `name` is read as.
    pub fn parse(name: String) -> (r: SchematicFieldKey)
        ensures
            r == Self::named(name),
            r.spec_str() == name@,
    {
        if same_text(name.as_str(), "_id") {
            SchematicFieldKey::Id
        } else if same_text(name.as_str(), "_owner") {
            SchematicFieldKey::Owner
        } else if same_text(name.as_str(), "_createdAt") {
            SchematicFieldKey::CreatedAt
        } else if same_text(name.as_str(), "_updatedAt") {
            SchematicFieldKey::UpdatedAt
        } else {
            SchematicFieldKey::Other(name)
        }
    }

    /// Whether the key spells `name`.
    pub fn is_named(&self, name: &str) -> (r: bool)
        ensures
            r == (self.spec_str() == name@),
    {
        same_text(self.as_str(), name)
    }

    /// Equality of keys is equality of the names they spell: it holds of a
    /// key and itself, both ways round, and along a chain, and the variant
    /// plays no part in it.
    pub proof fn lemma_equality_is_by_name(
        a: SchematicFieldKey,
        b: SchematicFieldKey,
        c: SchematicFieldKey,
    )
        ensures
            a.eq_spec(&b) <==> a.spec_str() == b.spec_str(),
            a.eq_spec(&a),
            a.eq_spec(&b) ==> b.eq_spec(&a),
            a.eq_spec(&b) && b.eq_spec(&c) ==> a.eq_spec(&c),
    {
    }

    /// A name that is read as a key is equal to every key that spells the
    /// name, so a reserved name is equal to its reserved key.
    pub proof fn lemma_named_is_equal(name: String, key: SchematicFieldKey)
        requires
            key.spec_str() == name@,
        ensures
            Self::named(name).eq_spec(&key),
    {
    }
}

impl PartialEq for SchematicFieldKey {
    fn eq(&self, other: &SchematicFieldKey) -> (r: bool) {
        same_text(self.as_str(), other.as_str())
    }
}

impl vstd::std_specs::cmp::PartialEqSpecImpl for SchematicFieldKey {
    open spec fn obeys_eq_spec() -> bool {
        true
    }

    open spec fn eq_spec(&self, other: &SchematicFieldKey) -> bool {
        self.spec_str() == other.spec_str()
    }
}

impl Eq for SchematicFieldKey {

}

impl From<String> for SchematicFieldKey {
    /// The key that `name` is read as.
    fn from(name: String) -> (r: SchematicFieldKey) {
        SchematicFieldKey::parse(name)
    }
}

impl vstd::std_specs::convert::FromSpecImpl<String> for SchematicFieldKey {
    open spec fn obeys_from_spec() -> bool {
        true
    }

    open spec fn from_spec(name: String) -> SchematicFieldKey {
        SchematicFieldKey::named(name)
    }
}

impl From<&str> for SchematicFieldKey {
    /// The key that `name` is read as.
    fn from(name: &str) -> (r: SchematicFieldKey)
        ensures
            r.spec_str() == name@,
    {
        SchematicFieldKey::parse(String::from_str(name))
    }
}

impl vstd::std_specs::convert::FromSpecImpl<&str> for SchematicFieldKey {
    open spec fn obeys_from_spec() -> bool {
        false
    }

    open spec fn from_spec(name: &str) -> SchematicFieldKey {
        arbitrary()
    }
}

impl core::hash::Hash for SchematicFieldKey {
    /// Feeds the name that the key spells to the hasher, so that equal keys
    /// hash alike.
    fn hash<H: core::hash::Hasher>(&self, state: &mut H) {
        hash_text(self.as_str(), state)
    }
}

/// Calls `str::hash`, which feeds the bytes of a text to a hasher. Nothing
/// is claimed of the hasher afterwards.
#[verifier::external_body]
fn hash_text<H: core::hash::Hasher>(text: &str, state: &mut H) {
    core::hash::Hash::hash(text, state)
}


/// The fields of a schema by their keys.
pub type SchemaFieldMap = HashMap<SchematicFieldKey, SchematicField>;

/// A schema: what its rows are for, who may do what with them, and their
/// fields.
#[derive(Debug, Clone)]
pub struct Schematic {
    pub id: String,
    /// What the schema is for: Forms, Members, Marketing, Billing, etc.
    pub namespace: String,
    /// The field to display if it's being referenced.
    pub primary_field: String,
    /// The name of the schema.
    pub display_name: String,
    /// The capabilities of the schema.
    pub permissions: SchematicPermissions,
    /// A double given by its IEEE 754 bit pattern.
    pub version: u64,
    /// The operations allowed on the schema.
    pub allowed_operations: Vec<String>,
    pub is_deleted: bool,
    pub owner_app_id: String,
    pub fields: SchemaFieldMap,
    /// Time to live
    pub ttl: Option<core::time::Duration>,
    pub default_sort: Option<DefaultSort>,
    pub views: Vec<SchemaView>,
}

/// A named way of looking at the rows of a schema.
#[derive(Debug, Clone)]
pub struct SchemaView {
    pub name: String,
    pub query: SchemaViewQuery,
    pub view_type: SchemaViewTypes,
}

impl Default for SchemaView {
    /// The view named `Default View`, which sorts and filters nothing and
    /// hides nothing.
    fn default() -> (r: SchemaView)
        ensures
            r.name@ == "Default View"@,
            r.query.sort@.len() == 0,
            r.query.filter@.len() == 0,
            r.view_type.shows_everything(),
    {
        SchemaView {
            name: String::from_str("Default View"),
            query: SchemaViewQuery::default(),
            view_type: SchemaViewTypes::default(),
        }
    }
}

/// What each kind of view hides.
#[derive(Debug, Clone)]
pub struct SchemaViewTypes {
    pub form: SchemaViewItem,
    pub gallery: SchemaViewItem,
    pub list: SchemaViewItem,
    pub table: SchemaViewItem,
}

impl SchemaViewTypes {
    /// Whether no kind of view hides a field.
    pub open spec fn shows_everything(self) -> bool {
        &&& self.form.hidden_fields@.len() == 0
        &&& self.gallery.hidden_fields@.len() == 0
        &&& self.list.hidden_fields@.len() == 0
        &&& self.table.hidden_fields@.len() == 0
    }
}

impl Default for SchemaViewTypes {
    /// Views that hide nothing.
    fn default() -> (r: SchemaViewTypes)
        ensures
            r.shows_everything(),
    {
        SchemaViewTypes {
            form: SchemaViewItem::default(),
            gallery: SchemaViewItem::default(),
            list: SchemaViewItem::default(),
            table: SchemaViewItem::default(),
        }
    }
}

/// The fields that one kind of view hides.
#[derive(Debug, Clone)]
pub struct SchemaViewItem {
    pub hidden_fields: Vec<String>,
}

impl Default for SchemaViewItem {
    /// A view that hides nothing.
    fn default() -> (r: SchemaViewItem)
        ensures
            r.hidden_fields@.len() == 0,
    {
        SchemaViewItem { hidden_fields: Vec::new() }
    }
}

/// How a view sorts and filters.
#[derive(Debug, Clone)]
pub struct SchemaViewQuery {
    pub sort: Vec<DefaultSort>,
    pub filter: Vec<SchemaFilter>,
}

impl Default for SchemaViewQuery {
    /// A query that sorts and filters nothing.
    fn default() -> (r: SchemaViewQuery)
        ensures
            r.sort@.len() == 0,
            r.filter@.len() == 0,
    {
        SchemaViewQuery { sort: Vec::new(), filter: Vec::new() }
    }
}

/// Who may insert, update, remove and read the rows of a schema.
#[derive(Debug, Clone)]
pub struct SchematicPermissions {
    pub insert: PermissionsUser,
    pub update: PermissionsUser,
    pub remove: PermissionsUser,
    pub read: PermissionsUser,
}

impl Default for SchematicPermissions {
    /// Everything for the administrator alone.
    fn default() -> (r: SchematicPermissions)
        ensures
            r.insert == PermissionsUser::Admin,
            r.update == PermissionsUser::Admin,
            r.remove == PermissionsUser::Admin,
            r.read == PermissionsUser::Admin,
    {
        SchematicPermissions {
            insert: PermissionsUser::Admin,
            update: PermissionsUser::Admin,
            remove: PermissionsUser::Admin,
            read: PermissionsUser::Admin,
        }
    }
}

/// Who may do something.
#[derive(Debug, Clone, Copy, PartialEq, Eq, Structural)]
pub enum PermissionsUser {
    Anyone,
    Admin,
    Owner,
}

/// What can be done with the rows of a schema.
#[derive(Debug, Clone, Copy, PartialEq, Eq, Structural)]
pub enum Operations {
    BulkInsert,
    BulkSave,
    QueryReferenced,
    Truncate,
    ReplaceReferences,
    Count,
    Get,
    Find,
    RemoveReference,
    IsReferenced,
    Distinct,
    Remove,
    BulkUpdate,
    Insert,
    Save,
    Update,
    BulkRemove,
    Aggregate,
    InsertReference,
}

/// A field of a schema.
#[derive(Debug, Clone, PartialEq)]
pub struct SchematicField {
    pub display_name: String,
    pub sortable: bool,
    pub is_deleted: bool,
    pub system_field: bool,
    pub field_type: SchematicFieldType,
    pub index: u16,
    /// The schema that a reference points into.
    pub referenced_schema: Option<String>,
}

/// A filter of a view.
#[derive(Debug, Clone)]
pub struct SchemaFilter {
    pub field: String,
    pub condition: String,
    pub value: SchematicFieldValue,
}

/// The field that rows are sorted by, and the direction.
#[derive(Debug, Clone)]
pub struct DefaultSort {
    pub field: String,
    pub order: SortOrder,
}

/// The direction of a sort.
#[derive(Debug, Clone, Copy, PartialEq, Eq, Structural)]
pub enum SortOrder {
    Ascending,
    Descending,
}

impl SortOrder {
    /// The name of the direction on the wire.
    pub open spec fn spec_name(self) -> Seq<char> {
        match self {
            SortOrder::Ascending => "asc"@,
            SortOrder::Descending => "desc"@,
        }
    }

    /// The name of the direction on the wire.
    pub fn as_name(&self) -> (r: &'static str)
        ensures
            r@ == self.spec_name(),
    {
        match self {
            SortOrder::Ascending => "asc",
            SortOrder::Descending => "desc",
        }
    }
}

/// The kinds of value that need no parsing beyond their shape.
#[derive(Debug, Clone, Copy, PartialEq, Eq, Structural)]
pub enum SchematicFieldBasicType {
    Text,
    Number,
    Boolean,
    DateTime,
    Date,
    Time,
}

} // verus!
