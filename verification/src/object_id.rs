//! The names and identifiers of objects.
use crate::id::Uuid;
use crate::text::same_text;
use vstd::prelude::*;
use vstd::string::*;

verus! {

/// The name of the object that stands for the website itself.
pub const MAIN_WEBSITE_OBJ_ID: &'static str = "main";

/// The name and the identifier of an object.
#[derive(Debug, Clone, PartialEq)]
pub struct ObjectIdTuple {
    pub id: ObjectId,
    pub guid: ObjectGuid,
}

/// The name of an object.
#[derive(Debug, Clone, PartialEq, Eq, PartialOrd, Ord, Hash)]
pub struct ObjectId(String);

/// The identifier of an object.
#[derive(Debug, Clone, Copy, PartialEq, Eq, PartialOrd, Ord, Hash)]
pub struct ObjectGuid(pub Uuid);

impl View for ObjectId {
    type V = Seq<char>;

    /// The text of the name.
    closed spec fn view(&self) -> Seq<char> {
        self.0@
    }
}

impl ObjectId {
    /// The object of the given name.
    pub fn from_specific(value: String) -> (r: ObjectId)
        ensures
            r@ == value@,
    {
        ObjectId(value)
    }

    /// Gives the object the name `value`. It never refuses.
    pub fn try_rename(&mut self, value: String) -> (r: bool)
        ensures
            r,
            final(self)@ == value@,
    {
        let new_id = ObjectId(value);
        *self = new_id;
        true
    }

    /// The name of the website itself.
    pub fn website() -> (r: ObjectId)
        ensures
            r@ == MAIN_WEBSITE_OBJ_ID@,
    {
        ObjectId(String::from_str(MAIN_WEBSITE_OBJ_ID))
    }

    /// The text of the name, owned.
    pub fn into_string(self) -> (r: String)
        ensures
            r@ == self@,
    {
        self.0
    }

    /// The text of the name.
    pub fn as_str(&self) -> (r: &str)
        ensures
            r@ == self@,
    {
        self.0.as_str()
    }

    /// Whether the name is `name`.
    pub fn is_named(&self, name: &str) -> (r: bool)
        ensures
            r == (self@ == name@),
    {
        same_text(self.0.as_str(), name)
    }
}

impl From<String> for ObjectId {
    /// The object of the given name.
    fn from(value: String) -> (r: ObjectId)
        ensures
            r@ == value@,
    {
        ObjectId(value)
    }
}

impl vstd::std_specs::convert::FromSpecImpl<String> for ObjectId {
    open spec fn obeys_from_spec() -> bool {
        false
    }

    open spec fn from_spec(value: String) -> ObjectId {
        arbitrary()
    }
}

impl ObjectGuid {
    /// A fresh identifier. It is never that of the website itself.
    pub fn new() -> (r: ObjectGuid)
        ensures
            r.0.0 != 0,
    {
        ObjectGuid(Uuid::now_v7())
    }

    /// The identifier of the website itself: all zeros.
    pub fn website() -> (r: ObjectGuid)
        ensures
            r.0.0 == 0,
    {
        ObjectGuid(Uuid::nil())
    }

    /// Whether this is the identifier of the website itself.
    pub fn is_website(&self) -> (r: bool)
        ensures
            r == (self.0.0 == 0),
    {
        self.0.0 == 0
    }

    /// The text of the identifier.
    pub fn to_text(&self) -> (r: String)
        ensures
            r@ == crate::id::uuid_text(self.0.0),
    {
        self.0.to_text()
    }
}

impl Default for ObjectGuid {
    /// A fresh identifier.
    fn default() -> (r: ObjectGuid)
        ensures
            r.0.0 != 0,
    {
        ObjectGuid::new()
    }
}

impl ObjectIdTuple {
    /// Whether the object has the name `other`.
    pub fn has_id(&self, other: &ObjectId) -> (r: bool)
        ensures
            r == (self.id@ == other@),
    {
        self.id.is_named(other.as_str())
    }

    /// Whether the object has the identifier `other`.
    pub fn has_guid(&self, other: &ObjectGuid) -> (r: bool)
        ensures
            r == (self.guid.0.0 == other.0.0),
    {
        self.guid.0.0 == other.0.0
    }
}

} // verus!
