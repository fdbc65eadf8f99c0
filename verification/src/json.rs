//! JSON documents as a tree of plain values, and their reading from bytes.
use serde_json::Value;
use vstd::prelude::*;
use vstd::string::*;

verus! {

/// A JSON number: a whole number that is not negative, a negative whole
/// number, or a double given by its IEEE 754 bit pattern.
#[derive(Clone, Copy, Debug, PartialEq, Eq)]
pub enum JsonNumber {
    PosInt(u64),
    NegInt(i64),
    Float(u64),
}

/// A JSON value. The members of an object stand in the order of their keys.
#[derive(Debug, PartialEq, Eq)]
pub enum Json {
    Null,
    Bool(bool),
    Number(JsonNumber),
    Text(String),
    Array(Vec<Json>),
    Object(Vec<(String, Json)>),
}

/// What a JSON value holds: the mathematical tree that contracts speak of.
pub enum JsonModel {
    Null,
    Bool(bool),
    Number(JsonNumber),
    Text(Seq<char>),
    Array(Seq<JsonModel>),
    Object(Seq<(Seq<char>, JsonModel)>),
}

impl Json {
    /// The tree of the value, node by node.
    pub open spec fn model(self) -> JsonModel
        decreases self,
    {
        match self {
            Json::Null => JsonModel::Null,
            Json::Bool(b) => JsonModel::Bool(b),
            Json::Number(n) => JsonModel::Number(n),
            Json::Text(s) => JsonModel::Text(s@),
            Json::Array(items) => JsonModel::Array(
                Seq::new(
                    items@.len(),
                    |i: int|
                        if 0 <= i < items@.len() {
                            items@[i].model()
                        } else {
                            JsonModel::Null
                        },
                ),
            ),
            Json::Object(members) => JsonModel::Object(
                Seq::new(
                    members@.len(),
                    |i: int|
                        if 0 <= i < members@.len() {
                            (members@[i].0@, members@[i].1.model())
                        } else {
                            (Seq::empty(), JsonModel::Null)
                        },
                ),
            ),
        }
    }
}

impl View for Json {
    type V = JsonModel;

    /// The tree of the value.
    open spec fn view(&self) -> JsonModel {
        self.model()
    }
}

impl Clone for Json {
    /// A copy of the value, node by node.
    fn clone(&self) -> (r: Json)
        ensures
            r@ == self@,
        decreases self,
    {
        match self {
            Json::Null => Json::Null,
            Json::Bool(b) => Json::Bool(*b),
            Json::Number(n) => Json::Number(*n),
            Json::Text(s) => Json::Text(s.clone()),
            Json::Array(items) => {
                let mut copy: Vec<Json> = Vec::new();
                let mut i: usize = 0;
                while i < items.len()
                    invariant
                        i <= items.len(),
                        copy@.len() == i,
                        forall|j: int| 0 <= j < i ==> copy@[j]@ == items@[j]@,
                        decreases_to!(*self => *items),
                    decreases items.len() - i,
                {
                    proof {
                        vstd::std_specs::vec::axiom_vec_index_decreases(*items, i as int);
                    }
                    copy.push(items[i].clone());
                    i += 1;
                }
                let r = Json::Array(copy);
                assert(r@ == self@) by {
                    assert(*self == Json::Array(*items));
                    assert(r@->Array_0 =~= self@->Array_0);
                }
                r
            },
            Json::Object(members) => {
                let mut copy: Vec<(String, Json)> = Vec::new();
                let mut i: usize = 0;
                while i < members.len()
                    invariant
                        i <= members.len(),
                        copy@.len() == i,
                        forall|j: int|
                            0 <= j < i ==> copy@[j].0@ == members@[j].0@ && copy@[j].1@
                                == members@[j].1@,
                        decreases_to!(*self => *members),
                    decreases members.len() - i,
                {
                    proof {
                        vstd::std_specs::vec::axiom_vec_index_decreases(*members, i as int);
                    }
                    copy.push((members[i].0.clone(), members[i].1.clone()));
                    i += 1;
                }
                let r = Json::Object(copy);
                assert(r@ == self@) by {
                    assert(*self == Json::Object(*members));
                    assert(r@->Object_0 =~= self@->Object_0);
                }
                r
            },
        }
    }
}

/// The trees of a sequence of JSON values, in order.
pub open spec fn models(items: Seq<Json>) -> Seq<JsonModel> {
    Seq::new(items.len(), |i: int| items[i]@)
}

/// The tree of an array is the array of the trees of its items.
pub proof fn lemma_array_model(items: Vec<Json>)
    ensures
        Json::Array(items)@ == JsonModel::Array(models(items@)),
{
    assert(Json::Array(items)@->Array_0 =~= models(items@));
}

/// The keys and trees of the members of an object, in order.
pub open spec fn member_models(members: Seq<(String, Json)>) -> Seq<(Seq<char>, JsonModel)> {
    Seq::new(members.len(), |i: int| (members[i].0@, members[i].1@))
}

/// The tree of an object is the object of the keys and trees of its members.
pub proof fn lemma_object_model(members: Vec<(String, Json)>)
    ensures
        Json::Object(members)@ == JsonModel::Object(member_models(members@)),
{
    assert(Json::Object(members)@->Object_0 =~= member_models(members@));
}

/// A copy of each of `items`, in order.
pub fn clone_items(items: &Vec<Json>) -> (r: Vec<Json>)
    ensures
        models(r@) == models(items@),
{
    let mut copy: Vec<Json> = Vec::new();
    let mut i: usize = 0;
    while i < items.len()
        invariant
            i <= items.len(),
            copy@.len() == i,
            forall|j: int| 0 <= j < i ==> copy@[j]@ == items@[j]@,
        decreases items.len() - i,
    {
        copy.push(items[i].clone());
        i += 1;
    }
    assert(models(copy@) =~= models(items@));
    copy
}

impl Json {
    /// The items of an array; `None` for any other value.
    pub fn into_array(self) -> (r: Option<Vec<Json>>)
        ensures
            match r {
                Some(items) => self@ == JsonModel::Array(models(items@)),
                None => !(self@ is Array),
            },
    {
        match self {
            Json::Array(items) => {
                proof {
                    lemma_array_model(items);
                }
                Some(items)
            },
            _ => None,
        }
    }
}

/// The first member of an object that has the key `key`.
pub open spec fn member_of(members: Seq<(Seq<char>, JsonModel)>, key: Seq<char>) -> Option<
    JsonModel,
>
    decreases members.len(),
{
    if members.len() == 0 {
        None
    } else if members[0].0 == key {
        Some(members[0].1)
    } else {
        member_of(members.drop_first(), key)
    }
}

impl JsonModel {
    /// The whole number that the value is, if it is a whole number between
    /// `lo` and `hi`.
    pub open spec fn whole_between(self, lo: int, hi: int) -> Option<int> {
        match self {
            JsonModel::Number(n) => match n.whole() {
                Some(v) => if lo <= v <= hi {
                    Some(v)
                } else {
                    None
                },
                None => None,
            },
            _ => None,
        }
    }

    /// The member of the object with the key `key`, if the value is an
    /// object that has one.
    pub open spec fn member(self, key: Seq<char>) -> Option<JsonModel> {
        match self {
            JsonModel::Object(members) => member_of(members, key),
            _ => None,
        }
    }
}

impl Json {
    /// The whole number that the value is, if it is a whole number between
    /// `lo` and `hi`.
    pub fn whole_between(&self, lo: i64, hi: i64) -> (r: Option<i64>)
        ensures
            r matches Some(v) ==> self@.whole_between(lo as int, hi as int) == Some(v as int),
            r is None ==> self@.whole_between(lo as int, hi as int) is None,
    {
        match self {
            Json::Number(JsonNumber::PosInt(u)) => {
                if hi >= 0 && *u <= hi as u64 && (lo <= 0 || *u >= lo as u64) {
                    Some(*u as i64)
                } else {
                    None
                }
            },
            Json::Number(JsonNumber::NegInt(i)) => {
                if lo <= *i && *i <= hi {
                    Some(*i)
                } else {
                    None
                }
            },
            _ => None,
        }
    }

    /// The member of the object with the key `key`, if the value is an
    /// object that has one.
    pub fn member(&self, key: &str) -> (r: Option<&Json>)
        ensures
            match r {
                Some(json) => self@.member(key@) == Some(json@),
                None => self@.member(key@) is None,
            },
    {
        match self {
            Json::Object(members) => {
                let mut i: usize = 0;
                proof {
                    assert(self@->Object_0.skip(0) =~= self@->Object_0);
                }
                while i < members.len()
                    invariant
                        i <= members.len(),
                        *self == Json::Object(*members),
                        self@ is Object,
                        self@->Object_0.len() == members@.len(),
                        forall|j: int|
                            0 <= j < members@.len() ==> self@->Object_0[j] == (
                                members@[j].0@,
                                members@[j].1@,
                            ),
                        member_of(self@->Object_0, key@) == member_of(
                            self@->Object_0.skip(i as int),
                            key@,
                        ),
                    decreases members.len() - i,
                {
                    let ghost rest = self@->Object_0.skip(i as int);
                    proof {
                        assert(rest[0] == self@->Object_0[i as int]);
                        assert(rest.drop_first() =~= self@->Object_0.skip(i + 1));
                    }
                    if crate::text::same_text(members[i].0.as_str(), key) {
                        return Some(&members[i].1);
                    }
                    i += 1;
                }
                None
            },
            _ => None,
        }
    }

    /// The items of an array; `None` for any other value.
    pub fn as_array(&self) -> (r: Option<&Vec<Json>>)
        ensures
            match r {
                Some(items) => self@ == JsonModel::Array(models(items@)),
                None => !(self@ is Array),
            },
    {
        match self {
            Json::Array(items) => {
                proof {
                    lemma_array_model(*items);
                }
                Some(items)
            },
            _ => None,
        }
    }
}

impl JsonNumber {
    /// The whole number that the number is; a double is none, whatever its
    /// value.
    pub open spec fn whole(self) -> Option<int> {
        match self {
            JsonNumber::PosInt(u) => Some(u as int),
            JsonNumber::NegInt(i) => Some(i as int),
            JsonNumber::Float(_) => None,
        }
    }

    /// The JSON number of a whole number: negative or not.
    pub open spec fn of_int(i: int) -> JsonNumber {
        if i < 0 {
            JsonNumber::NegInt(i as i64)
        } else {
            JsonNumber::PosInt(i as u64)
        }
    }

    /// The JSON number of a signed whole number.
    pub fn from_i64(i: i64) -> (r: JsonNumber)
        ensures
            r == Self::of_int(i as int),
    {
        if i < 0 {
            JsonNumber::NegInt(i)
        } else {
            JsonNumber::PosInt(i as u64)
        }
    }
}

/// A JSON value of the `serde_json` crate.
#[verifier::external_type_specification]
#[verifier::external_body]
pub struct ExJsonValue(serde_json::Value);

/// The error of the `serde_json` crate.
#[verifier::external_type_specification]
#[verifier::external_body]
pub struct ExJsonError(serde_json::Error);

/// The JSON value that `serde_json::from_slice` reads from `bytes`, or
/// `None` where it refuses them.
pub uninterp spec fn json_document(bytes: Seq<u8>) -> Option<JsonModel>;

/// The JSON value that is read from the UTF-8 bytes of `text`.
pub open spec fn json_of_text(text: Seq<char>) -> Option<JsonModel> {
    json_document(vstd::utf8::encode_utf8(text))
}

/// The tree that a `serde_json::Value` holds.
pub uninterp spec fn json_held(value: Value) -> JsonModel;

/// Moves a `serde_json::Value` into a `Json`, variant by variant; of a
/// number it tells the three forms apart by `as_u64` and `as_i64` and takes a
/// double by `to_bits`. The contract names what the value holds `json_held`.
#[verifier::external_body]
pub(crate) fn json_tree(value: Value) -> (r: Json)
    ensures
        r@ == json_held(value),
{
    match value {
        Value::Null => Json::Null,
        Value::Bool(b) => Json::Bool(b),
        Value::Number(n) => Json::Number(match (n.as_u64(), n.as_i64()) {
            (Some(u), _) => JsonNumber::PosInt(u),
            (None, Some(i)) => JsonNumber::NegInt(i),
            (None, None) => JsonNumber::Float(n.as_f64().unwrap_or_default().to_bits()),
        }),
        Value::String(s) => Json::Text(s),
        Value::Array(a) => Json::Array(a.into_iter().map(json_tree).collect()),
        Value::Object(m) => Json::Object(m.into_iter().map(|(k, v)| (k, json_tree(v))).collect()),
    }
}

/// Calls `serde_json::from_slice` for a `serde_json::Value`. The contract
/// names what the outcome holds `json_document`; nothing more is claimed of
/// it.
#[verifier::external_body]
pub(crate) fn json_from_bytes(bytes: &[u8]) -> (r: Result<Value, serde_json::Error>)
    ensures
        match r {
            Ok(value) => json_document(bytes@) == Some(json_held(value)),
            Err(_) => json_document(bytes@) is None,
        },
{
    serde_json::from_slice::<Value>(bytes)
}

impl Json {
    /// Reads a JSON value from bytes.
    pub fn parse_bytes(bytes: &[u8]) -> (r: Option<Json>)
        ensures
            match r {
                Some(json) => json_document(bytes@) == Some(json@),
                None => json_document(bytes@) is None,
            },
    {
        match json_from_bytes(bytes) {
            Ok(value) => Some(json_tree(value)),
            Err(_) => None,
        }
    }

    /// Reads a JSON value from text.
    pub fn parse(text: &str) -> (r: Option<Json>)
        ensures
            match r {
                Some(json) => json_of_text(text@) == Some(json@),
                None => json_of_text(text@) is None,
            },
    {
        Self::parse_bytes(text.as_bytes())
    }
}

} // verus!
