//! Names of collections, with their namespace.
use vstd::prelude::*;
use vstd::string::*;

verus! {

/// Whether `k` is the place of the first `:` of `text`.
pub open spec fn is_first_colon(text: Seq<char>, k: int) -> bool {
    &&& 0 <= k < text.len()
    &&& text[k] == ':'
    &&& forall|j: int| 0 <= j < k ==> text[j] != ':'
}

/// Whether `text` holds no `:`.
pub open spec fn no_colon(text: Seq<char>) -> bool {
    forall|j: int| 0 <= j < text.len() ==> text[j] != ':'
}

/// The place of the first `:` of `text`, if it holds one.
pub fn find_colon(text: &str) -> (r: Option<usize>)
    ensures
        match r {
            Some(k) => is_first_colon(text@, k as int),
            None => no_colon(text@),
        },
{
    let n = text.unicode_len();
    let mut k: usize = 0;
    let mut found: Option<usize> = None;
    for c in it: text.chars()
        invariant
            found is None ==> k == it.index(),
            found is None ==> forall|j: int| 0 <= j < k ==> text@[j] != ':',
            found matches Some(p) ==> is_first_colon(text@, p as int),
            it.seq() == text@,
            n == text@.len(),
    {
        if found.is_none() {
            if c == ':' {
                found = Some(k);
            } else {
                k = k + 1;
            }
        }
    }
    found
}


/// The name of a collection: its identifier and, where it has one, its
/// namespace.
#[derive(Debug, Clone)]
pub struct CollectionName {
    pub id: String,
    pub ns: Option<String>,
}

/// What a collection name holds: the texts of namespace and identifier.
pub struct CollectionNameModel {
    pub id: Seq<char>,
    pub ns: Option<Seq<char>>,
}

impl View for CollectionName {
    type V = CollectionNameModel;

    open spec fn view(&self) -> CollectionNameModel {
        CollectionNameModel {
            id: self.id@,
            ns: match self.ns {
                Some(ns) => Some(ns@),
                None => None,
            },
        }
    }
}

impl CollectionNameModel {
    /// The name that a text spells: what stands before its first `:` is the
    /// namespace and what stands after it the identifier; a text without
    /// `:` is an identifier without a namespace.
    pub open spec fn decoded(text: Seq<char>) -> CollectionNameModel {
        if no_colon(text) {
            CollectionNameModel { id: text, ns: None }
        } else {
            let k = choose|k: int| is_first_colon(text, k);
            CollectionNameModel { id: text.skip(k + 1), ns: Some(text.take(k)) }
        }
    }

    /// The text that spells the name: namespace, `:` and identifier, or the
    /// identifier alone.
    pub open spec fn encoded(self) -> Seq<char> {
        match self.ns {
            Some(ns) => ns + seq![':'] + self.id,
            None => self.id,
        }
    }

    /// Whether the name is found again from its text: its namespace holds
    /// no `:`, and without a namespace neither does its identifier.
    pub open spec fn canonical(self) -> bool {
        match self.ns {
            Some(ns) => no_colon(ns),
            None => no_colon(self.id),
        }
    }

    /// A text has one first `:` at most.
    pub proof fn lemma_first_colon_is_unique(text: Seq<char>, a: int, b: int)
        requires
            is_first_colon(text, a),
            is_first_colon(text, b),
        ensures
            a == b,
    {
        if a < b {
            assert(text[a] != ':');
        } else if b < a {
            assert(text[b] != ':');
        }
    }

    /// A text with its first `:` at `k` spells the namespace before `k` and
    /// the identifier after it.
    pub proof fn lemma_decoded_at(text: Seq<char>, k: int)
        requires
            is_first_colon(text, k),
        ensures
            Self::decoded(text) == (CollectionNameModel {
                id: text.skip(k + 1),
                ns: Some(text.take(k)),
            }),
    {
        assert(!no_colon(text));
        let chosen = choose|j: int| is_first_colon(text, j);
        Self::lemma_first_colon_is_unique(text, k, chosen);
    }

    /// Decoding the text of a name gives the name again, if its namespace
    /// holds no `:` and, where it has no namespace, its identifier holds
    /// none either.
    pub proof fn lemma_round_trip(name: CollectionNameModel)
        requires
            name.canonical(),
        ensures
            Self::decoded(name.encoded()) == name,
    {
        match name.ns {
            Some(ns) => {
                let text = name.encoded();
                let k = ns.len() as int;
                assert(text[k] == ':');
                assert forall|j: int| 0 <= j < k implies text[j] != ':' by {
                    assert(text[j] == ns[j]);
                }
                Self::lemma_decoded_at(text, k);
                assert(text.take(k) =~= ns);
                assert(text.skip(k + 1) =~= name.id);
            },
            None => {},
        }
    }

    /// The text of a decoded name is the text that was decoded.
    pub proof fn lemma_encoded_decoded(text: Seq<char>)
        ensures
            Self::decoded(text).encoded() == text,
            Self::decoded(text).canonical(),
    {
        if !no_colon(text) {
            let k = choose|k: int| is_first_colon(text, k);
            let j = choose|j: int| 0 <= j < text.len() && text[j] == ':';
            Self::lemma_has_first_colon(text, j);
            assert(text.take(k) + seq![':'] + text.skip(k + 1) =~= text);
        }
    }

    /// A text that holds a `:` has a first one.
    pub proof fn lemma_has_first_colon(text: Seq<char>, j: int)
        requires
            0 <= j < text.len(),
            text[j] == ':',
        ensures
            exists|k: int| is_first_colon(text, k),
        decreases j,
    {
        if forall|i: int| 0 <= i < j ==> text[i] != ':' {
            assert(is_first_colon(text, j));
        } else {
            let i = choose|i: int| 0 <= i < j && text[i] == ':';
            Self::lemma_has_first_colon(text, i);
        }
    }
}

impl CollectionName {
    /// Reads a name from its text.
    pub fn decode(value: &str) -> (r: CollectionName)
        ensures
            r@ == CollectionNameModel::decoded(value@),
    {
        match find_colon(value) {
            Some(k) => {
                let n = value.unicode_len();
                proof {
                    CollectionNameModel::lemma_decoded_at(value@, k as int);
                }
                let ns = value.substring_char(0, k);
                let id = value.substring_char(k + 1, n);
                assert(ns@ =~= value@.take(k as int));
                assert(id@ =~= value@.skip(k + 1));
                CollectionName { id: String::from_str(id), ns: Some(String::from_str(ns)) }
            },
            None => CollectionName { id: String::from_str(value), ns: None },
        }
    }

    /// The text that spells the name.
    pub fn to_text(&self) -> (r: String)
        ensures
            r@ == self@.encoded(),
    {
        match &self.ns {
            Some(ns) => {
                let mut out = ns.clone();
                out.push(':');
                out.append(self.id.as_str());
                out
            },
            None => self.id.clone(),
        }
    }
}

impl From<&str> for CollectionName {
    /// Reads a name from its text.
    fn from(value: &str) -> (r: CollectionName)
        ensures
            r@ == CollectionNameModel::decoded(value@),
    {
        CollectionName::decode(value)
    }
}

impl vstd::std_specs::convert::FromSpecImpl<&str> for CollectionName {
    open spec fn obeys_from_spec() -> bool {
        false
    }

    open spec fn from_spec(value: &str) -> CollectionName {
        arbitrary()
    }
}

} // verus!
