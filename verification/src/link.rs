//! Web addresses.
use crate::error::{Shape, ValueError};
use vstd::prelude::*;

verus! {

/// A web address, held as the text that the `url` crate serialises it to.
#[derive(Clone, Debug, PartialEq, Eq)]
pub struct Url {
    pub(crate) text: String,
}

impl View for Url {
    type V = Seq<char>;

    /// The serialised address.
    closed spec fn view(&self) -> Seq<char> {
        self.text@
    }
}

/// The parse error of the `url` crate.
#[verifier::external_type_specification]
#[verifier::external_body]
pub struct ExUrlParseError(::url::ParseError);

/// The serialisation of the address that `url::Url::parse` reads from
/// `input`, or `None` where it refuses the input.
pub uninterp spec fn url_serialization(input: Seq<char>) -> Option<Seq<char>>;

/// Calls `url::Url::parse` and takes the address as a `String`. The contract
/// names the outcome `url_serialization`; nothing more is claimed of it.
#[verifier::external_body]
pub(crate) fn url_from_text(input: &str) -> (r: Result<String, ::url::ParseError>)
    ensures
        match r {
            Ok(text) => url_serialization(input@) == Some(text@),
            Err(_) => url_serialization(input@) is None,
        },
{
    Ok(::url::Url::parse(input)?.into())
}

impl Url {
    /// The address that a parse outcome stands for: the serialised text of
    /// an accepted address, a format failure for a refused one.
    pub open spec fn of_outcome(outcome: Option<Seq<char>>) -> Result<Seq<char>, ValueError> {
        match outcome {
            Some(text) => Ok(text),
            None => Err(ValueError::Format(Shape::Url)),
        }
    }

    /// Wraps the serialised text of a parsed address, or reports a refused
    /// one as a format failure.
    pub fn from_outcome(outcome: Option<String>) -> (r: Result<Url, ValueError>)
        ensures
            match r {
                Ok(url) => outcome matches Some(text) && url@ == text@,
                Err(e) => outcome is None && e == ValueError::Format(Shape::Url),
            },
    {
        match outcome {
            Some(text) => Ok(Url { text }),
            None => Err(ValueError::Format(Shape::Url)),
        }
    }

    /// Reads a web address from `input`.
    pub fn parse(input: &str) -> (r: Result<Url, ValueError>)
        ensures
            match r {
                Ok(url) => Self::of_outcome(url_serialization(input@)) == Ok::<
                    Seq<char>,
                    ValueError,
                >(url@),
                Err(e) => Self::of_outcome(url_serialization(input@)) == Err::<
                    Seq<char>,
                    ValueError,
                >(e),
            },
    {
        match url_from_text(input) {
            Ok(text) => Self::from_outcome(Some(text)),
            Err(_) => Self::from_outcome(None),
        }
    }

    /// The serialised address.
    pub fn as_str(&self) -> (r: &str)
        ensures
            r@ == self@,
    {
        self.text.as_str()
    }

    /// The serialised address, owned.
    pub fn into_string(self) -> (r: String)
        ensures
            r@ == self@,
    {
        self.text
    }
}

} // verus!
