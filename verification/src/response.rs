//! The envelopes of responses.
use crate::clock::OffsetDateTime;
use crate::id::{AddonInstanceUuid, FormPublicId, SchemaDataPublicId};
use crate::json::Json;
use crate::schema::{SchemaFieldMap, SchemaView, SchematicFieldKey, SchematicPermissions};
use crate::upload::WebsiteUpload;
use crate::value::SimpleValue;
use std::collections::HashMap;
use vstd::prelude::*;
use vstd::string::*;

verus! {

/// What the installation of an addon answers.
pub struct AddonInstallResponse {
    pub instance_uuid: AddonInstanceUuid,
    pub new_pages: Json,
}

/// What the creation of a collection answers.
pub struct CmsCreateResponse {
    pub id: String,
    pub name: String,
    pub namespace: Option<String>,
    pub data_ids: Option<Vec<SchemaDataPublicId>>,
}

/// A collection with its tags.
pub struct CmsResponse {
    pub collection: PublicSchema,
    pub tags: Vec<SchemaTag>,
    /// The form that belongs to the collection, if one does.
    pub form_id: Option<FormPublicId>,
}

/// A row of a collection: its files and its fields.
#[derive(Debug, Clone, PartialEq)]
pub struct CmsRowResponse {
    pub files: Vec<WebsiteUpload>,
    pub fields: HashMap<SchematicFieldKey, SimpleValue>,
}

/// A schema as the public sees it.
#[derive(Debug, Clone)]
pub struct PublicSchema {
    pub schema_id: String,
    pub namespace: Option<String>,
    pub primary_field: String,
    pub display_name: String,
    pub permissions: SchematicPermissions,
    /// A single-precision number given by its IEEE 754 bit pattern.
    pub version: u32,
    pub allowed_operations: Vec<String>,
    pub is_single: bool,
    pub fields: SchemaFieldMap,
    pub ttl: Option<i32>,
    pub default_sort: Option<String>,
    pub views: Vec<SchemaView>,
    pub created_at: OffsetDateTime,
    pub updated_at: OffsetDateTime,
    pub deleted_at: Option<OffsetDateTime>,
}

/// A tag of a row.
#[derive(Clone)]
pub struct SchemaTag {
    pub id: i64,
    pub row_id: String,
    pub name: String,
    pub color: String,
}

/// The name of a collection and whether it holds a single row.
#[derive(Clone)]
pub struct BasicCmsInfo {
    pub id: String,
    pub name: String,
    pub namespace: Option<String>,
    pub is_single: bool,
}

/// A page of a list: the items, where the page starts, how many items were
/// asked for and how many there are in all.
#[derive(Debug, PartialEq, Clone)]
pub struct ListResponse<T> {
    pub items: Vec<T>,
    pub offset: i64,
    pub limit: i64,
    pub total: i64,
}

impl<T> ListResponse<T> {
    /// The page of nothing.
    pub fn empty() -> (r: ListResponse<T>)
        ensures
            r.items@.len() == 0,
            r.offset == 0,
            r.limit == 0,
            r.total == 0,
    {
        ListResponse { items: Vec::new(), offset: 0, limit: 0, total: 0 }
    }

    /// The one page that holds all of `value`.
    pub fn all(value: Vec<T>) -> (r: ListResponse<T>)
        ensures
            r.items == value,
            r.offset == 0,
            r.limit == value@.len() as i64,
            r.total == value@.len() as i64,
    {
        let count = #[verifier::truncate]
        (value.len() as i64);
        ListResponse { offset: 0, limit: count, total: count, items: value }
    }
}

/// A single value in an envelope.
#[derive(Debug, Clone)]
pub struct SingleValue<V>(pub V);

/// What an operation answers: a value or the description of a failure.
#[derive(Debug, Clone)]
pub enum WrappingResponse<V> {
    Resp(V),
    Error(ApiErrorResponse),
}

/// The description of a failure.
#[derive(Debug, Clone)]
pub struct ApiErrorResponse {
    pub description: String,
}

impl<V> WrappingResponse<V> {
    /// The answer that holds `value`.
    pub fn okay(value: V) -> (r: WrappingResponse<V>)
        ensures
            r == WrappingResponse::Resp(value),
    {
        WrappingResponse::Resp(value)
    }

    /// The answer that reports a failure described by `value`.
    pub fn error(value: String) -> (r: WrappingResponse<V>)
        ensures
            r matches WrappingResponse::Error(e) && e.description == value,
    {
        WrappingResponse::Error(ApiErrorResponse::new(value))
    }

    /// The value, or the failure as an error.
    pub fn ok(self) -> (r: Result<V, ApiErrorResponse>)
        ensures
            r == (match self {
                WrappingResponse::Resp(v) => Ok::<V, ApiErrorResponse>(v),
                WrappingResponse::Error(e) => Err(e),
            }),
    {
        match self {
            WrappingResponse::Resp(v) => Ok(v),
            WrappingResponse::Error(e) => Err(e),
        }
    }

    /// The value, or the failure as an error, both borrowed.
    pub fn as_ok(&self) -> (r: Result<&V, &ApiErrorResponse>)
        ensures
            match *self {
                WrappingResponse::Resp(v) => r matches Ok(x) && *x == v,
                WrappingResponse::Error(e) => r matches Err(x) && *x == e,
            },
    {
        match self {
            WrappingResponse::Resp(v) => Ok(v),
            WrappingResponse::Error(e) => Err(e),
        }
    }

    /// The answer with `func` applied to its value; a failure stays as it is.
    pub fn map<N, F: Fn(V) -> N>(self, func: F) -> (r: WrappingResponse<N>)
        requires
            self matches WrappingResponse::Resp(v) ==> func.requires((v,)),
        ensures
            match self {
                WrappingResponse::Resp(v) => r matches WrappingResponse::Resp(n) && func.ensures(
                    (v,),
                    n,
                ),
                WrappingResponse::Error(e) => r == WrappingResponse::<N>::Error(e),
            },
    {
        match self {
            WrappingResponse::Resp(v) => WrappingResponse::Resp(func(v)),
            WrappingResponse::Error(e) => WrappingResponse::Error(e),
        }
    }
}

impl ApiErrorResponse {
    /// The failure that `value` describes.
    pub fn new(value: String) -> (r: ApiErrorResponse)
        ensures
            r.description == value,
    {
        ApiErrorResponse { description: value }
    }

    /// The message of the failure.
    pub open spec fn text(self) -> Seq<char> {
        "Api Error Occurred: "@ + self.description@
    }

    /// The message of the failure.
    pub fn to_text(&self) -> (r: String)
        ensures
            r@ == self.text(),
    {
        String::from_str("Api Error Occurred: ").concat(self.description.as_str())
    }
}

} // verus!
