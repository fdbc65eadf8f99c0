//! The bodies of requests.
use crate::collection::CollectionName;
use crate::filter::Filter;
use crate::schema::{SchemaView, SchematicFieldType};
use crate::value::SimpleValue;
use std::collections::HashMap;
use vstd::prelude::*;

verus! {

/// The creation of a collection.
#[derive(Debug, Clone)]
pub struct CmsCreate {
    pub id: CollectionName,
    pub name: String,
    pub is_single: bool,
    pub update: CmsUpdate,
    pub columns: Option<Vec<CmsCreateDataColumn>>,
    pub data: Option<HashMap<String, Vec<SimpleValue>>>,
}

/// A query for rows of a collection.
#[derive(Debug, Clone)]
pub struct CmsQuery {
    pub filters: Option<Vec<Filter>>,
    /// The direction of the sort by column.
    pub sort: Option<HashMap<String, String>>,
    /// Columns which should be returned
    pub columns: Option<String>,
    pub limit: Option<u64>,
    pub offset: Option<u64>,
    pub include_files: bool,
}

impl Default for CmsQuery {
    /// The query that asks for everything and for no files.
    fn default() -> (r: CmsQuery)
        ensures
            r.filters is None,
            r.sort is None,
            r.columns is None,
            r.limit is None,
            r.offset is None,
            !r.include_files,
    {
        CmsQuery {
            filters: None,
            sort: None,
            columns: None,
            limit: None,
            offset: None,
            include_files: false,
        }
    }
}

/// The change of a collection.
#[derive(Debug, Clone)]
pub struct CmsUpdate {
    pub views: Option<Vec<SchemaView>>,
}

impl Default for CmsUpdate {
    /// The change that changes nothing.
    fn default() -> (r: CmsUpdate)
        ensures
            r.views is None,
    {
        CmsUpdate { views: None }
    }
}

/// The change of one cell of a row.
pub struct CmsUpdateDataCell {
    pub field_name: String,
    pub value: Option<SimpleValue>,
}

/// A column of a collection that is being created.
#[derive(Debug, Clone)]
pub struct CmsCreateDataColumn {
    pub id: String,
    pub name: String,
    pub type_of: SchematicFieldType,
    pub referenced_schema: Option<String>,
}

/// A tag of a column of a collection that is being created.
#[derive(Debug, Clone)]
pub struct CmsCreateDataColumnTag {
    pub tag: String,
}

} // verus!
