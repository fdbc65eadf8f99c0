//! What is known of an uploaded file.
use crate::clock::OffsetDateTime;
use vstd::prelude::*;

verus! {

/// An upload to a website.
#[derive(Debug, Clone, PartialEq)]
pub struct WebsiteUpload {
    /// Where the upload is from: the main website where there is none, else
    /// an addon.
    pub namespace: Option<String>,
    pub public_id: String,
    pub upload_type: String,
    pub display_name: String,
    pub created_at: OffsetDateTime,
    pub deleted_at: Option<OffsetDateTime>,
    pub media: Option<WebsiteUploadFile>,
    pub using_variant: Option<WebsiteUploadVariant>,
}

/// A variant of an uploaded picture.
#[derive(Debug, Clone, PartialEq)]
pub struct WebsiteUploadVariant {
    pub file_type: String,
    pub size: i64,
    pub width: i32,
    pub height: i32,
    /// Width by height, a single-precision number given by its IEEE 754 bit
    /// pattern.
    pub ratio: u32,
}

/// The file behind an upload.
#[derive(Debug, Clone, PartialEq)]
pub struct WebsiteUploadFile {
    pub file_size: i64,
    pub file_type: String,
    pub media_width: Option<i32>,
    pub media_height: Option<i32>,
    pub media_duration: Option<i32>,
    pub is_editable: bool,
    pub has_thumbnail: bool,
    pub is_global: bool,
}

} // verus!
