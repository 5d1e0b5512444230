//! Preview requests and results, and which files can be previewed.
use vstd::prelude::*;
use crate::entry::{FileEntry, SortDirection, SortOrder};
use crate::text::{chars_of, lowercase, to_lowercase};

verus! {

/// Request to load a directory preview.
#[derive(Debug)]
pub struct PreviewRequest {
    /// Path to load.
    pub path: String,
    /// Sort order to apply.
    pub sort_order: SortOrder,
    /// Sort direction to apply.
    pub sort_direction: SortDirection,
    /// Request ID for matching responses.
    pub request_id: u64,
}

/// Result of a preview load operation.
#[derive(Debug)]
pub struct PreviewResult {
    /// Path that was loaded.
    pub path: String,
    /// Loaded entries (None if load failed).
    pub entries: Option<Vec<FileEntry>>,
    /// Request ID for matching.
    pub request_id: u64,
}

/// Request to load an image preview.
#[derive(Debug)]
pub struct ImagePreviewRequest {
    /// Path to load.
    pub path: String,
    /// Maximum width for the preview.
    pub max_width: u32,
    /// Maximum height for the preview.
    pub max_height: u32,
    /// Request ID for matching responses.
    pub request_id: u64,
}

/// Loaded and scaled image preview.
#[derive(Debug)]
pub struct ImagePreview {
    /// RGBA pixel data.
    pub data: Vec<u8>,
    /// Image width.
    pub width: u32,
    /// Image height.
    pub height: u32,
}

/// Result of an image preview load operation.
#[derive(Debug)]
pub struct ImagePreviewResult {
    /// Path that was loaded.
    pub path: String,
    /// Loaded image data (RGBA format), or None if load failed.
    pub image: Option<ImagePreview>,
    /// Request ID for matching.
    pub request_id: u64,
}

/// Request to load a PDF preview.
#[derive(Debug)]
pub struct PdfPreviewRequest {
    /// Path to load.
    pub path: String,
    /// Maximum width for the preview.
    pub max_width: u32,
    /// Maximum height for the preview.
    pub max_height: u32,
    /// Request ID for matching responses.
    pub request_id: u64,
}

/// Loaded and rendered PDF preview (first page).
#[derive(Debug)]
pub struct PdfPreview {
    /// RGBA pixel data.
    pub data: Vec<u8>,
    /// Image width.
    pub width: u32,
    /// Image height.
    pub height: u32,
    /// Total number of pages in the PDF.
    pub page_count: usize,
}

/// Result of a PDF preview load operation.
#[derive(Debug)]
pub struct PdfPreviewResult {
    /// Path that was loaded.
    pub path: String,
    /// Loaded image data (RGBA format), or None if load failed.
    pub image: Option<PdfPreview>,
    /// Request ID for matching.
    pub request_id: u64,
}

/// A loaded thumbnail.
#[derive(Debug)]
pub struct Thumbnail {
    /// RGBA pixel data.
    pub data: Vec<u8>,
    /// Width in pixels.
    pub width: u32,
    /// Height in pixels.
    pub height: u32,
}

/// Result of a thumbnail load.
#[derive(Debug)]
pub struct ThumbnailResult {
    /// The file the thumbnail is for.
    pub path: String,
    /// The thumbnail, when it could be made.
    pub thumbnail: Option<Thumbnail>,
}

/// Extensions (lower case) of the images that can be previewed.
pub open spec fn is_image_extension(e: Seq<char>) -> bool {
    e == "jpg"@ || e == "jpeg"@ || e == "png"@ || e == "gif"@ || e == "webp"@ || e == "bmp"@ || e
        == "ico"@
}

fn chars_is(v: &Vec<char>, lit: &str) -> (res: bool)
    ensures
        res == (v@ == lit@),
{
    let w = chars_of(lit);
    crate::text::chars_eq(v, &w)
}

/// Check if a file extension is a supported image format (case-insensitive).
pub fn is_supported_image(extension: Option<&str>) -> (res: bool)
    ensures
        res == match extension {
            Some(e) => is_image_extension(lowercase(e@)),
            None => false,
        },
{
    match extension {
        Some(e) => {
            let l = to_lowercase(e);
            let v = chars_of(l.as_str());
            chars_is(&v, "jpg") || chars_is(&v, "jpeg") || chars_is(&v, "png") || chars_is(&v, "gif")
                || chars_is(&v, "webp") || chars_is(&v, "bmp") || chars_is(&v, "ico")
        },
        None => false,
    }
}

/// Check if a file extension is PDF (case-insensitive).
pub fn is_pdf(extension: Option<&str>) -> (res: bool)
    ensures
        res == match extension {
            Some(e) => lowercase(e@) == "pdf"@,
            None => false,
        },
{
    match extension {
        Some(e) => {
            let l = to_lowercase(e);
            let v = chars_of(l.as_str());
            chars_is(&v, "pdf")
        },
        None => false,
    }
}

// ---------------------------------------------------------------------------
// Request bookkeeping
// ---------------------------------------------------------------------------
/// The request counter shared by the preview loaders: every new request gets
/// a fresh id, and only the result of the latest request is taken.
#[derive(Debug)]
pub struct RequestIds {
    /// Ids handed out so far.
    pub next_request_id: u64,
    /// The request whose result is wanted (0: none).
    pub current_request_id: u64,
}

impl RequestIds {
    /// No request made yet.
    pub fn new() -> (res: Self)
        ensures
            res.next_request_id == 0,
            res.current_request_id == 0,
    {
        RequestIds { next_request_id: 0, current_request_id: 0 }
    }

    /// A new request: returns its id, which becomes the wanted one.
    pub fn begin(&mut self) -> (res: u64)
        requires
            old(self).next_request_id < u64::MAX,
        ensures
            res == old(self).next_request_id + 1,
            final(self).next_request_id == res,
            final(self).current_request_id == res,
    {
        self.next_request_id = self.next_request_id + 1;
        self.current_request_id = self.next_request_id;
        self.current_request_id
    }

    /// Whether a result with this id is the wanted one (stale results are dropped).
    pub fn accepts(&self, request_id: u64) -> (res: bool)
        ensures
            res == (request_id == self.current_request_id),
    {
        request_id == self.current_request_id
    }

    /// A request is outstanding.
    pub fn is_loading(&self) -> (res: bool)
        ensures
            res == (self.current_request_id > 0),
    {
        self.current_request_id > 0
    }

    /// Forget the pending request: no result is wanted any more.
    pub fn cancel(&mut self)
        ensures
            final(self).current_request_id == 0,
            final(self).next_request_id == old(self).next_request_id,
    {
        self.current_request_id = 0;
    }
}

/// After a new request, results of every earlier request are dropped and
/// only the new one is taken.
pub proof fn law_only_latest_result(next: u64, old_id: u64)
    requires
        next < u64::MAX,
        old_id <= next,
    ensures
        old_id != next + 1,
{
}

} // verus!
