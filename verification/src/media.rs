//! Catalogued media files and how an upload is classified.

use vstd::prelude::*;
use crate::statement::Statement;

verus! {

/// What kind of media a catalogued file holds.
#[derive(Clone, Copy, Debug, PartialEq, Eq, Structural)]
pub enum MediaKind {
    Movie,
    Series,
    Music,
    Image,
    Other,
}

/// One catalogued file.
#[derive(Debug, PartialEq, Eq)]
pub struct MediaItem {
    /// The identity that storage assigned.
    pub id: i64,
    /// The file's name when it was uploaded.
    pub title: String,
    /// Where the file's bytes are kept.
    pub path: String,
    /// The classification made when the file came in.
    pub kind: MediaKind,
    /// The virtual folder that the file is listed under, if any.
    pub conceptual_path: Option<String>,
}

/// The kind that a declared content type stands for. A type under `video/`
/// is a movie, one under `audio/` is music, one under `image/` an image;
/// any other type, and a missing one, is `Other`. No content type is taken
/// for a series.
pub open spec fn classify(content_type: Option<Seq<char>>) -> MediaKind {
    match content_type {
        None => MediaKind::Other,
        Some(declared) => {
            if "video/"@.is_prefix_of(declared) {
                MediaKind::Movie
            } else if "audio/"@.is_prefix_of(declared) {
                MediaKind::Music
            } else if "image/"@.is_prefix_of(declared) {
                MediaKind::Image
            } else {
                MediaKind::Other
            }
        },
    }
}

/// Whatever the declared content type, an upload is never taken for a
/// series.
pub proof fn nothing_is_classified_as_series(content_type: Option<Seq<char>>)
    ensures
        classify(content_type) != MediaKind::Series,
{
}

/// `str::starts_with` with a string as the pattern: whether the characters of
/// `prefix` are the first characters of `text`.
#[verifier::external_body]
fn starts_with(text: &str, prefix: &str) -> (found: bool)
    ensures
        found == prefix@.is_prefix_of(text@),
{
    text.starts_with(prefix)
}

/// Classifies an upload by its declared content type alone.
pub fn infer_media_kind(content_type: &Option<String>) -> (kind: MediaKind)
    ensures
        kind == classify(content_type.deep_view()),
{
    if let Some(ct) = content_type {
        if starts_with(ct.as_str(), "video/") {
            MediaKind::Movie
        } else if starts_with(ct.as_str(), "audio/") {
            MediaKind::Music
        } else if starts_with(ct.as_str(), "image/") {
            MediaKind::Image
        } else {
            MediaKind::Other
        }
    } else {
        MediaKind::Other
    }
}

/// The query that asks for the files listed under one virtual folder.
#[derive(Debug, PartialEq, Eq)]
pub struct MediaFilter {
    pub conceptual_path: String,
}

/// The page that lists catalogued files.
#[derive(Debug, PartialEq, Eq)]
pub struct FileNavigatorTemplate {
    pub media_items: Vec<MediaItem>,
}

/// The statement that asks for the files listed under the filter's folder.
pub fn get_media_items(filter: MediaFilter) -> (statement: Statement)
    ensures
        statement == (Statement::SelectMedia { conceptual_path: filter.conceptual_path }),
{
    Statement::SelectMedia { conceptual_path: filter.conceptual_path }
}

/// The page for the outcome of a listing: the files found, in their order.
/// Where the listing failed the page is empty, and the failure is not shown.
pub fn index(found: Result<Vec<MediaItem>, String>) -> (page: FileNavigatorTemplate)
    ensures
        match found {
            Ok(items) => page.media_items == items,
            Err(_) => page.media_items@ == Seq::<MediaItem>::empty(),
        },
{
    match found {
        Ok(items) => FileNavigatorTemplate { media_items: items },
        Err(_) => FileNavigatorTemplate { media_items: Vec::new() },
    }
}

} // verus!
