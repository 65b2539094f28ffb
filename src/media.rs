//! Classification of local media files by their MIME type.

use vstd::prelude::*;

use crate::text::starts_with;

verus! {

/// The kinds of media that the preview can show.
#[derive(Clone, Copy, Debug, PartialEq, Eq, Structural)]
pub enum MediaKind {
    Image,
    Video,
}

/// The kind of media that a MIME type names: `image/...` or `video/...`.
pub open spec fn media_kind_of(mime: Seq<char>) -> Option<MediaKind> {
    if "image/"@.is_prefix_of(mime) {
        Some(MediaKind::Image)
    } else if "video/"@.is_prefix_of(mime) {
        Some(MediaKind::Video)
    } else {
        None
    }
}

/// The kind of media of a file with MIME type `mime`; `None` for any other
/// type.
pub fn detect_media_kind(mime: &str) -> (r: Option<MediaKind>)
    ensures
        r == media_kind_of(mime@),
{
    if starts_with(mime, "image/") {
        Some(MediaKind::Image)
    } else if starts_with(mime, "video/") {
        Some(MediaKind::Video)
    } else {
        None
    }
}

} // verus!
