//! The file format that an output path asks for.

use crate::backend::extension;
use crate::backend::path_extension;
use crate::paths::lowered;
use crate::paths::reads_as;
use vstd::prelude::*;

verus! {

/// A file format that the tool can write.
#[derive(Clone, Copy, Debug, PartialEq, Eq, Structural)]
pub enum ImageKind {
    Jpeg,
    Png,
}

/// The format for a file with the extension `raw`: JPEG for `jpg` and `jpeg`
/// in any mix of capitals and small letters, PNG for everything else.
pub open spec fn format_of_extension(raw: Seq<char>) -> ImageKind {
    if lowered(raw) == "jpg"@ || lowered(raw) == "jpeg"@ {
        ImageKind::Jpeg
    } else {
        ImageKind::Png
    }
}

/// The format in which a file at `path` is written: the one that its
/// extension asks for, and PNG where the path has no extension.
pub open spec fn output_format(path: Seq<char>) -> ImageKind {
    match path_extension(path) {
        Some(raw) => format_of_extension(raw),
        None => ImageKind::Png,
    }
}

/// The format for `path` as `get_image_format` hands it out: there is one
/// for every path.
pub open spec fn image_format(path: Seq<char>) -> Option<ImageKind> {
    Some(output_format(path))
}

/// Picks the format for a file with the extension `raw`.
pub fn extension_format(raw: &str) -> (kind: ImageKind)
    ensures
        kind == format_of_extension(raw@),
{
    if reads_as(raw, "jpg") || reads_as(raw, "jpeg") {
        ImageKind::Jpeg
    } else {
        ImageKind::Png
    }
}

/// Picks the format in which a file at `path` is written: JPEG for the
/// extensions `jpg` and `jpeg`, PNG for every other path, one without an
/// extension included.
pub fn get_image_format(path: &str) -> (kind: Option<ImageKind>)
    ensures
        kind == image_format(path@),
{
    match extension(path) {
        Some(raw) => Some(extension_format(raw.as_str())),
        None => Some(ImageKind::Png),
    }
}

/// Every path that does not ask for JPEG is written as PNG: one whose
/// extension is neither `jpg` nor `jpeg`, and one that has no extension.
pub proof fn lemma_png_is_the_default(path: Seq<char>)
    requires
        path_extension(path) matches Some(raw) ==> format_of_extension(raw) != ImageKind::Jpeg,
    ensures
        image_format(path) == Some(ImageKind::Png),
{
}

} // verus!
