//! The selected-image record and the inspection that fills it.
//!
//! `inspect_result` is the pure core of inspecting a user-chosen file: the
//! surrounding application opens the file, stats it, and reads a prefix of
//! its bytes; this module turns those raw outcomes into a `SelectedImage`.
//! Only a failure to open the file at all is an error; a missing byte length
//! degrades to `0`, and bytes that do not parse as an ISO-9660 volume
//! degrade to a `false` classification, so that any readable file still gets
//! a name and a size.

use vstd::prelude::*;
use crate::iso::{is_windows_iso, spec_is_windows_iso};
use crate::path_name::{display_name_of, file_name_seq};
use crate::size_format::{format_size, spec_format_size};

verus! {

/// A validated, display-ready description of a chosen disk-image file.
/// Every field is a pure function of the path and of the raw values read
/// from the file; a new selection replaces the whole record.
#[derive(Debug, Clone, PartialEq, Eq)]
pub struct SelectedImage {
    /// The path the file was chosen under.
    pub path: String,
    /// The final path segment; `None` when the path has no final segment.
    pub display_name: Option<String>,
    /// The file's byte length; `0` when the length could not be read.
    pub size_bytes: u64,
    /// `size_bytes` rendered for display (see `size_format`).
    pub size_display: String,
    /// Whether the file is an ISO-9660 volume published by
    /// `"MICROSOFT CORPORATION"` (see `iso`).
    pub is_windows_installer_image: bool,
}

/// The one error that inspection can surface: the file could not be opened
/// for reading (missing, permission denied, not a regular file). Every
/// other failure degrades to a default field value instead.
#[derive(Debug, Clone, PartialEq, Eq)]
pub enum InspectError {
    FileAccessError,
}

/// `img` is the inspection of a file chosen under `path` whose byte length
/// was read as `size_bytes` and whose leading bytes were read as `header`.
pub open spec fn is_inspection_of(
    img: SelectedImage,
    path: Seq<char>,
    size_bytes: u64,
    header: Seq<u8>,
) -> bool {
    &&& img.path@ == path
    &&& match img.display_name {
        Some(s) => file_name_seq(path) == Some(s@),
        None => file_name_seq(path) is None,
    }
    &&& img.size_bytes == size_bytes
    &&& img.size_display@ == spec_format_size(size_bytes as int)
    &&& img.is_windows_installer_image == spec_is_windows_iso(header)
}

/// The byte length a failed metadata read degrades to.
pub open spec fn size_or_zero(size: Option<u64>) -> u64 {
    match size {
        Some(n) => n,
        None => 0u64,
    }
}

/// What `inspect_result` returns for each outcome of reading the file:
/// an unopenable file is exactly a `FileAccessError`; an opened file is
/// always a full `SelectedImage` over the values that were read.
pub open spec fn inspect_post(
    path: Seq<char>,
    file_data: Option<(Option<u64>, Vec<u8>)>,
    r: Result<SelectedImage, InspectError>,
) -> bool {
    match file_data {
        None => r == Err::<SelectedImage, InspectError>(InspectError::FileAccessError),
        Some((size, header)) => match r {
            Ok(img) => is_inspection_of(img, path, size_or_zero(size), header@),
            Err(_) => false,
        },
    }
}

/// Builds the description of the file chosen under `path` from the raw
/// outcomes of reading it: `file_data` is `None` when the file could not be
/// opened, and otherwise holds the byte length as metadata reported it
/// (`None` when that read failed) and the leading bytes of the file (up to
/// `iso::HEADER_SCAN_LEN` is enough; see `iso`).
pub fn inspect_result(path: &str, file_data: Option<(Option<u64>, Vec<u8>)>) -> (r: Result<
    SelectedImage,
    InspectError,
>)
    ensures
        inspect_post(path@, file_data, r),
        file_data is Some <==> r is Ok,
{
    match file_data {
        None => Err(InspectError::FileAccessError),
        Some((size, header)) => {
            let size_bytes = match size {
                Some(n) => n,
                None => 0,
            };
            Ok(
                SelectedImage {
                    path: path.to_owned(),
                    display_name: display_name_of(path),
                    size_bytes,
                    size_display: format_size(size_bytes),
                    is_windows_installer_image: is_windows_iso(&header),
                },
            )
        },
    }
}

/// Applies one inspection outcome to the currently selected image: a
/// successful inspection fully replaces the selection, and a failed one is
/// silently ignored, retaining whatever was selected before — a failure
/// never clears or partially updates the selection.
pub fn apply_selection(
    current: Option<SelectedImage>,
    outcome: Result<SelectedImage, InspectError>,
) -> (r: Option<SelectedImage>)
    ensures
        outcome matches Ok(img) ==> r == Some(img),
        outcome is Err ==> r == current,
{
    match outcome {
        Ok(img) => Some(img),
        Err(_) => current,
    }
}

/// Inspection is deterministic: any two descriptions of the same raw file
/// data agree on every field, so repeating an inspection of an unchanged
/// file reproduces the same record.
pub proof fn lemma_inspection_deterministic(
    path: Seq<char>,
    size_bytes: u64,
    header: Seq<u8>,
    a: SelectedImage,
    b: SelectedImage,
)
    requires
        is_inspection_of(a, path, size_bytes, header),
        is_inspection_of(b, path, size_bytes, header),
    ensures
        a.path@ == b.path@,
        a.display_name is Some <==> b.display_name is Some,
        a.display_name matches Some(s) ==> b.display_name matches Some(t) && s@ == t@,
        a.size_bytes == b.size_bytes,
        a.size_display@ == b.size_display@,
        a.is_windows_installer_image == b.is_windows_installer_image,
{
}

} // verus!
