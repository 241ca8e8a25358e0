//! Checks on fetched content before any decoding is tried.

use crate::format_gate::{is_supported_mime, supported_by_mime};
use crate::outcome::{text_view, LoadError, LoadErrorView};
use crate::text::starts_with;
use vstd::prelude::*;
use vstd::utf8::encode_utf8;

verus! {

/// How the text file begins that Git LFS leaves in place of a large file
/// which was never fetched.
pub open spec fn lfs_marker() -> Seq<u8> {
    encode_utf8("version https://git-lfs"@)
}

/// Whether the content is a Git LFS pointer instead of the file itself.
pub open spec fn is_lfs_pointer(bytes: Seq<u8>) -> bool {
    lfs_marker().is_prefix_of(bytes)
}

/// Whether `bytes` begins like a Git LFS pointer.
pub fn has_lfs_marker(bytes: &[u8]) -> (found: bool)
    ensures
        found == is_lfs_pointer(bytes@),
{
    starts_with(bytes, "version https://git-lfs".as_bytes())
}

/// The error for content in a format that the loader does not take.
pub open spec fn format_not_supported(detected: Seq<char>) -> LoadErrorView {
    LoadErrorView::FormatNotSupported { detected_format: Some(detected) }
}

/// The error that ends an attempt before decoding, if there is one, given
/// whether the MIME type was admitted. A MIME type that is known and not
/// admitted is reported as the detected format; failing that, a Git LFS
/// pointer is reported as `git-lfs`.
pub open spec fn screening_given(
    mime: Option<Seq<char>>,
    admitted: bool,
    bytes: Seq<u8>,
) -> Option<LoadErrorView> {
    if mime is Some && !admitted {
        Some(format_not_supported(mime->0))
    } else if is_lfs_pointer(bytes) {
        Some(format_not_supported("git-lfs"@))
    } else {
        None
    }
}

/// The error that ends an attempt before decoding, if there is one: what
/// `screening_given` says, with the MIME type judged by the format gate.
pub open spec fn screening(mime: Option<Seq<char>>, bytes: Seq<u8>) -> Option<LoadErrorView> {
    screening_given(mime, mime is Some ==> supported_by_mime(mime->0), bytes)
}

/// Screens fetched content, given whether its MIME type was admitted. The
/// verdict on a MIME type that is not known plays no part.
pub fn screen_given(mime: &Option<String>, admitted: bool, bytes: &[u8]) -> (rejection: Option<
    LoadError,
>)
    ensures
        match rejection {
            Some(error) => screening_given(text_view(*mime), admitted, bytes@) == Some(error@),
            None => screening_given(text_view(*mime), admitted, bytes@) is None,
        },
{
    if let Some(mime) = mime {
        if !admitted {
            return Some(LoadError::FormatNotSupported { detected_format: Some(mime.clone()) });
        }
    }
    if has_lfs_marker(bytes) {
        return Some(
            LoadError::FormatNotSupported { detected_format: Some("git-lfs".to_owned()) },
        );
    }
    None
}

/// Screens fetched content by its MIME type, where known, and by its first
/// bytes. `None` lets the content through to the decoder.
pub fn screen(mime: &Option<String>, bytes: &[u8]) -> (rejection: Option<LoadError>)
    ensures
        match rejection {
            Some(error) => screening(text_view(*mime), bytes@) == Some(error@),
            None => screening(text_view(*mime), bytes@) is None,
        },
{
    let admitted = match mime {
        Some(mime) => is_supported_mime(mime.as_str()),
        None => true,
    };
    screen_given(mime, admitted, bytes)
}

} // verus!
