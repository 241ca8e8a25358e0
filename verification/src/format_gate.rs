//! Byte-free admission checks: whether the decoder is expected to handle
//! content, judged from a URI's file extension or from a MIME type alone.

use crate::outcome::text_view;
use crate::text::{has_substring, lowercase, str_contains, str_to_lowercase};
use image::ImageFormat;
use std::path::Path;
use vstd::prelude::*;

verus! {

/// `image::ImageFormat`, carried through as an opaque value: nothing is known
/// of a format but what the functions below say.
#[verifier::external_type_specification]
#[verifier::external_body]
pub struct ExImageFormat(ImageFormat);

/// The extension that `Path::extension` finds in a path, as text, by the
/// path rules of the platform that the library is built for.
pub uninterp spec fn path_extension(path: Seq<char>) -> Option<Seq<char>>;

/// The format that `ImageFormat::from_extension` assigns to an extension.
pub uninterp spec fn extension_format(extension: Seq<char>) -> Option<ImageFormat>;

/// The format that `ImageFormat::from_mime_type` assigns to a MIME type.
pub uninterp spec fn mime_format(mime: Seq<char>) -> Option<ImageFormat>;

/// Whether `ImageFormat::reading_enabled` holds of a format, that is,
/// whether a decoder for it was compiled in.
pub uninterp spec fn reading_enabled(format: ImageFormat) -> bool;

/// Calls `Path::extension` on the text taken as a path and hands the
/// extension back as text; an extension that is no text would count as none,
/// and a path that is text has no such extension. Assumed, not proved: the
/// result is `path_extension` of the path, a function of the path alone.
#[verifier::external_body]
fn extension_of(path: &str) -> (extension: Option<&str>)
    ensures
        match extension {
            Some(found) => path_extension(path@) == Some(found@),
            None => path_extension(path@) is None,
        },
{
    Path::new(path).extension().and_then(|extension| extension.to_str())
}

/// Calls `ImageFormat::from_extension`, which looks the extension up in a
/// fixed table. Assumed, not proved: the result is `extension_format` of the
/// extension, a function of the extension alone.
#[verifier::external_body]
fn format_from_extension(extension: &str) -> (format: Option<ImageFormat>)
    ensures
        format == extension_format(extension@),
{
    ImageFormat::from_extension(extension)
}

/// Calls `ImageFormat::from_mime_type`, which looks the exact string up in a
/// fixed table. Assumed, not proved: the result is `mime_format` of the
/// string, a function of the string alone.
#[verifier::external_body]
fn format_from_mime_type(mime: &str) -> (format: Option<ImageFormat>)
    ensures
        format == mime_format(mime@),
{
    ImageFormat::from_mime_type(mime)
}

/// Calls `ImageFormat::reading_enabled`, which is fixed per format once the
/// crate is built. Assumed, not proved: the result is `reading_enabled` of
/// the format.
#[verifier::external_body]
fn format_reading_enabled(format: ImageFormat) -> (enabled: bool)
    ensures
        enabled == reading_enabled(format),
{
    format.reading_enabled()
}

/// Whether a recognised format can be decoded; an unrecognised one cannot.
pub open spec fn readable(format: Option<ImageFormat>) -> bool {
    match format {
        Some(known) => reading_enabled(known),
        None => false,
    }
}

/// Whether the decoder can read a format that may not have been recognised.
fn is_readable(format: Option<ImageFormat>) -> (enabled: bool)
    ensures
        enabled == readable(format),
{
    match format {
        Some(known) => format_reading_enabled(known),
        None => false,
    }
}

/// The extension of a URI in lowercase, where the URI has an extension.
pub open spec fn lowercase_extension_of(uri: Seq<char>) -> Option<Seq<char>> {
    match path_extension(uri) {
        Some(extension) => Some(lowercase(extension)),
        None => None,
    }
}

/// The extension of `uri` in lowercase, if it has one.
pub fn lowercase_extension(uri: &str) -> (extension: Option<String>)
    ensures
        text_view(extension) == lowercase_extension_of(uri@),
{
    match extension_of(uri) {
        Some(extension) => Some(str_to_lowercase(extension)),
        None => None,
    }
}

/// Admission of an extension in lowercase. A missing extension is admitted,
/// in the hope that the content turns out to be an image; one that is there
/// is admitted exactly when it names a format that the decoder reads.
pub open spec fn extension_admitted(extension: Option<Seq<char>>) -> bool {
    match extension {
        Some(extension) => readable(extension_format(extension)),
        None => true,
    }
}

/// Whether an extension, given in lowercase, lets the decoder expect content
/// it reads. No extension at all does.
pub fn is_supported_extension(extension: &Option<String>) -> (supported: bool)
    ensures
        supported == extension_admitted(text_view(*extension)),
        extension is None ==> supported,
{
    match extension {
        Some(extension) => is_readable(format_from_extension(extension.as_str())),
        None => true,
    }
}

/// Admission by extension: that of the URI's extension in lowercase.
pub open spec fn supported_by_extension(uri: Seq<char>) -> bool {
    extension_admitted(lowercase_extension_of(uri))
}

/// Whether the extension of `uri` lets the decoder expect content it reads.
pub fn is_supported_uri(uri: &str) -> (supported: bool)
    ensures
        supported == supported_by_extension(uri@),
        path_extension(uri@) is None ==> supported,
{
    is_supported_extension(&lowercase_extension(uri))
}

/// MIME types that servers hand out for any binary content. Seeing one says
/// nothing about whether the content is an image, so the decision is left
/// to later stages. A type counts when it contains one of these anywhere,
/// since parameters such as an encoding may be attached to it.
pub open spec fn deferred_mime(mime: Seq<char>) -> bool {
    ||| has_substring(mime, "application/octet-stream"@)
    ||| has_substring(mime, "application/x-msdownload"@)
    ||| has_substring(mime, "application/force-download"@)
}

/// Whether `mime` is one of the catch-all types that decide nothing.
pub fn is_deferred_mime(mime: &str) -> (deferred: bool)
    ensures
        deferred == deferred_mime(mime@),
{
    str_contains(mime, "application/octet-stream")
        || str_contains(mime, "application/x-msdownload")
        || str_contains(mime, "application/force-download")
}

/// Admission by MIME type: a catch-all type is admitted, any other exactly
/// when it names a format that the decoder reads.
pub open spec fn supported_by_mime(mime: Seq<char>) -> bool {
    deferred_mime(mime) || readable(mime_format(mime))
}

/// Whether the MIME type lets the decoder expect content it reads.
pub fn is_supported_mime(mime: &str) -> (supported: bool)
    ensures
        supported == supported_by_mime(mime@),
        deferred_mime(mime@) ==> supported,
{
    is_deferred_mime(mime) || is_readable(format_from_mime_type(mime))
}

} // verus!
