//! What the loader reads off a URI: the part that names the resource, and
//! whether it points at a local file.

use crate::text::str_starts_with;
use vstd::prelude::*;

verus! {

/// How `egui::decode_animated_image_uri` takes a URI apart: the resource and
/// the frame index behind its last `#`, or nothing where the URI does not
/// end in such an index.
pub uninterp spec fn frame_split(uri: Seq<char>) -> Option<(Seq<char>, usize)>;

/// Whether `resource` is what stands before a `#` in `uri`.
pub open spec fn stands_before_hash(resource: Seq<char>, uri: Seq<char>) -> bool {
    &&& resource.len() < uri.len()
    &&& resource.is_prefix_of(uri)
    &&& uri[resource.len() as int] == '#'
}

/// Calls `egui::decode_animated_image_uri`, which splits at the last `#` and
/// parses what follows as an index. Its error, a message, is dropped.
/// Assumed, not proved: the result is `frame_split` of the URI, a function of
/// the URI alone, and a resource that is found is what stands before a `#`.
#[verifier::external_body]
fn decode_frame_uri(uri: &str) -> (parts: Option<(&str, usize)>)
    ensures
        match parts {
            Some((resource, index)) => frame_split(uri@) == Some((resource@, index))
                && stands_before_hash(resource@, uri@),
            None => frame_split(uri@) is None,
        },
{
    egui::decode_animated_image_uri(uri).ok()
}

/// The URI that an image is fetched and cached under: the URI without its
/// frame index, where it has one.
pub open spec fn cache_key(uri: Seq<char>) -> Seq<char> {
    match frame_split(uri) {
        Some((resource, _)) => resource,
        None => uri,
    }
}

/// Strips the frame index that animated images carry behind the URI. What
/// is left is the URI itself or what stands before a `#` in it.
pub fn base_uri(uri: &str) -> (key: &str)
    ensures
        key@ == cache_key(uri@),
        key@ == uri@ || stands_before_hash(key@, uri@),
        !uri@.contains('#') ==> key@ == uri@,
{
    match decode_frame_uri(uri) {
        Some((resource, _)) => resource,
        None => uri,
    }
}

/// Whether a URI names a local file.
pub open spec fn is_file_uri(uri: Seq<char>) -> bool {
    "file://"@.is_prefix_of(uri)
}

/// Whether a URI names a local file, that is, begins with `file://`.
pub fn has_file_scheme(uri: &str) -> (local: bool)
    ensures
        local == is_file_uri(uri@),
{
    str_starts_with(uri, "file://")
}

} // verus!
