//! What holds of the loader whatever byte source and decoder answer.
//!
//! Each statement is over `loaded`, the function that the contract of `load`
//! is stated over, with the answers of byte source and decoder as arbitrary
//! arguments.

use crate::accounting::{
    entry_byte_size, lemma_total_insert, lemma_total_remove, total_byte_size, CacheView,
    EntryView,
};
use crate::format_gate::{
    deferred_mime, path_extension, supported_by_extension, supported_by_mime,
};
use crate::loader::{entry_outcome, loaded, needs_decode, needs_fetch, turned_away};
use crate::outcome::{BytesPollView, ImagePollView, LoadErrorView, PointSize};
use crate::screening::{is_lfs_pointer, screening};
use crate::uri::{cache_key, is_file_uri};
use vstd::prelude::*;

verus! {

/// A local file whose extension the decoder does not read is refused as not
/// supported. The byte source is not asked and nothing is remembered.
pub proof fn law_unreadable_file_is_refused(
    cache: CacheView,
    uri: Seq<char>,
    fetched: Result<BytesPollView, LoadErrorView>,
    decoded: EntryView,
)
    requires
        is_file_uri(cache_key(uri)),
        !supported_by_extension(cache_key(uri)),
    ensures
        !needs_fetch(cache, uri),
        loaded(cache, uri, fetched, decoded) == (cache, Err::<ImagePollView, LoadErrorView>(
            LoadErrorView::NotSupported,
        )),
{
}

/// A URI without an extension passes the check by extension.
pub proof fn law_missing_extension_is_admitted(uri: Seq<char>)
    requires
        path_extension(uri) is None,
    ensures
        supported_by_extension(uri),
        !turned_away(uri),
{
}

/// Once a load of a URI has ended in success or in failure, a remembered
/// outcome or a refusal by extension, no further load of it asks the byte
/// source, and each reports that same outcome and leaves the cache as it
/// is, whatever byte source and decoder would answer now.
///
/// An error of the byte source itself is no such end: it is passed on
/// without being remembered, and the next load asks again.
pub proof fn law_settled_load_repeats(
    cache: CacheView,
    uri: Seq<char>,
    fetched: Result<BytesPollView, LoadErrorView>,
    decoded: EntryView,
    fetched_again: Result<BytesPollView, LoadErrorView>,
    decoded_again: EntryView,
)
    requires
        ({
            let (after, outcome) = loaded(cache, uri, fetched, decoded);
            ||| outcome is Ok && outcome->Ok_0 is Ready
            ||| after.contains_key(cache_key(uri))
            ||| turned_away(cache_key(uri))
        }),
    ensures
        !needs_fetch(loaded(cache, uri, fetched, decoded).0, uri),
        loaded(loaded(cache, uri, fetched, decoded).0, uri, fetched_again, decoded_again) == loaded(
            cache,
            uri,
            fetched,
            decoded,
        ),
{
}

/// A load that finds bytes ready always ends in a remembered outcome: from
/// then on the byte source is not asked for that URI.
pub proof fn law_ready_bytes_settle(
    cache: CacheView,
    uri: Seq<char>,
    fetched: Result<BytesPollView, LoadErrorView>,
    decoded: EntryView,
)
    requires
        fetched is Ok,
        fetched->Ok_0 is Ready,
    ensures
        !needs_fetch(loaded(cache, uri, fetched, decoded).0, uri),
{
}

/// What is remembered never changes under a load: no entry is dropped and
/// none is replaced.
pub proof fn law_entries_stand(
    cache: CacheView,
    uri: Seq<char>,
    fetched: Result<BytesPollView, LoadErrorView>,
    decoded: EntryView,
    other: Seq<char>,
)
    requires
        cache.contains_key(other),
    ensures
        loaded(cache, uri, fetched, decoded).0.contains_key(other),
        loaded(cache, uri, fetched, decoded).0[other] == cache[other],
{
}

/// After a URI is forgotten, the next load of it asks the byte source
/// again, with or without a frame index behind the URI. A local file that
/// is refused by its extension is never fetched, forgotten or not.
pub proof fn law_forgotten_is_fetched_again(cache: CacheView, uri: Seq<char>)
    requires
        !turned_away(cache_key(uri)),
    ensures
        needs_fetch(cache.remove(cache_key(uri)), uri),
{
}

/// Forgetting a URI leaves every entry but its own as it was.
pub proof fn law_forget_is_local(cache: CacheView, uri: Seq<char>, other: Seq<char>)
    requires
        other != cache_key(uri),
    ensures
        cache.remove(cache_key(uri)).contains_key(other) == cache.contains_key(other),
        cache.contains_key(other) ==> cache.remove(cache_key(uri))[other] == cache[other],
{
}

/// An answer of "not yet" leaves the cache exactly as it was, and is what
/// the load reports unless the URI was settled before.
pub proof fn law_pending_is_not_remembered(
    cache: CacheView,
    uri: Seq<char>,
    size: Option<PointSize>,
    decoded: EntryView,
)
    ensures
        loaded(cache, uri, Ok(BytesPollView::Pending { size }), decoded).0 == cache,
        needs_fetch(cache, uri) ==> loaded(
            cache,
            uri,
            Ok(BytesPollView::Pending { size }),
            decoded,
        ).1 == Ok::<ImagePollView, LoadErrorView>(ImagePollView::Pending { size }),
{
}

/// An error of the byte source itself is passed on and not remembered.
pub proof fn law_source_error_is_not_remembered(
    cache: CacheView,
    uri: Seq<char>,
    error: LoadErrorView,
    decoded: EntryView,
)
    ensures
        loaded(cache, uri, Err(error), decoded).0 == cache,
        needs_fetch(cache, uri) ==> loaded(cache, uri, Err(error), decoded).1 == Err::<
            ImagePollView,
            LoadErrorView,
        >(error),
{
}

/// Content that is a Git LFS pointer is screened out as a format that is not
/// supported, whatever its MIME type, and never reaches the decoder. A load
/// that fetches it remembers and reports that error.
pub proof fn law_lfs_pointer_is_rejected(
    cache: CacheView,
    uri: Seq<char>,
    mime: Option<Seq<char>>,
    bytes: Seq<u8>,
    decoded: EntryView,
)
    requires
        is_lfs_pointer(bytes),
    ensures
        screening(mime, bytes) is Some,
        screening(mime, bytes)->0 is FormatNotSupported,
        !needs_decode(Ok(BytesPollView::Ready { bytes, mime })),
        needs_fetch(cache, uri) ==> {
            let (after, outcome) = loaded(
                cache,
                uri,
                Ok(BytesPollView::Ready { bytes, mime }),
                decoded,
            );
            &&& outcome == Err::<ImagePollView, LoadErrorView>(screening(mime, bytes)->0)
            &&& after == cache.insert(cache_key(uri), Err(screening(mime, bytes)->0))
        },
{
}

/// A catch-all MIME type never rejects content by itself: it passes the check
/// by MIME type, and content that carries it and is no Git LFS pointer goes
/// on to the decoder, whose answer is remembered and reported.
pub proof fn law_deferred_mime_is_decoded(
    cache: CacheView,
    uri: Seq<char>,
    mime: Seq<char>,
    bytes: Seq<u8>,
    decoded: EntryView,
)
    requires
        deferred_mime(mime),
    ensures
        supported_by_mime(mime),
        !is_lfs_pointer(bytes) ==> needs_decode(Ok(BytesPollView::Ready { bytes, mime: Some(mime) })),
        !is_lfs_pointer(bytes) && needs_fetch(cache, uri) ==> loaded(
            cache,
            uri,
            Ok(BytesPollView::Ready { bytes, mime: Some(mime) }),
            decoded,
        ) == (cache.insert(cache_key(uri), decoded), entry_outcome(decoded)),
{
}

/// A load that remembers a new outcome raises the charge for the cache by
/// exactly the size of that outcome. Every other load leaves it as it is.
pub proof fn law_load_charges_what_it_remembers(
    cache: CacheView,
    uri: Seq<char>,
    fetched: Result<BytesPollView, LoadErrorView>,
    decoded: EntryView,
)
    requires
        cache.dom().finite(),
    ensures
        ({
            let after = loaded(cache, uri, fetched, decoded).0;
            if needs_fetch(cache, uri) && fetched is Ok && fetched->Ok_0 is Ready {
                total_byte_size(after) == total_byte_size(cache) + entry_byte_size(
                    after[cache_key(uri)],
                )
            } else {
                total_byte_size(after) == total_byte_size(cache)
            }
        }),
{
    let after = loaded(cache, uri, fetched, decoded).0;
    if needs_fetch(cache, uri) && fetched is Ok && fetched->Ok_0 is Ready {
        lemma_total_insert(cache, cache_key(uri), after[cache_key(uri)]);
    }
}

/// Forgetting a URI lowers the charge for the cache by exactly the size of
/// the entry that goes, and not at all where there is none.
pub proof fn law_forget_refunds_the_entry(cache: CacheView, uri: Seq<char>)
    requires
        cache.dom().finite(),
    ensures
        cache.contains_key(cache_key(uri)) ==> total_byte_size(cache.remove(cache_key(uri)))
            + entry_byte_size(cache[cache_key(uri)]) == total_byte_size(cache),
        !cache.contains_key(cache_key(uri)) ==> total_byte_size(cache.remove(cache_key(uri)))
            == total_byte_size(cache),
{
    let key = cache_key(uri);
    if cache.contains_key(key) {
        lemma_total_remove(cache, key);
    } else {
        assert(cache.remove(key) =~= cache);
    }
}

} // verus!
