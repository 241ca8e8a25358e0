//! The cache: one terminal outcome per URI, filled on the first load that
//! gets bytes, served from then on, and emptied only on request.

use crate::accounting::{
    entry_byte_size, lemma_total_bound, lemma_total_empty, lemma_total_insert,
    lemma_total_remove, total_byte_size, CacheView, EntryView,
};
use crate::format_gate::{is_supported_uri, supported_by_extension};
use crate::outcome::{
    decoded_view, fetched_view, outcome_view, BytesLoadResult, BytesPoll, BytesPollView,
    ColorImage, DecodeResult, ImageLoadResult, ImagePoll, ImagePollView, LoadError,
    LoadErrorView, SizeHint,
};
use crate::screening::{screen, screening};
use crate::uri::{base_uri, cache_key, has_file_scheme, is_file_uri, stands_before_hash};
use std::sync::Arc;
use vstd::hash_map::StringHashMap;
use vstd::prelude::*;

verus! {

/// Whether a URI is turned away on sight: it names a local file whose
/// extension the decoder does not read. Remote URIs are never judged by
/// their extension.
pub open spec fn turned_away(key: Seq<char>) -> bool {
    is_file_uri(key) && !supported_by_extension(key)
}

/// What a load reports for a remembered outcome.
pub open spec fn entry_outcome(entry: EntryView) -> Result<ImagePollView, LoadErrorView> {
    match entry {
        Ok(image) => Ok(ImagePollView::Ready { image }),
        Err(error) => Err(error),
    }
}

/// Whether fetched content is handed to the decoder: the bytes are there and
/// nothing screens them out.
pub open spec fn needs_decode(fetched: Result<BytesPollView, LoadErrorView>) -> bool {
    fetched matches Ok(BytesPollView::Ready { bytes, mime }) && screening(mime, bytes) is None
}

/// What becomes of a cache and what is reported for `key`, given the byte
/// source's answer and, where the content gets as far as the decoder, the
/// decoder's.
///
/// An outcome that is already remembered stands. Otherwise an answer of
/// "not yet" or an error of the byte source is passed on and nothing is
/// remembered; bytes that have arrived end in a remembered outcome, which is
/// the screening error if there is one and the decoder's answer if not.
pub open spec fn resolved(
    cache: CacheView,
    key: Seq<char>,
    fetched: Result<BytesPollView, LoadErrorView>,
    decoded: EntryView,
) -> (CacheView, Result<ImagePollView, LoadErrorView>) {
    if cache.contains_key(key) {
        (cache, entry_outcome(cache[key]))
    } else {
        match fetched {
            Err(error) => (cache, Err(error)),
            Ok(BytesPollView::Pending { size }) => (cache, Ok(ImagePollView::Pending { size })),
            Ok(BytesPollView::Ready { bytes, mime }) => {
                let entry = match screening(mime, bytes) {
                    Some(error) => Err(error),
                    None => decoded,
                };
                (cache.insert(key, entry), entry_outcome(entry))
            },
        }
    }
}

/// Whether a load of `uri` has to ask the byte source: the URI is not turned
/// away and nothing is remembered for it.
pub open spec fn needs_fetch(cache: CacheView, uri: Seq<char>) -> bool {
    !turned_away(cache_key(uri)) && !cache.contains_key(cache_key(uri))
}

/// What a load of `uri` reports where it does not have to ask the byte
/// source: the refusal for a URI that is turned away, else what is remembered.
pub open spec fn settled_outcome(cache: CacheView, uri: Seq<char>) -> Result<
    ImagePollView,
    LoadErrorView,
> {
    if turned_away(cache_key(uri)) {
        Err(LoadErrorView::NotSupported)
    } else {
        entry_outcome(cache[cache_key(uri)])
    }
}

/// What becomes of a cache and what is reported when `uri` is loaded, given
/// the answers that byte source and decoder would give.
pub open spec fn loaded(
    cache: CacheView,
    uri: Seq<char>,
    fetched: Result<BytesPollView, LoadErrorView>,
    decoded: EntryView,
) -> (CacheView, Result<ImagePollView, LoadErrorView>) {
    if turned_away(cache_key(uri)) {
        (cache, Err(LoadErrorView::NotSupported))
    } else {
        resolved(cache, cache_key(uri), fetched, decoded)
    }
}

/// The bytes that have arrived, or none where the answer holds none.
pub open spec fn ready_bytes(fetched: Result<BytesPollView, LoadErrorView>) -> Seq<u8> {
    match fetched {
        Ok(BytesPollView::Ready { bytes, .. }) => bytes,
        _ => Seq::empty(),
    }
}

/// `fetched` is an answer that the byte source gives when asked for `key`.
pub open spec fn fetch_gives<F: FnOnce(&str) -> BytesLoadResult>(
    fetch: F,
    key: Seq<char>,
    fetched: BytesLoadResult,
) -> bool {
    exists|asked: &str| asked@ == key && #[trigger] call_ensures(fetch, (asked,), fetched)
}

/// `decoded` is an answer that the decoder gives for `bytes`.
pub open spec fn decode_gives<D: FnOnce(&[u8]) -> DecodeResult>(
    decode: D,
    bytes: Seq<u8>,
    decoded: DecodeResult,
) -> bool {
    exists|given: &[u8]| given@ == bytes && #[trigger] call_ensures(decode, (given,), decoded)
}

/// A remembered outcome as it is held: the image behind a shared handle.
type Entry = Result<Arc<ColorImage>, LoadError>;

spec fn entry_view(entry: Entry) -> EntryView {
    match entry {
        Ok(image) => Ok(image@),
        Err(error) => Err(error@),
    }
}

/// Calls `Arc::clone`. Assumed, not proved: the result is another handle to
/// the same image.
#[verifier::external_body]
fn share(image: &Arc<ColorImage>) -> (handle: Arc<ColorImage>)
    ensures
        handle == *image,
{
    Arc::clone(image)
}

/// What is reported for an entry.
fn outcome_of(entry: &Entry) -> (outcome: ImageLoadResult)
    ensures
        outcome_view(outcome) == entry_outcome(entry_view(*entry)),
{
    match entry {
        Ok(image) => Ok(ImagePoll::Ready { image: share(image) }),
        Err(error) => Err(error.clone()),
    }
}

/// Bytes charged for an entry.
fn size_of_entry(entry: &Entry) -> (bytes: usize)
    ensures
        bytes == entry_byte_size(entry_view(*entry)),
{
    match entry {
        Ok(image) => image.byte_size(),
        Err(error) => error.byte_size(),
    }
}

/// The entries together with the running total of their sizes. The total is
/// kept wide enough that it cannot overflow: there are at most `usize::MAX`
/// entries of at most `usize::MAX` bytes each.
struct Ledger {
    entries: StringHashMap<Entry>,
    used: u128,
}

impl Ledger {
    spec fn view(self) -> CacheView {
        Map::new(
            |uri: Seq<char>| self.entries@.contains_key(uri),
            |uri: Seq<char>| entry_view(self.entries@[uri]),
        )
    }

    spec fn wf(self) -> bool {
        &&& self.entries@.dom().finite()
        &&& forall|uri: Seq<char>| #[trigger]
            self.view().contains_key(uri) ==> entry_byte_size(self.view()[uri]) <= usize::MAX
        &&& self.used == total_byte_size(self.view())
    }

    fn empty() -> (ledger: Self)
        ensures
            ledger.wf(),
            ledger.view() == Map::<Seq<char>, EntryView>::empty(),
    {
        let ledger = Ledger { entries: StringHashMap::new(), used: 0 };
        proof {
            assert(ledger.view() =~= Map::empty());
            lemma_total_empty();
        }
        ledger
    }

    fn get(&self, key: &str) -> (hit: Option<&Entry>)
        ensures
            match hit {
                Some(entry) => self.view().contains_key(key@) && self.view()[key@] == entry_view(
                    *entry,
                ),
                None => !self.view().contains_key(key@),
            },
    {
        self.entries.get(key)
    }

    fn insert(&mut self, key: &str, entry: Entry)
        requires
            old(self).wf(),
            !old(self).view().contains_key(key@),
        ensures
            final(self).wf(),
            final(self).view() == old(self).view().insert(key@, entry_view(entry)),
    {
        let size = size_of_entry(&entry);
        proof {
            broadcast use vstd::hash_map::axiom_string_hash_map_spec_len;

            let count = self.entries@.len();
            assert(count == self.entries.len());
            assert(self.view().dom() =~= self.entries@.dom());
            lemma_total_bound(self.view(), usize::MAX as nat);
            lemma_total_insert(self.view(), key@, entry_view(entry));
            assert(self.used + size <= u128::MAX) by (nonlinear_arith)
                requires
                    self.used <= count * usize::MAX,
                    size <= usize::MAX,
                    count <= usize::MAX,
                    usize::MAX <= u64::MAX,
            ;
        }
        let ghost before = self.view();
        self.entries.insert(key.to_owned(), entry);
        self.used = self.used + size as u128;
        proof {
            assert(self.view() =~= before.insert(key@, entry_view(entry)));
        }
    }

    fn remove(&mut self, key: &str)
        requires
            old(self).wf(),
        ensures
            final(self).wf(),
            final(self).view() == old(self).view().remove(key@),
    {
        let ghost before = self.view();
        let size = match self.entries.get(key) {
            Some(entry) => size_of_entry(entry),
            None => {
                proof {
                    assert(before.remove(key@) =~= before);
                }
                return;
            },
        };
        proof {
            assert(before.dom() =~= self.entries@.dom());
            lemma_total_remove(before, key@);
        }
        self.entries.remove(key);
        self.used = self.used - size as u128;
        proof {
            assert(self.view() =~= before.remove(key@));
        }
    }

    fn clear(&mut self)
        ensures
            final(self).wf(),
            final(self).view() == Map::<Seq<char>, EntryView>::empty(),
    {
        self.entries.clear();
        self.used = 0;
        proof {
            assert(self.view() =~= Map::empty());
            lemma_total_empty();
        }
    }
}

/// An image loader that decodes each URI once and remembers what came of it.
pub struct ImageCrateLoader {
    ledger: Ledger,
}

impl View for ImageCrateLoader {
    type V = CacheView;

    closed spec fn view(&self) -> CacheView {
        self.ledger.view()
    }
}

impl ImageCrateLoader {
    /// The name by which a host tells this loader from others.
    pub const ID: &'static str = "image_loader::loader::ImageCrateLoader";

    #[verifier::type_invariant]
    spec fn inv(self) -> bool {
        self.ledger.wf()
    }

    /// A loader that remembers nothing yet.
    pub fn new() -> (loader: Self)
        ensures
            loader@ == Map::<Seq<char>, EntryView>::empty(),
    {
        ImageCrateLoader { ledger: Ledger::empty() }
    }

    /// The name by which a host tells this loader from others.
    pub fn id(&self) -> (id: &'static str)
        ensures
            id@ == Self::ID@,
    {
        Self::ID
    }

    /// The outcome remembered for `key`, if there is one.
    pub fn cached(&self, key: &str) -> (hit: Option<ImageLoadResult>)
        ensures
            match hit {
                Some(outcome) => self@.contains_key(key@) && outcome_view(outcome) == entry_outcome(
                    self@[key@],
                ),
                None => !self@.contains_key(key@),
            },
    {
        match self.ledger.get(key) {
            Some(entry) => Some(outcome_of(entry)),
            None => None,
        }
    }

    /// What a load reports for `key`, a URI without frame index, where it
    /// does not have to ask the byte source.
    fn settled_key(&self, key: &str) -> (outcome: Option<ImageLoadResult>)
        ensures
            match outcome {
                Some(found) => (turned_away(key@) || self@.contains_key(key@)) && outcome_view(
                    found,
                ) == (if turned_away(key@) {
                    Err::<ImagePollView, LoadErrorView>(LoadErrorView::NotSupported)
                } else {
                    entry_outcome(self@[key@])
                }),
                None => !turned_away(key@) && !self@.contains_key(key@),
            },
    {
        if has_file_scheme(key) && !is_supported_uri(key) {
            return Some(Err(LoadError::NotSupported));
        }
        self.cached(key)
    }

    /// What a load of `uri` reports without asking the byte source: the
    /// refusal of a local file that the decoder does not read, or what is
    /// remembered for the URI. `None` says that the byte source has to be
    /// asked.
    pub fn settled(&self, uri: &str) -> (outcome: Option<ImageLoadResult>)
        ensures
            match outcome {
                Some(found) => !needs_fetch(self@, uri@) && outcome_view(found) == settled_outcome(
                    self@,
                    uri@,
                ),
                None => needs_fetch(self@, uri@),
            },
    {
        self.settled_key(base_uri(uri))
    }

    /// Remembers `entry` as the outcome for `key`, which has none so far, and
    /// reports it.
    fn remember(&mut self, key: &str, entry: DecodeResult) -> (outcome: ImageLoadResult)
        requires
            !old(self)@.contains_key(key@),
        ensures
            final(self)@ == old(self)@.insert(key@, decoded_view(entry)),
            outcome_view(outcome) == entry_outcome(decoded_view(entry)),
    {
        proof {
            use_type_invariant(&*self);
        }
        let entry: Entry = match entry {
            Ok(image) => Ok(Arc::new(image)),
            Err(error) => Err(error),
        };
        let outcome = outcome_of(&entry);
        let mut ledger = Ledger::empty();
        core::mem::swap(&mut ledger, &mut self.ledger);
        ledger.insert(key, entry);
        self.ledger = ledger;
        outcome
    }

    /// Makes of the byte source's answer what a load does when nothing is
    /// remembered for `key`.
    fn resolve_miss<D>(&mut self, key: &str, fetched: BytesLoadResult, decode: D) -> (outcome:
        ImageLoadResult) where D: FnOnce(&[u8]) -> DecodeResult
        requires
            !old(self)@.contains_key(key@),
            needs_decode(fetched_view(fetched)) ==> (forall|bytes: &[u8]|
                bytes@ == ready_bytes(fetched_view(fetched)) ==> call_requires(decode, (bytes,))),
        ensures
            exists|decoded: DecodeResult|
                {
                    &&& needs_decode(fetched_view(fetched)) ==> decode_gives(
                        decode,
                        ready_bytes(fetched_view(fetched)),
                        decoded,
                    )
                    &&& (final(self)@, outcome_view(outcome)) == resolved(
                        old(self)@,
                        key@,
                        fetched_view(fetched),
                        #[trigger] decoded_view(decoded),
                    )
                },
    {
        let ghost spare: DecodeResult = Err(LoadError::NotSupported);
        match fetched {
            Err(error) => {
                assert((self@, Err::<ImagePollView, LoadErrorView>(error@)) == resolved(
                    self@,
                    key@,
                    fetched_view(fetched),
                    decoded_view(spare),
                ));
                Err(error)
            },
            Ok(BytesPoll::Pending { size }) => {
                assert((self@, Ok::<ImagePollView, LoadErrorView>(ImagePollView::Pending { size }))
                    == resolved(self@, key@, fetched_view(fetched), decoded_view(spare)));
                Ok(ImagePoll::Pending { size })
            },
            Ok(BytesPoll::Ready { bytes, mime }) => {
                match screen(&mime, bytes.as_slice()) {
                    Some(error) => {
                        let outcome = self.remember(key, Err(error));
                        assert((self@, outcome_view(outcome)) == resolved(
                            old(self)@,
                            key@,
                            fetched_view(fetched),
                            decoded_view(spare),
                        ));
                        outcome
                    },
                    None => {
                        let decoded = decode(bytes.as_slice());
                        let ghost answer = decoded;
                        let outcome = self.remember(key, decoded);
                        assert(decode_gives(decode, ready_bytes(fetched_view(fetched)), answer));
                        assert((self@, outcome_view(outcome)) == resolved(
                            old(self)@,
                            key@,
                            fetched_view(fetched),
                            decoded_view(answer),
                        ));
                        outcome
                    },
                }
            },
        }
    }

    /// Makes of the byte source's answer for `key` what a load does: serves
    /// what is remembered, passes on "not yet" and the source's own errors,
    /// and otherwise screens the bytes, decodes what passes, and remembers
    /// and reports what came of it.
    ///
    /// The decoder has to take the bytes in `fetched`, and those only where
    /// nothing is remembered for `key` and nothing screens the bytes out.
    /// Anywhere else it need not be callable at all, so it is not called.
    pub fn resolve<D>(&mut self, key: &str, fetched: BytesLoadResult, decode: D) -> (outcome:
        ImageLoadResult) where D: FnOnce(&[u8]) -> DecodeResult
        requires
            !old(self)@.contains_key(key@) && needs_decode(fetched_view(fetched)) ==> (forall|
                bytes: &[u8],
            | bytes@ == ready_bytes(fetched_view(fetched)) ==> call_requires(decode, (bytes,))),
        ensures
            exists|decoded: DecodeResult|
                {
                    &&& !old(self)@.contains_key(key@) && needs_decode(fetched_view(fetched))
                        ==> decode_gives(decode, ready_bytes(fetched_view(fetched)), decoded)
                    &&& (final(self)@, outcome_view(outcome)) == resolved(
                        old(self)@,
                        key@,
                        fetched_view(fetched),
                        #[trigger] decoded_view(decoded),
                    )
                },
    {
        match self.cached(key) {
            Some(outcome) => {
                let ghost spare: DecodeResult = Err(LoadError::NotSupported);
                assert((self@, outcome_view(outcome)) == resolved(
                    self@,
                    key@,
                    fetched_view(fetched),
                    decoded_view(spare),
                ));
                outcome
            },
            None => self.resolve_miss(key, fetched, decode),
        }
    }

    /// Loads the image behind `uri`, or reports how far that has come.
    ///
    /// A local file with an extension that the decoder does not read is
    /// refused at once. What is remembered for the URI is served without
    /// asking anyone. Only then is the byte source asked, once, for the URI
    /// without its frame index, and its answer resolved as `resolve` says.
    /// The size hint plays no part.
    ///
    /// Exclusive access to the loader stands for the lock that a shared
    /// loader is kept under: it covers lookup, fetch, decode and insert, so
    /// that no two loads decode at once and the cache is never seen half
    /// updated.
    ///
    /// `fetch` has to take the URI itself and whatever stands before a `#` in
    /// it, and that only where the load has to ask: for a URI that is refused
    /// or remembered it need not be callable at all, so it is not called.
    /// `decode` has to take the bytes that `fetch` hands over, and those only
    /// where the load asked and nothing screens the bytes out. The contract
    /// names the answers of `fetch` and `decode` where they are asked, and
    /// says that cache and outcome are what `loaded` makes of them. Whether
    /// a load has to ask is what `settled` tells beforehand.
    pub fn load<F, D>(&mut self, uri: &str, _size_hint: SizeHint, fetch: F, decode: D) -> (outcome:
        ImageLoadResult) where F: FnOnce(&str) -> BytesLoadResult, D: FnOnce(&[u8]) -> DecodeResult
        requires
            needs_fetch(old(self)@, uri@) ==> (forall|key: &str|
                key@ == uri@ || stands_before_hash(key@, uri@) ==> call_requires(fetch, (key,))),
            forall|fetched: BytesLoadResult, bytes: &[u8]|
                needs_fetch(old(self)@, uri@) && fetch_gives(fetch, cache_key(uri@), fetched)
                    && needs_decode(fetched_view(fetched)) && bytes@ == ready_bytes(
                    fetched_view(fetched),
                ) ==> call_requires(decode, (bytes,)),
        ensures
            !needs_fetch(old(self)@, uri@) ==> final(self)@ == old(self)@ && outcome_view(outcome)
                == settled_outcome(old(self)@, uri@),
            exists|fetched: BytesLoadResult, decoded: DecodeResult|
                {
                    &&& needs_fetch(old(self)@, uri@) ==> fetch_gives(
                        fetch,
                        cache_key(uri@),
                        fetched,
                    )
                    &&& needs_fetch(old(self)@, uri@) && needs_decode(fetched_view(fetched))
                        ==> decode_gives(decode, ready_bytes(fetched_view(fetched)), decoded)
                    &&& (final(self)@, outcome_view(outcome)) == loaded(
                        old(self)@,
                        uri@,
                        #[trigger] fetched_view(fetched),
                        #[trigger] decoded_view(decoded),
                    )
                },
    {
        let ghost spare_fetched: BytesLoadResult = Err(LoadError::NotSupported);
        let ghost spare_decoded: DecodeResult = Err(LoadError::NotSupported);
        let key = base_uri(uri);
        match self.settled_key(key) {
            Some(outcome) => {
                assert((self@, outcome_view(outcome)) == loaded(
                    self@,
                    uri@,
                    fetched_view(spare_fetched),
                    decoded_view(spare_decoded),
                ));
                outcome
            },
            None => {
                let fetched = fetch(key);
                let ghost answer = fetched;
                assert(fetch_gives(fetch, cache_key(uri@), answer));
                let outcome = self.resolve_miss(key, fetched, decode);
                let ghost decoded = choose|decoded: DecodeResult|
                    {
                        &&& needs_decode(fetched_view(answer)) ==> decode_gives(
                            decode,
                            ready_bytes(fetched_view(answer)),
                            decoded,
                        )
                        &&& (self@, outcome_view(outcome)) == resolved(
                            old(self)@,
                            key@,
                            fetched_view(answer),
                            #[trigger] decoded_view(decoded),
                        )
                    };
                assert((self@, outcome_view(outcome)) == loaded(
                    old(self)@,
                    uri@,
                    fetched_view(answer),
                    decoded_view(decoded),
                ));
                outcome
            },
        }
    }

    /// Forgets what is remembered for `uri`, if anything: the entry that a
    /// load of `uri` would be served from, which is kept under the URI
    /// without its frame index.
    pub fn forget(&mut self, uri: &str)
        ensures
            final(self)@ == old(self)@.remove(cache_key(uri@)),
    {
        proof {
            use_type_invariant(&*self);
        }
        let mut ledger = Ledger::empty();
        core::mem::swap(&mut ledger, &mut self.ledger);
        ledger.remove(base_uri(uri));
        self.ledger = ledger;
    }

    /// Forgets everything. Nothing is charged for the cache afterwards.
    pub fn forget_all(&mut self)
        ensures
            final(self)@ == Map::<Seq<char>, EntryView>::empty(),
            total_byte_size(final(self)@) == 0,
    {
        let mut ledger = Ledger::empty();
        core::mem::swap(&mut ledger, &mut self.ledger);
        ledger.clear();
        self.ledger = ledger;
        proof {
            lemma_total_empty();
        }
    }

    /// Bytes charged for everything that is remembered: for each image its
    /// texel buffer, for each error its declared size. A total beyond
    /// `usize::MAX` is reported as `usize::MAX`.
    pub fn byte_size(&self) -> (bytes: usize)
        ensures
            self@.dom().finite(),
            total_byte_size(self@) <= usize::MAX ==> bytes == total_byte_size(self@),
            total_byte_size(self@) > usize::MAX ==> bytes == usize::MAX,
    {
        proof {
            use_type_invariant(self);
            assert(self@.dom() =~= self.ledger.entries@.dom());
        }
        if self.ledger.used > usize::MAX as u128 {
            usize::MAX
        } else {
            self.ledger.used as usize
        }
    }
}

impl Default for ImageCrateLoader {
    fn default() -> (loader: Self)
        ensures
            loader@ == Map::<Seq<char>, EntryView>::empty(),
    {
        ImageCrateLoader::new()
    }
}

} // verus!
