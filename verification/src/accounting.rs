//! Memory accounting: the bytes that a set of cache entries is charged for.

use crate::outcome::{ColorImageView, LoadErrorView};
use vstd::prelude::*;

verus! {

/// A terminal outcome as the cache remembers it: the decoded image, or the
/// error that ended the attempt.
pub type EntryView = Result<ColorImageView, LoadErrorView>;

/// The cache as a mathematical map from URI to terminal outcome.
pub type CacheView = Map<Seq<char>, EntryView>;

/// Bytes charged for one entry: the texel buffer of an image, or the
/// declared size of an error.
pub open spec fn entry_byte_size(entry: EntryView) -> nat {
    match entry {
        Ok(image) => image.byte_size(),
        Err(error) => error.byte_size(),
    }
}

/// The step of the sum: adds what `cache` charges for `uri`.
pub open spec fn charge(cache: CacheView) -> spec_fn(nat, Seq<char>) -> nat {
    |sum: nat, uri: Seq<char>| sum + entry_byte_size(cache[uri])
}

/// Bytes charged for all entries of a cache together.
pub open spec fn total_byte_size(cache: CacheView) -> nat {
    cache.dom().fold(0nat, charge(cache))
}

/// The order in which entries are added up does not matter.
proof fn lemma_charge_commutes(cache: CacheView)
    ensures
        vstd::set::fold::is_fun_commutative(charge(cache)),
{
    let f = charge(cache);
    assert forall|a1: Seq<char>, a2: Seq<char>, b: nat| #[trigger]
        f(f(b, a2), a1) == f(f(b, a1), a2) by {}
}

/// Two caches that agree on every URI of a finite set charge the same for it.
proof fn lemma_sum_agrees(uris: Set<Seq<char>>, a: CacheView, b: CacheView)
    requires
        uris.finite(),
        forall|uri: Seq<char>| uris.contains(uri) ==> a[uri] == b[uri],
    ensures
        uris.fold(0nat, charge(a)) == uris.fold(0nat, charge(b)),
    decreases uris.len(),
{
    lemma_charge_commutes(a);
    lemma_charge_commutes(b);
    if uris.is_empty() {
        vstd::set::fold::lemma_fold_empty(0nat, charge(a));
        vstd::set::fold::lemma_fold_empty(0nat, charge(b));
        assert(uris =~= Set::empty());
    } else {
        let uri = uris.choose();
        let rest = uris.remove(uri);
        lemma_sum_agrees(rest, a, b);
        vstd::set::fold::lemma_fold_insert(rest, 0nat, charge(a), uri);
        vstd::set::fold::lemma_fold_insert(rest, 0nat, charge(b), uri);
        assert(rest.insert(uri) =~= uris);
    }
}

/// An empty cache is charged nothing.
pub proof fn lemma_total_empty()
    ensures
        total_byte_size(Map::empty()) == 0,
{
    let cache: CacheView = Map::empty();
    vstd::set::fold::lemma_fold_empty(0nat, charge(cache));
    assert(cache.dom() =~= Set::empty());
}

/// A new entry adds exactly its own size to the total.
pub proof fn lemma_total_insert(cache: CacheView, uri: Seq<char>, entry: EntryView)
    requires
        cache.dom().finite(),
        !cache.contains_key(uri),
    ensures
        total_byte_size(cache.insert(uri, entry)) == total_byte_size(cache) + entry_byte_size(
            entry,
        ),
{
    let after = cache.insert(uri, entry);
    lemma_charge_commutes(after);
    lemma_sum_agrees(cache.dom(), cache, after);
    vstd::set::fold::lemma_fold_insert(cache.dom(), 0nat, charge(after), uri);
    assert(after.dom() =~= cache.dom().insert(uri));
}

/// Evicting an entry takes exactly its own size off the total.
pub proof fn lemma_total_remove(cache: CacheView, uri: Seq<char>)
    requires
        cache.dom().finite(),
        cache.contains_key(uri),
    ensures
        total_byte_size(cache) == total_byte_size(cache.remove(uri)) + entry_byte_size(cache[uri]),
{
    let rest = cache.remove(uri);
    lemma_total_insert(rest, uri, cache[uri]);
    assert(rest.insert(uri, cache[uri]) =~= cache);
}

/// The total is bounded by the number of entries times the largest entry.
pub proof fn lemma_total_bound(cache: CacheView, bound: nat)
    requires
        cache.dom().finite(),
        forall|uri: Seq<char>|
            cache.contains_key(uri) ==> entry_byte_size(#[trigger] cache[uri]) <= bound,
    ensures
        total_byte_size(cache) <= cache.dom().len() * bound,
    decreases cache.dom().len(),
{
    if cache.dom().is_empty() {
        assert(cache =~= Map::empty());
        lemma_total_empty();
    } else {
        let uri = cache.dom().choose();
        let rest = cache.remove(uri);
        lemma_total_bound(rest, bound);
        lemma_total_remove(cache, uri);
        assert(total_byte_size(cache) <= (rest.dom().len() + 1) * bound) by (nonlinear_arith)
            requires
                total_byte_size(cache) == total_byte_size(rest) + entry_byte_size(cache[uri]),
                total_byte_size(rest) <= rest.dom().len() * bound,
                entry_byte_size(cache[uri]) <= bound,
        ;
    }
}

} // verus!
