//! The listing store: which tokens are for sale, and on what terms.
//!
//! The store is a map from token id to listing, kept as a vector in which no
//! id occurs twice. A token is for sale exactly when its id is a key.

use vstd::prelude::*;
use crate::listing::NFTListing;

verus! {

/// No two entries share a token id.
pub open spec fn distinct_ids(entries: Seq<NFTListing>) -> bool {
    forall|i: int, j: int|
        0 <= i < j < entries.len() ==> (#[trigger] entries[i]).token_id != (#[trigger] entries[j]).token_id
}

/// Some entry carries the token id `id`.
pub open spec fn has_id(entries: Seq<NFTListing>, id: i64) -> bool {
    exists|i: int| 0 <= i < entries.len() && (#[trigger] entries[i]).token_id == id
}

/// The map that a sequence of listings stands for: each listing under its own
/// token id.
pub open spec fn listings_of(entries: Seq<NFTListing>) -> Map<i64, NFTListing> {
    Map::new(
        |id: i64| has_id(entries, id),
        |id: i64| entries[choose|i: int| 0 <= i < entries.len() && (#[trigger] entries[i]).token_id == id],
    )
}

/// Every listing in the map is stored under its own token id.
pub open spec fn keyed_by_id(listings: Map<i64, NFTListing>) -> bool {
    forall|id: i64| #[trigger] listings.dom().contains(id) ==> listings[id].token_id == id
}

/// In a sequence without repeated ids, the entry at `i` is the one that the
/// map holds under that entry's id.
pub proof fn lemma_entry_is_listed(entries: Seq<NFTListing>, i: int)
    requires
        distinct_ids(entries),
        0 <= i < entries.len(),
    ensures
        listings_of(entries).dom().contains(entries[i].token_id),
        listings_of(entries)[entries[i].token_id] == entries[i],
{
    let j = choose|j: int| 0 <= j < entries.len() && (#[trigger] entries[j]).token_id == entries[i].token_id;
    assert(i == j);
}

/// Appending a listing whose id is new stores it under that id and leaves
/// the rest of the map alone.
proof fn lemma_push_inserts(entries: Seq<NFTListing>, listing: NFTListing)
    requires
        distinct_ids(entries),
        !has_id(entries, listing.token_id),
    ensures
        distinct_ids(entries.push(listing)),
        listings_of(entries.push(listing)) == listings_of(entries).insert(listing.token_id, listing),
{
    let after = entries.push(listing);
    assert forall|k: i64| has_id(after, k) == (k == listing.token_id || has_id(entries, k)) by {
        if has_id(entries, k) {
            let j = choose|j: int| 0 <= j < entries.len() && (#[trigger] entries[j]).token_id == k;
            assert(after[j].token_id == k);
        }
        if k == listing.token_id {
            assert(after[entries.len() as int].token_id == k);
        }
    }
}

/// Writing a listing over the entry that has its id stores it under that id
/// and leaves the rest of the map alone.
proof fn lemma_update_inserts(entries: Seq<NFTListing>, i: int, listing: NFTListing)
    requires
        distinct_ids(entries),
        0 <= i < entries.len(),
        entries[i].token_id == listing.token_id,
    ensures
        distinct_ids(entries.update(i, listing)),
        listings_of(entries.update(i, listing)) == listings_of(entries).insert(listing.token_id, listing),
{
    let after = entries.update(i, listing);
    assert forall|k: i64| has_id(after, k) == (k == listing.token_id || has_id(entries, k)) by {
        if has_id(entries, k) {
            let j = choose|j: int| 0 <= j < entries.len() && (#[trigger] entries[j]).token_id == k;
            assert(after[j].token_id == k);
        }
    }
}

/// Taking the entry at `i` out removes its id from the map and leaves the
/// rest of the map alone.
proof fn lemma_remove_removes(entries: Seq<NFTListing>, i: int)
    requires
        distinct_ids(entries),
        0 <= i < entries.len(),
    ensures
        distinct_ids(entries.remove(i)),
        listings_of(entries.remove(i)) == listings_of(entries).remove(entries[i].token_id),
{
    let after = entries.remove(i);
    let id = entries[i].token_id;
    assert forall|k: i64| has_id(after, k) == (k != id && has_id(entries, k)) by {
        if k != id && has_id(entries, k) {
            let j = choose|j: int| 0 <= j < entries.len() && (#[trigger] entries[j]).token_id == k;
            let moved = if j < i { j } else { j - 1 };
            assert(after[moved].token_id == k);
        }
    }
}

/// The listings that are for sale, each under its token id.
pub struct ListingStore {
    entries: Vec<NFTListing>,
}

impl View for ListingStore {
    type V = Map<i64, NFTListing>;

    closed spec fn view(&self) -> Map<i64, NFTListing> {
        listings_of(self.entries@)
    }
}

impl ListingStore {
    /// The store's invariant: no token id occurs twice among its entries.
    /// Every constructor establishes it and every operation keeps it.
    pub closed spec fn wf(&self) -> bool {
        distinct_ids(self.entries@)
    }

    /// A store in which nothing is for sale.
    pub fn new() -> (store: Self)
        ensures
            store.wf(),
            store@ == Map::<i64, NFTListing>::empty(),
    {
        let store = ListingStore { entries: Vec::new() };
        assert(store@ =~= Map::<i64, NFTListing>::empty());
        store
    }

    /// A store that holds exactly `entries`, or `None` when two of them share a
    /// token id.
    pub fn from_entries(entries: Vec<NFTListing>) -> (store: Option<Self>)
        ensures
            store is Some <==> distinct_ids(entries@),
            store matches Some(s) ==> s.wf() && s@ == listings_of(entries@),
    {
        let n = entries.len();
        let mut j: usize = 0;
        while j < n
            invariant
                n == entries@.len(),
                j <= n,
                forall|a: int, b: int|
                    0 <= a < b < j ==> (#[trigger] entries@[a]).token_id != (#[trigger] entries@[b]).token_id,
            decreases n - j,
        {
            let mut i: usize = 0;
            while i < j
                invariant
                    n == entries@.len(),
                    i <= j < n,
                    forall|a: int| 0 <= a < i ==> (#[trigger] entries@[a]).token_id != entries@[j as int].token_id,
                decreases j - i,
            {
                if entries[i].token_id == entries[j].token_id {
                    return None;
                }
                i += 1;
            }
            j += 1;
        }
        Some(ListingStore { entries })
    }

    /// The listings in the store, one entry for each token that is for sale.
    pub fn entries(&self) -> (entries: &[NFTListing])
        requires
            self.wf(),
        ensures
            distinct_ids(entries@),
            listings_of(entries@) == self@,
    {
        self.entries.as_slice()
    }

    /// Where the listing of `token_id` sits among the entries, if it is there.
    fn position(&self, token_id: i64) -> (found: Option<usize>)
        ensures
            match found {
                Some(i) => i < self.entries@.len() && self.entries@[i as int].token_id == token_id,
                None => !has_id(self.entries@, token_id),
            },
    {
        let mut i: usize = 0;
        while i < self.entries.len()
            invariant
                i <= self.entries@.len(),
                forall|k: int| 0 <= k < i ==> (#[trigger] self.entries@[k]).token_id != token_id,
            decreases self.entries@.len() - i,
        {
            if self.entries[i].token_id == token_id {
                return Some(i);
            }
            i += 1;
        }
        None
    }

    /// Whether `token_id` is for sale.
    pub fn contains(&self, token_id: i64) -> (listed: bool)
        requires
            self.wf(),
        ensures
            listed == self@.dom().contains(token_id),
    {
        self.position(token_id).is_some()
    }

    /// The listing of `token_id`, or `None` when the token is not for sale.
    pub fn get(&self, token_id: i64) -> (found: Option<&NFTListing>)
        requires
            self.wf(),
        ensures
            found == (if self@.dom().contains(token_id) {
                Some(&self@[token_id])
            } else {
                None
            }),
            found matches Some(listing) ==> listing.token_id == token_id,
    {
        match self.position(token_id) {
            Some(i) => {
                proof {
                    lemma_entry_is_listed(self.entries@, i as int);
                }
                Some(&self.entries[i])
            },
            None => None,
        }
    }

    /// Stores `listing` under its own token id, in place of whatever was
    /// stored there.
    pub fn put(&mut self, listing: NFTListing)
        requires
            old(self).wf(),
        ensures
            final(self).wf(),
            final(self)@ == old(self)@.insert(listing.token_id, listing),
    {
        match self.position(listing.token_id) {
            Some(i) => {
                proof {
                    lemma_update_inserts(self.entries@, i as int, listing);
                }
                self.entries.set(i, listing);
            },
            None => {
                proof {
                    lemma_push_inserts(self.entries@, listing);
                }
                self.entries.push(listing);
            },
        }
    }

    /// Takes the listing of `token_id` out of the store and returns it, or
    /// returns `None` and leaves the store alone when the token is not for
    /// sale.
    pub fn remove(&mut self, token_id: i64) -> (removed: Option<NFTListing>)
        requires
            old(self).wf(),
        ensures
            final(self).wf(),
            final(self)@ == old(self)@.remove(token_id),
            removed == (if old(self)@.dom().contains(token_id) {
                Some(old(self)@[token_id])
            } else {
                None
            }),
            removed matches Some(listing) ==> listing.token_id == token_id,
    {
        match self.position(token_id) {
            Some(i) => {
                proof {
                    lemma_entry_is_listed(self.entries@, i as int);
                    lemma_remove_removes(self.entries@, i as int);
                }
                Some(self.entries.remove(i))
            },
            None => {
                assert(self@ =~= self@.remove(token_id));
                None
            },
        }
    }
}

} // verus!
