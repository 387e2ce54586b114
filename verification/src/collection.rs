//! The ledger's state: what the collection was initialised with, the last
//! token id issued, and the listings.
//!
//! The state is an explicit value that every operation takes and returns. How
//! it is kept between calls is the caller's concern: [`ProsoccerCollection::restore`]
//! rebuilds a state from what was kept, and refuses what no sequence of
//! operations could have produced.

use vstd::prelude::*;
use soroban_sdk::{Address, Symbol};
use crate::listing::NFTListing;
use crate::store::{distinct_ids, keyed_by_id, listings_of, ListingStore};

verus! {

/// What a collection was initialised with.
#[derive(Debug, PartialEq, Eq)]
pub struct CollectionInfo {
    /// The principal that the collection was initialised for.
    pub owner: Address,
    /// The collection's name.
    pub name: Symbol,
    /// The collection's ticker symbol.
    pub symbol: Symbol,
}

/// The ledger as a mathematical value.
#[verifier::ext_equal]
pub struct LedgerView {
    /// What the collection was initialised with; `None` as long as it was not
    /// initialised.
    pub info: Option<CollectionInfo>,
    /// The last token id issued; 0 before the first mint.
    pub token_id: int,
    /// The tokens that are for sale, each with its listing.
    pub listings: Map<i64, NFTListing>,
}

impl LedgerView {
    /// What holds of every ledger: ids are issued from 1 upwards, only issued
    /// ids are listed, and each listing sits under its own id.
    pub open spec fn wf(self) -> bool {
        &&& 0 <= self.token_id <= i64::MAX
        &&& keyed_by_id(self.listings)
        &&& forall|id: i64| #[trigger] self.listings.dom().contains(id) ==> 1 <= id <= self.token_id
    }

    /// The ledger of a collection that was just initialised: nothing issued,
    /// nothing listed.
    pub open spec fn initial(owner: Address, name: Symbol, symbol: Symbol) -> LedgerView {
        LedgerView { info: Some(CollectionInfo { owner, name, symbol }), token_id: 0, listings: Map::empty() }
    }

    /// Whether `token_id` is for sale.
    pub open spec fn is_listed(self, token_id: i64) -> bool {
        self.listings.dom().contains(token_id)
    }

    /// The ledger after one more id was issued.
    pub open spec fn issue(self) -> LedgerView {
        LedgerView { token_id: self.token_id + 1, ..self }
    }

    /// The ledger with `listing` stored under its token id.
    pub open spec fn list(self, listing: NFTListing) -> LedgerView {
        LedgerView { listings: self.listings.insert(listing.token_id, listing), ..self }
    }

    /// The ledger without a listing for `token_id`.
    pub open spec fn unlist(self, token_id: i64) -> LedgerView {
        LedgerView { listings: self.listings.remove(token_id), ..self }
    }
}

/// Whether a counter and a sequence of listings can be the contents of a
/// ledger: the counter is not negative, no id is listed twice, and every
/// listed id was issued.
pub open spec fn restorable(token_id: i64, entries: Seq<NFTListing>) -> bool {
    &&& 0 <= token_id
    &&& distinct_ids(entries)
    &&& forall|i: int| 0 <= i < entries.len() ==> 1 <= (#[trigger] entries[i]).token_id <= token_id
}

/// The state of one collection's marketplace.
pub struct ProsoccerCollection {
    info: Option<CollectionInfo>,
    token_id: i64,
    listings: ListingStore,
}

impl View for ProsoccerCollection {
    type V = LedgerView;

    closed spec fn view(&self) -> LedgerView {
        LedgerView { info: self.info, token_id: self.token_id as int, listings: self.listings@ }
    }
}

impl ProsoccerCollection {
    /// The invariant of the representation.
    pub closed spec fn rep_wf(&self) -> bool {
        self.listings.wf()
    }

    /// The state's invariant. Every constructor establishes it and every
    /// operation keeps it.
    pub open spec fn wf(&self) -> bool {
        self.rep_wf() && self@.wf()
    }

    /// The state of a collection in which nothing was minted yet.
    pub(crate) fn new(owner: Address, name: Symbol, symbol: Symbol) -> (state: Self)
        ensures
            state.wf(),
            state@ == LedgerView::initial(owner, name, symbol),
    {
        ProsoccerCollection {
            info: Some(CollectionInfo { owner, name, symbol }),
            token_id: 0,
            listings: ListingStore::new(),
        }
    }

    /// The state that holds what was kept of a ledger, or `None` when the
    /// counter and the listings are not [`restorable`]. A ledger of which
    /// nothing was kept is restored from no info, the counter 0 and no
    /// entries.
    pub fn restore(info: Option<CollectionInfo>, token_id: i64, entries: Vec<NFTListing>) -> (state: Option<Self>)
        ensures
            state is Some <==> restorable(token_id, entries@),
            state matches Some(s) ==> {
                &&& s.wf()
                &&& s@.info == info
                &&& s@.token_id == token_id
                &&& s@.listings == listings_of(entries@)
            },
    {
        if token_id < 0 {
            return None;
        }
        let mut i: usize = 0;
        while i < entries.len()
            invariant
                i <= entries@.len(),
                forall|k: int| 0 <= k < i ==> 1 <= (#[trigger] entries@[k]).token_id <= token_id,
            decreases entries@.len() - i,
        {
            if entries[i].token_id < 1 || entries[i].token_id > token_id {
                return None;
            }
            i += 1;
        }
        match ListingStore::from_entries(entries) {
            Some(listings) => Some(ProsoccerCollection { info, token_id, listings }),
            None => None,
        }
    }

    /// What the collection was initialised with, or `None` as long as it was
    /// not initialised.
    pub fn info(&self) -> (info: Option<&CollectionInfo>)
        ensures
            info == (match self@.info {
                Some(i) => Some(&i),
                None => None,
            }),
    {
        self.info.as_ref()
    }

    /// The last token id issued; 0 before the first mint.
    pub fn token_id(&self) -> (token_id: i64)
        ensures
            token_id == self@.token_id,
    {
        self.token_id
    }

    /// The listing store.
    pub fn listings(&self) -> (listings: &ListingStore)
        requires
            self.wf(),
        ensures
            listings.wf(),
            listings@ == self@.listings,
    {
        &self.listings
    }

    /// The listing of `token_id`, or `None` when the token is not for sale.
    pub fn listing(&self, token_id: i64) -> (found: Option<&NFTListing>)
        requires
            self.wf(),
        ensures
            found == (if self@.is_listed(token_id) {
                Some(&self@.listings[token_id])
            } else {
                None
            }),
            found matches Some(listing) ==> listing.token_id == token_id,
    {
        self.listings.get(token_id)
    }

    /// Issues the next token id: one more than the last. An id that was
    /// issued is never issued again, whatever becomes of its token.
    pub fn next_id(&mut self) -> (token_id: i64)
        requires
            old(self).wf(),
            old(self)@.token_id < i64::MAX,
        ensures
            final(self).wf(),
            final(self)@ == old(self)@.issue(),
            token_id == old(self)@.token_id + 1,
    {
        self.token_id = self.token_id + 1;
        self.token_id
    }

    /// Stores the listing of an issued token.
    pub(crate) fn list(&mut self, listing: NFTListing)
        requires
            old(self).wf(),
            1 <= listing.token_id <= old(self)@.token_id,
        ensures
            final(self).wf(),
            final(self)@ == old(self)@.list(listing),
    {
        self.listings.put(listing);
    }

    /// Removes the listing of `token_id`, if there is one.
    pub(crate) fn unlist(&mut self, token_id: i64)
        requires
            old(self).wf(),
        ensures
            final(self).wf(),
            final(self)@ == old(self)@.unlist(token_id),
    {
        let _ = self.listings.remove(token_id);
    }
}

} // verus!
