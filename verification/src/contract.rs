//! The registry itself: the counter that issues the ids, the store of
//! auction records and the bid ledger, and the operations on them.
//!
//! Every operation is one step: it either does all of its work or refuses
//! and leaves the registry as it was.

use vstd::prelude::*;

use crate::address::Address;
use crate::auction::Auction;
use crate::error::AuctionError;
use crate::laws::law_call_keeps_well_formed;
use crate::state::{Call, DataKey, State};
use crate::store::{AuctionStore, BidLedger};
use crate::symbol::Symbol;

verus! {

/// The auction registry.
pub struct AuctionContract {
    counter: u64,
    auctions: AuctionStore,
    user_bids: BidLedger,
}

impl View for AuctionContract {
    type V = State;

    closed spec fn view(&self) -> State {
        State {
            counter: self.counter as nat,
            auctions: self.auctions@,
            user_bids: self.user_bids@,
        }
    }
}

impl AuctionContract {
    /// A registry in which nothing has happened yet.
    pub fn new() -> (contract: AuctionContract)
        ensures
            contract@ == State::empty(),
    {
        AuctionContract { counter: 0, auctions: AuctionStore::new(), user_bids: BidLedger::new() }
    }

    /// Issues the next id: adds one to the counter and returns it.
    fn next_id(&mut self) -> (id: u64)
        requires
            old(self)@.counter < u64::MAX,
        ensures
            id == old(self)@.next_id(),
            final(self)@ == (State { counter: id as nat, ..old(self)@ }),
    {
        self.counter = self.counter + 1;
        self.counter
    }

    /// Sets the counter to zero.
    ///
    /// This is meant to be done once, before the first auction is opened.
    /// Done later, it resets the counter only: the records and the ledger
    /// stay, and the next auctions take the place of the first ones.
    pub fn initialize(&mut self)
        ensures
            final(self)@ == old(self)@.initialized(),
            final(self)@ == old(self)@.after(Call::Initialize),
            old(self)@.well_formed() ==> final(self)@.well_formed(),
    {
        self.counter = 0;
        proof {
            law_call_keeps_well_formed(old(self)@, Call::Initialize);
        }
    }

    /// Opens an auction for `seller` at time `now`, to end `duration` later,
    /// and returns its id: one more than the id issued before it.
    ///
    /// The caller must be the seller, else the call is refused as
    /// `Unauthorized` and nothing changes. A duration of zero is accepted:
    /// it opens an auction that takes no bid and can be closed at once.
    pub fn create_auction(
        &mut self,
        caller: &Address,
        now: u64,
        seller: Address,
        item_name: Symbol,
        description: Symbol,
        min_bid: i128,
        duration: u64,
    ) -> (result: Result<u64, AuctionError>)
        requires
            old(self)@.counter < u64::MAX,
            now + duration <= u64::MAX,
        ensures
            match result {
                Ok(id) => {
                    &&& State::create_refusal(caller@, seller@) is None
                    &&& id == old(self)@.next_id()
                    &&& final(self)@ == old(self)@.with_auction(
                        seller@,
                        item_name@,
                        description@,
                        min_bid as int,
                        (now + duration) as nat,
                    )
                },
                Err(e) => {
                    &&& State::create_refusal(caller@, seller@) == Some(e)
                    &&& final(self)@ == old(self)@
                },
            },
            final(self)@ == old(self)@.after(
                Call::CreateAuction {
                    caller: caller@,
                    now: now as nat,
                    seller: seller@,
                    item_name: item_name@,
                    description: description@,
                    min_bid: min_bid as int,
                    duration: duration as nat,
                },
            ),
            old(self)@.well_formed() ==> final(self)@.well_formed(),
            old(self)@.dense() ==> final(self)@.dense(),
    {
        proof {
            law_call_keeps_well_formed(
                old(self)@,
                Call::CreateAuction {
                    caller: caller@,
                    now: now as nat,
                    seller: seller@,
                    item_name: item_name@,
                    description: description@,
                    min_bid: min_bid as int,
                    duration: duration as nat,
                },
            );
        }
        if !(*caller == seller) {
            return Err(AuctionError::Unauthorized);
        }
        let id: u64 = self.next_id();
        let auction = Auction::new(id, seller, item_name, description, min_bid, now + duration);
        self.auctions.put(id, auction);
        Ok(id)
    }

    /// Places a bid of `amount` by `bidder` on an auction at time `now`.
    ///
    /// The call is refused, and nothing changes, for the first of these
    /// that fails: the caller is the bidder; the auction is stored; it is
    /// active; the deadline has not passed; the amount is strictly greater
    /// than the highest bid; the amount is not below the reserve. An
    /// accepted bid becomes the highest bid and is written to the ledger.
    /// A bidder may outbid itself.
    pub fn place_bid(
        &mut self,
        caller: &Address,
        now: u64,
        auction_id: u64,
        bidder: Address,
        amount: i128,
    ) -> (result: Result<(), AuctionError>)
        ensures
            match result {
                Ok(()) => {
                    &&& old(self)@.bid_refusal(
                        caller@,
                        now as nat,
                        auction_id as nat,
                        bidder@,
                        amount as int,
                    ) is None
                    &&& final(self)@ == old(self)@.with_bid(
                        auction_id as nat,
                        bidder@,
                        amount as int,
                    )
                },
                Err(e) => {
                    &&& old(self)@.bid_refusal(
                        caller@,
                        now as nat,
                        auction_id as nat,
                        bidder@,
                        amount as int,
                    ) == Some(e)
                    &&& final(self)@ == old(self)@
                },
            },
            final(self)@ == old(self)@.after(
                Call::PlaceBid {
                    caller: caller@,
                    now: now as nat,
                    auction_id: auction_id as nat,
                    bidder: bidder@,
                    amount: amount as int,
                },
            ),
            old(self)@.well_formed() ==> final(self)@.well_formed(),
            old(self)@.dense() ==> final(self)@.dense(),
    {
        proof {
            law_call_keeps_well_formed(
                old(self)@,
                Call::PlaceBid {
                    caller: caller@,
                    now: now as nat,
                    auction_id: auction_id as nat,
                    bidder: bidder@,
                    amount: amount as int,
                },
            );
        }
        if !(*caller == bidder) {
            return Err(AuctionError::Unauthorized);
        }
        let mut auction = match self.auctions.get(auction_id) {
            Ok(auction) => auction,
            Err(e) => {
                return Err(e);
            },
        };
        let on_ledger = bidder.clone();
        match auction.place_bid(now, bidder, amount) {
            Ok(()) => {},
            Err(e) => {
                return Err(e);
            },
        }
        self.auctions.put(auction_id, auction);
        self.user_bids.record(auction_id, on_ledger, amount);
        Ok(())
    }

    /// Closes an auction at time `now`.
    ///
    /// Any caller may close an auction. The call is refused, and nothing
    /// changes, if the auction is not stored, has been closed already, or
    /// has not reached its deadline. The winner is whoever holds the highest
    /// bid when the auction is closed.
    pub fn end_auction(&mut self, now: u64, auction_id: u64) -> (result: Result<
        (),
        AuctionError,
    >)
        ensures
            match result {
                Ok(()) => {
                    &&& old(self)@.close_refusal(now as nat, auction_id as nat) is None
                    &&& final(self)@ == old(self)@.with_closed(auction_id as nat)
                },
                Err(e) => {
                    &&& old(self)@.close_refusal(now as nat, auction_id as nat) == Some(e)
                    &&& final(self)@ == old(self)@
                },
            },
            final(self)@ == old(self)@.after(
                Call::EndAuction { now: now as nat, auction_id: auction_id as nat },
            ),
            old(self)@.well_formed() ==> final(self)@.well_formed(),
            old(self)@.dense() ==> final(self)@.dense(),
    {
        proof {
            law_call_keeps_well_formed(
                old(self)@,
                Call::EndAuction { now: now as nat, auction_id: auction_id as nat },
            );
        }
        let mut auction = match self.auctions.get(auction_id) {
            Ok(auction) => auction,
            Err(e) => {
                return Err(e);
            },
        };
        match auction.close(now) {
            Ok(()) => {},
            Err(e) => {
                return Err(e);
            },
        }
        self.auctions.put(auction_id, auction);
        Ok(())
    }

    /// The record of an auction, or `NotFound` if none is stored under the
    /// id. Reading changes nothing.
    pub fn get_auction(&self, auction_id: u64) -> (result: Result<Auction, AuctionError>)
        ensures
            match result {
                Ok(auction) => {
                    &&& self@.get_refusal(auction_id as nat) is None
                    &&& auction@ == self@.auctions[auction_id as nat]
                },
                Err(e) => self@.get_refusal(auction_id as nat) == Some(e),
            },
    {
        self.auctions.get(auction_id)
    }

    /// The counter: the id that was issued last, which is the number of
    /// auctions opened since the counter was last set to zero.
    pub fn get_auction_count(&self) -> (count: u64)
        ensures
            count == self@.counter,
    {
        self.counter
    }

    /// The amount of the last accepted bid of `bidder` on an auction, as
    /// the ledger holds it.
    pub fn get_user_bid(&self, auction_id: u64, bidder: &Address) -> (amount: Option<i128>)
        ensures
            match amount {
                Some(a) => {
                    &&& self@.user_bids.contains_key((auction_id as nat, bidder@))
                    &&& self@.user_bids[(auction_id as nat, bidder@)] == a
                },
                None => !self@.user_bids.contains_key((auction_id as nat, bidder@)),
            },
    {
        self.user_bids.get(auction_id, bidder)
    }

    /// Whether an entry is stored at the given place.
    pub fn has(&self, key: &DataKey) -> (present: bool)
        ensures
            present == self@.holds(*key),
    {
        match key {
            DataKey::AuctionCounter => true,
            DataKey::Auction(id) => self.auctions.has(*id),
            DataKey::UserBid(id, bidder) => self.user_bids.has(*id, bidder),
        }
    }
}

} // verus!
