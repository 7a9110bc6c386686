//! One auction: its record and the steps of its life.
//!
//! An auction is opened with no bid, takes strictly increasing bids while it
//! is active and its deadline has not passed, and is closed once, at or after
//! the deadline.

use vstd::prelude::*;

use crate::address::Address;
use crate::error::AuctionError;
use crate::symbol::Symbol;

verus! {

/// The record of one auction.
#[derive(Debug)]
pub struct Auction {
    /// The id under which the auction is stored.
    pub id: u64,
    /// The principal that opened the auction.
    pub seller: Address,
    /// The name of the item on sale.
    pub item_name: Symbol,
    /// A short description of the item.
    pub description: Symbol,
    /// The reserve: no bid below it is accepted. It is meant to be zero or
    /// more. A negative reserve is taken as it is given and rules nothing
    /// out, since an accepted bid is always greater than zero.
    pub min_bid: i128,
    /// The amount of the last accepted bid, or zero while there is none.
    pub highest_bid: i128,
    /// The principal that placed the last accepted bid.
    pub highest_bidder: Option<Address>,
    /// The deadline: bids are accepted before it, closing at or after it.
    pub end_time: u64,
    /// Whether the auction has not been closed yet.
    pub active: bool,
}

/// What an auction record holds, as mathematical values.
pub struct AuctionView {
    pub id: nat,
    pub seller: Seq<char>,
    pub item_name: Seq<char>,
    pub description: Seq<char>,
    pub min_bid: int,
    pub highest_bid: int,
    pub highest_bidder: Option<Seq<char>>,
    pub end_time: nat,
    pub active: bool,
}

impl View for Auction {
    type V = AuctionView;

    open spec fn view(&self) -> AuctionView {
        AuctionView {
            id: self.id as nat,
            seller: self.seller@,
            item_name: self.item_name@,
            description: self.description@,
            min_bid: self.min_bid as int,
            highest_bid: self.highest_bid as int,
            highest_bidder: match self.highest_bidder {
                Some(bidder) => Some(bidder@),
                None => None,
            },
            end_time: self.end_time as nat,
            active: self.active,
        }
    }
}

impl AuctionView {
    /// The record of an auction that has just been opened: active, with no
    /// bid and no bidder.
    pub open spec fn opened(
        id: nat,
        seller: Seq<char>,
        item_name: Seq<char>,
        description: Seq<char>,
        min_bid: int,
        end_time: nat,
    ) -> AuctionView {
        AuctionView {
            id,
            seller,
            item_name,
            description,
            min_bid,
            highest_bid: 0,
            highest_bidder: None,
            end_time,
            active: true,
        }
    }

    /// What holds of every record that the steps below produce: the highest
    /// bid is zero exactly while there is no bidder, and once there is a
    /// bidder the highest bid is positive and not below the reserve.
    pub open spec fn well_formed(self) -> bool {
        &&& self.highest_bid == 0 <==> self.highest_bidder is None
        &&& self.highest_bid >= 0
        &&& self.highest_bidder is Some ==> self.highest_bid >= self.min_bid
    }

    /// Why a bid of `amount` at time `now` is refused, if it is: the first
    /// of the four conditions, in this order, that the bid breaks.
    pub open spec fn bid_refusal(self, now: nat, amount: int) -> Option<AuctionError> {
        if !self.active {
            Some(AuctionError::AuctionInactive)
        } else if now >= self.end_time {
            Some(AuctionError::AuctionExpired)
        } else if amount <= self.highest_bid {
            Some(AuctionError::BidTooLow)
        } else if amount < self.min_bid {
            Some(AuctionError::BelowReserve)
        } else {
            None
        }
    }

    /// The record after `bidder` has placed an accepted bid of `amount`.
    pub open spec fn with_bid(self, bidder: Seq<char>, amount: int) -> AuctionView {
        AuctionView { highest_bid: amount, highest_bidder: Some(bidder), ..self }
    }

    /// Why closing at time `now` is refused, if it is.
    pub open spec fn close_refusal(self, now: nat) -> Option<AuctionError> {
        if !self.active {
            Some(AuctionError::AlreadyClosed)
        } else if now < self.end_time {
            Some(AuctionError::TooEarly)
        } else {
            None
        }
    }

    /// The record after the auction has been closed.
    pub open spec fn closed(self) -> AuctionView {
        AuctionView { active: false, ..self }
    }

    /// Whether this record can come after `earlier` in the life of one
    /// auction: what was given when the auction was opened is the same, the
    /// highest bid is not smaller, the bidder is the same unless the bid
    /// has grown, and a closed auction has stayed closed.
    pub open spec fn follows(self, earlier: AuctionView) -> bool {
        &&& self.id == earlier.id
        &&& self.seller == earlier.seller
        &&& self.item_name == earlier.item_name
        &&& self.description == earlier.description
        &&& self.min_bid == earlier.min_bid
        &&& self.end_time == earlier.end_time
        &&& self.highest_bid >= earlier.highest_bid
        &&& self.highest_bid == earlier.highest_bid ==> self.highest_bidder
            == earlier.highest_bidder
        &&& self.active ==> earlier.active
    }
}

impl Auction {
    /// Opens an auction: active, with no bid and no bidder.
    pub fn new(
        id: u64,
        seller: Address,
        item_name: Symbol,
        description: Symbol,
        min_bid: i128,
        end_time: u64,
    ) -> (auction: Auction)
        ensures
            auction@ == AuctionView::opened(
                id as nat,
                seller@,
                item_name@,
                description@,
                min_bid as int,
                end_time as nat,
            ),
            auction@.well_formed(),
    {
        Auction {
            id,
            seller,
            item_name,
            description,
            min_bid,
            highest_bid: 0,
            highest_bidder: None,
            end_time,
            active: true,
        }
    }

    /// Places a bid of `amount` by `bidder` at time `now`.
    ///
    /// The bid is accepted if the auction is active, the deadline has not
    /// passed, the amount is strictly greater than the highest bid and not
    /// below the reserve. The first of these that fails, in this order,
    /// decides the error, and the record is then left as it was.
    pub fn place_bid(&mut self, now: u64, bidder: Address, amount: i128) -> (result: Result<
        (),
        AuctionError,
    >)
        ensures
            match result {
                Ok(()) => {
                    &&& old(self)@.bid_refusal(now as nat, amount as int) is None
                    &&& final(self)@ == old(self)@.with_bid(bidder@, amount as int)
                },
                Err(e) => {
                    &&& old(self)@.bid_refusal(now as nat, amount as int) == Some(e)
                    &&& final(self)@ == old(self)@
                },
            },
            old(self)@.well_formed() ==> final(self)@.well_formed(),
    {
        if !self.active {
            return Err(AuctionError::AuctionInactive);
        }
        if now >= self.end_time {
            return Err(AuctionError::AuctionExpired);
        }
        if amount <= self.highest_bid {
            return Err(AuctionError::BidTooLow);
        }
        if amount < self.min_bid {
            return Err(AuctionError::BelowReserve);
        }
        self.highest_bid = amount;
        self.highest_bidder = Some(bidder);
        Ok(())
    }

    /// Closes the auction at time `now`.
    ///
    /// Closing succeeds once, at or after the deadline. The winner is
    /// whoever holds the highest bid at that moment.
    pub fn close(&mut self, now: u64) -> (result: Result<(), AuctionError>)
        ensures
            match result {
                Ok(()) => {
                    &&& old(self)@.close_refusal(now as nat) is None
                    &&& final(self)@ == old(self)@.closed()
                },
                Err(e) => {
                    &&& old(self)@.close_refusal(now as nat) == Some(e)
                    &&& final(self)@ == old(self)@
                },
            },
            old(self)@.well_formed() ==> final(self)@.well_formed(),
    {
        if !self.active {
            return Err(AuctionError::AlreadyClosed);
        }
        if now < self.end_time {
            return Err(AuctionError::TooEarly);
        }
        self.active = false;
        Ok(())
    }
}

impl Clone for Auction {
    fn clone(&self) -> (copy: Self)
        ensures
            copy == *self,
    {
        Auction {
            id: self.id,
            seller: self.seller.clone(),
            item_name: self.item_name.clone(),
            description: self.description.clone(),
            min_bid: self.min_bid,
            highest_bid: self.highest_bid,
            highest_bidder: match &self.highest_bidder {
                Some(bidder) => Some(bidder.clone()),
                None => None,
            },
            end_time: self.end_time,
            active: self.active,
        }
    }
}

} // verus!
