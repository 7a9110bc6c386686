//! The state of the registry as mathematical values, and what each
//! operation makes of it.
//!
//! The registry holds three things: the counter, which is the id that was
//! issued last; the auction records, each stored under its id; and the bid
//! ledger. `DataKey` names the place of each of them.

use vstd::prelude::*;

use crate::address::Address;
use crate::auction::AuctionView;
use crate::error::AuctionError;

verus! {

/// The place of one entry of the registry's state.
#[derive(Debug)]
pub enum DataKey {
    /// The counter.
    AuctionCounter,
    /// The record of the auction with the given id.
    Auction(u64),
    /// The ledger line of the given auction and bidder.
    UserBid(u64, Address),
}

impl Clone for DataKey {
    fn clone(&self) -> (copy: Self)
        ensures
            copy == *self,
    {
        match self {
            DataKey::AuctionCounter => DataKey::AuctionCounter,
            DataKey::Auction(id) => DataKey::Auction(*id),
            DataKey::UserBid(id, bidder) => DataKey::UserBid(*id, bidder.clone()),
        }
    }
}

/// The state of the registry.
#[verifier::ext_equal]
pub struct State {
    /// The id that was issued last, or zero.
    pub counter: nat,
    /// The auction records, by id.
    pub auctions: Map<nat, AuctionView>,
    /// The amount of each bidder's last accepted bid, by auction and bidder.
    pub user_bids: Map<(nat, Seq<char>), int>,
}

impl State {
    /// The state of a registry in which nothing has happened yet.
    pub open spec fn empty() -> State {
        State { counter: 0, auctions: Map::empty(), user_bids: Map::empty() }
    }

    /// What holds of every state that the operations produce from the
    /// empty one: each record is stored under its own id, which is at
    /// least one, and is well formed; every id up to the counter has a
    /// record; and the ledger speaks of stored auctions only.
    pub open spec fn well_formed(self) -> bool {
        &&& forall|id: nat| #[trigger]
            self.auctions.contains_key(id) ==> {
                &&& id >= 1
                &&& self.auctions[id].id == id
                &&& self.auctions[id].well_formed()
            }
        &&& forall|id: nat| 1 <= id <= self.counter ==> #[trigger] self.auctions.contains_key(id)
        &&& forall|id: nat, bidder: Seq<char>| #[trigger]
            self.user_bids.contains_key((id, bidder)) ==> self.auctions.contains_key(id)
    }

    /// Whether the ids in use are exactly those from one up to the counter.
    /// This holds as long as the counter is not reset while records exist.
    pub open spec fn dense(self) -> bool {
        forall|id: nat| #[trigger] self.auctions.contains_key(id) <==> 1 <= id <= self.counter
    }

    /// Whether an entry is stored at the given place.
    pub open spec fn holds(self, key: DataKey) -> bool {
        match key {
            DataKey::AuctionCounter => true,
            DataKey::Auction(id) => self.auctions.contains_key(id as nat),
            DataKey::UserBid(id, bidder) => self.user_bids.contains_key((id as nat, bidder@)),
        }
    }

    /// The state after the counter has been set to zero. The records and
    /// the ledger stay.
    pub open spec fn initialized(self) -> State {
        State { counter: 0, ..self }
    }

    /// Why opening an auction is refused, if it is: the caller must be the
    /// seller.
    pub open spec fn create_refusal(caller: Seq<char>, seller: Seq<char>) -> Option<AuctionError> {
        if caller != seller {
            Some(AuctionError::Unauthorized)
        } else {
            None
        }
    }

    /// The id that the next auction gets: one more than the counter.
    pub open spec fn next_id(self) -> nat {
        self.counter + 1
    }

    /// The state after an auction has been opened: the counter is one more
    /// and the new record is stored under it, in place of any record that
    /// was stored there.
    pub open spec fn with_auction(
        self,
        seller: Seq<char>,
        item_name: Seq<char>,
        description: Seq<char>,
        min_bid: int,
        end_time: nat,
    ) -> State {
        let id = self.next_id();
        State {
            counter: id,
            auctions: self.auctions.insert(
                id,
                AuctionView::opened(id, seller, item_name, description, min_bid, end_time),
            ),
            ..self
        }
    }

    /// Why a bid is refused, if it is: the caller must be the bidder, the
    /// auction must be stored, and the record must take the bid.
    pub open spec fn bid_refusal(
        self,
        caller: Seq<char>,
        now: nat,
        auction_id: nat,
        bidder: Seq<char>,
        amount: int,
    ) -> Option<AuctionError> {
        if caller != bidder {
            Some(AuctionError::Unauthorized)
        } else if !self.auctions.contains_key(auction_id) {
            Some(AuctionError::NotFound)
        } else {
            self.auctions[auction_id].bid_refusal(now, amount)
        }
    }

    /// The state after an accepted bid: the record holds the bid and the
    /// bidder, and so does the ledger.
    pub open spec fn with_bid(self, auction_id: nat, bidder: Seq<char>, amount: int) -> State {
        State {
            auctions: self.auctions.insert(
                auction_id,
                self.auctions[auction_id].with_bid(bidder, amount),
            ),
            user_bids: self.user_bids.insert((auction_id, bidder), amount),
            ..self
        }
    }

    /// Why closing an auction is refused, if it is: the auction must be
    /// stored, and the record must allow closing.
    pub open spec fn close_refusal(self, now: nat, auction_id: nat) -> Option<AuctionError> {
        if !self.auctions.contains_key(auction_id) {
            Some(AuctionError::NotFound)
        } else {
            self.auctions[auction_id].close_refusal(now)
        }
    }

    /// The state after an auction has been closed.
    pub open spec fn with_closed(self, auction_id: nat) -> State {
        State {
            auctions: self.auctions.insert(auction_id, self.auctions[auction_id].closed()),
            ..self
        }
    }

    /// Why reading an auction is refused, if it is: the auction must be
    /// stored.
    pub open spec fn get_refusal(self, auction_id: nat) -> Option<AuctionError> {
        if !self.auctions.contains_key(auction_id) {
            Some(AuctionError::NotFound)
        } else {
            None
        }
    }

    /// Why a call is refused, if it is.
    pub open spec fn refusal(self, call: Call) -> Option<AuctionError> {
        match call {
            Call::Initialize => None,
            Call::CreateAuction { caller, seller, .. } => State::create_refusal(caller, seller),
            Call::PlaceBid { caller, now, auction_id, bidder, amount } => self.bid_refusal(
                caller,
                now,
                auction_id,
                bidder,
                amount,
            ),
            Call::EndAuction { now, auction_id } => self.close_refusal(now, auction_id),
        }
    }

    /// Whether a call is accepted.
    pub open spec fn accepts(self, call: Call) -> bool {
        self.refusal(call) is None
    }

    /// The state after a call: what the operation makes of the state where
    /// the call is accepted, and the state as it was where it is refused.
    pub open spec fn after(self, call: Call) -> State {
        if !self.accepts(call) {
            self
        } else {
            match call {
                Call::Initialize => self.initialized(),
                Call::CreateAuction {
                    caller,
                    now,
                    seller,
                    item_name,
                    description,
                    min_bid,
                    duration,
                } => self.with_auction(seller, item_name, description, min_bid, now + duration),
                Call::PlaceBid { caller, now, auction_id, bidder, amount } => self.with_bid(
                    auction_id,
                    bidder,
                    amount,
                ),
                Call::EndAuction { now, auction_id } => self.with_closed(auction_id),
            }
        }
    }

    /// The state after each of the calls, in their order.
    pub open spec fn after_all(self, calls: Seq<Call>) -> State
        decreases calls.len(),
    {
        if calls.len() == 0 {
            self
        } else {
            self.after_all(calls.drop_last()).after(calls.last())
        }
    }

    /// Whether none of the calls, made in their order from this state,
    /// opens an auction under the given id.
    pub open spec fn keeps_id(self, calls: Seq<Call>, auction_id: nat) -> bool {
        forall|i: int|
            0 <= i < calls.len() && is_creation(#[trigger] calls[i]) ==> self.after_all(
                calls.take(i),
            ).next_id() != auction_id
    }
}

/// One call of an operation that changes the registry, with all that it
/// is handed: the caller and the time, which the host supplies, and the
/// arguments.
pub enum Call {
    /// Set the counter to zero.
    Initialize,
    /// Open an auction for `seller` at time `now`, to end `duration` later.
    CreateAuction {
        caller: Seq<char>,
        now: nat,
        seller: Seq<char>,
        item_name: Seq<char>,
        description: Seq<char>,
        min_bid: int,
        duration: nat,
    },
    /// Place a bid of `amount` by `bidder` on an auction at time `now`.
    PlaceBid { caller: Seq<char>, now: nat, auction_id: nat, bidder: Seq<char>, amount: int },
    /// Close an auction at time `now`.
    EndAuction { now: nat, auction_id: nat },
}

/// Whether none of the calls sets the counter back to zero.
pub open spec fn no_reset(calls: Seq<Call>) -> bool {
    forall|i: int| 0 <= i < calls.len() ==> !((#[trigger] calls[i]) is Initialize)
}

/// Whether a call opens an auction and is made by the seller, so that it is
/// accepted in every state.
pub open spec fn is_creation(call: Call) -> bool {
    call matches Call::CreateAuction { caller, seller, .. } && caller == seller
}

/// The number of accepted calls among `calls` that open an auction.
pub open spec fn creations(calls: Seq<Call>) -> nat
    decreases calls.len(),
{
    if calls.len() == 0 {
        0
    } else if is_creation(calls.last()) {
        creations(calls.drop_last()) + 1
    } else {
        creations(calls.drop_last())
    }
}

} // verus!
