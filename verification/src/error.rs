//! The ways in which an operation of the registry can fail.

use vstd::prelude::*;

verus! {

/// Why an operation was refused. A refused operation changes nothing.
#[derive(Debug, Clone, Copy, PartialEq, Eq, Structural)]
pub enum AuctionError {
    /// The caller is not the principal that the operation acts for.
    Unauthorized,
    /// No auction is stored under the given id.
    NotFound,
    /// A bid was placed on an auction that has been closed.
    AuctionInactive,
    /// An auction that has been closed was closed again.
    AlreadyClosed,
    /// A bid was placed at or after the deadline.
    AuctionExpired,
    /// An auction was closed before its deadline.
    TooEarly,
    /// A bid was not strictly greater than the current highest bid.
    BidTooLow,
    /// A bid was below the reserve of the auction.
    BelowReserve,
}

impl AuctionError {
    /// The text that describes each error.
    pub open spec fn text(self) -> Seq<char> {
        match self {
            AuctionError::Unauthorized => "Unauthorized"@,
            AuctionError::NotFound => "Auction not found"@,
            AuctionError::AuctionInactive => "Auction is not active"@,
            AuctionError::AlreadyClosed => "Auction already ended"@,
            AuctionError::AuctionExpired => "Auction has ended"@,
            AuctionError::TooEarly => "Auction not yet ended"@,
            AuctionError::BidTooLow => "Bid too low"@,
            AuctionError::BelowReserve => "Bid below minimum"@,
        }
    }

    /// A short description of the error, fit for a log line or a panic.
    pub fn message(&self) -> (message: &'static str)
        ensures
            message@ == self.text(),
    {
        match self {
            AuctionError::Unauthorized => "Unauthorized",
            AuctionError::NotFound => "Auction not found",
            AuctionError::AuctionInactive => "Auction is not active",
            AuctionError::AlreadyClosed => "Auction already ended",
            AuctionError::AuctionExpired => "Auction has ended",
            AuctionError::TooEarly => "Auction not yet ended",
            AuctionError::BidTooLow => "Bid too low",
            AuctionError::BelowReserve => "Bid below minimum",
        }
    }
}

} // verus!
