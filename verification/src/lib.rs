//! An auction registry: a deterministic state machine that opens auctions,
//! accepts strictly increasing bids while the deadline has not passed, and
//! closes an auction once its deadline is reached.
//!
//! The registry owns its whole state: a counter, the auction records and a
//! ledger of bids. The reading of the clock and the identity of the caller
//! are handed to each operation as plain values by whoever hosts the
//! registry; the registry itself reads no clock and checks no signature.
//!
//! - `auction` holds the record of one auction and the steps of its life;
//! - `contract` holds the registry and its operations, and `store` what
//!   the registry keeps its records in;
//! - `state` says what the registry holds and what each operation makes
//!   of it, as mathematical values;
//! - `laws` proves what holds of the registry over one operation and over
//!   several;
//! - `address`, `symbol` and `error` hold the values that the others use.

pub mod address;
pub mod auction;
pub mod contract;
pub mod error;
pub mod laws;
pub mod state;
mod store;
pub mod symbol;

pub use address::Address;
pub use auction::{Auction, AuctionView};
pub use contract::AuctionContract;
pub use error::AuctionError;
pub use state::{Call, DataKey, State};
pub use symbol::Symbol;
