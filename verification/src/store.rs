//! What the registry keeps: the auction store and the bid ledger.
//!
//! The store maps an id to the record of an auction. A record can be put
//! and read, and is never taken away. The ledger holds, for each auction
//! and bidder, the amount of that bidder's last accepted bid on that
//! auction; it is kept for the record only, and no rule of the registry
//! reads it. Neither of the two tests what it is given: the rules are the
//! registry's.

use std::collections::HashMap;
use vstd::prelude::*;

use crate::address::Address;
use crate::auction::{Auction, AuctionView};
use crate::error::AuctionError;

verus! {

broadcast use vstd::std_specs::hash::group_hash_axioms;

/// The auction records, by id.
pub(crate) struct AuctionStore {
    records: HashMap<u64, Auction>,
}

impl View for AuctionStore {
    type V = Map<nat, AuctionView>;

    closed spec fn view(&self) -> Map<nat, AuctionView> {
        Map::new(
            |id: nat| id <= u64::MAX && self.records@.contains_key(id as u64),
            |id: nat| self.records@[id as u64]@,
        )
    }
}

impl AuctionStore {
    /// The store without a record.
    pub(crate) fn new() -> (store: AuctionStore)
        ensures
            store@ == Map::<nat, AuctionView>::empty(),
    {
        let store = AuctionStore { records: HashMap::new() };
        assert(store@ =~= Map::<nat, AuctionView>::empty());
        store
    }

    /// Stores a record under an id, in place of the record that was stored
    /// there, if there was one.
    pub(crate) fn put(&mut self, id: u64, record: Auction)
        ensures
            final(self)@ == old(self)@.insert(id as nat, record@),
    {
        self.records.insert(id, record);
        assert(self@ =~= old(self)@.insert(id as nat, record@));
    }

    /// A copy of the record stored under an id, or `NotFound` if there is
    /// none.
    pub(crate) fn get(&self, id: u64) -> (result: Result<Auction, AuctionError>)
        ensures
            match result {
                Ok(record) => self@.contains_key(id as nat) && record@ == self@[id as nat],
                Err(e) => e == AuctionError::NotFound && !self@.contains_key(id as nat),
            },
    {
        match self.records.get(&id) {
            Some(record) => Ok(record.clone()),
            None => Err(AuctionError::NotFound),
        }
    }

    /// Whether a record is stored under an id.
    pub(crate) fn has(&self, id: u64) -> (present: bool)
        ensures
            present == self@.contains_key(id as nat),
    {
        self.records.contains_key(&id)
    }
}

/// One line of the ledger.
pub(crate) struct UserBid {
    pub auction_id: u64,
    pub bidder: Address,
    pub amount: i128,
}

impl UserBid {
    /// The auction and the bidder that the line is about.
    pub(crate) open spec fn key(self) -> (nat, Seq<char>) {
        (self.auction_id as nat, self.bidder@)
    }
}

/// Whether line `at` is the first line about `key`.
pub(crate) open spec fn first_line(lines: Seq<UserBid>, key: (nat, Seq<char>), at: int) -> bool {
    &&& 0 <= at < lines.len()
    &&& lines[at].key() == key
    &&& forall|j: int| 0 <= j < at ==> (#[trigger] lines[j]).key() != key
}

/// The amount on the first line about `key`, if there is such a line.
pub(crate) open spec fn amount_of(lines: Seq<UserBid>, key: (nat, Seq<char>)) -> Option<int>
    decreases lines.len(),
{
    if lines.len() == 0 {
        None
    } else {
        match amount_of(lines.drop_last(), key) {
            Some(amount) => Some(amount),
            None => if lines.last().key() == key {
                Some(lines.last().amount as int)
            } else {
                None
            },
        }
    }
}

/// `amount_of` finds the first line about a key, and finds nothing only
/// where no line is about it.
pub(crate) proof fn lemma_amount_of(lines: Seq<UserBid>, key: (nat, Seq<char>))
    ensures
        match amount_of(lines, key) {
            Some(amount) => exists|at: int| #[trigger]
                first_line(lines, key, at) && lines[at].amount == amount,
            None => forall|j: int| 0 <= j < lines.len() ==> (#[trigger] lines[j]).key() != key,
        },
    decreases lines.len(),
{
    if lines.len() > 0 {
        let front = lines.drop_last();
        lemma_amount_of(front, key);
        match amount_of(front, key) {
            Some(amount) => {
                let at = choose|at: int| #[trigger]
                    first_line(front, key, at) && front[at].amount == amount;
                assert(first_line(lines, key, at)) by {
                    assert forall|j: int| 0 <= j < at implies (#[trigger] lines[j]).key()
                        != key by {
                        assert(lines[j] == front[j]);
                    }
                }
                assert(lines[at] == front[at]);
            },
            None => {
                assert forall|j: int| 0 <= j < lines.len() - 1 implies (#[trigger] lines[j]).key()
                    != key by {
                    assert(lines[j] == front[j]);
                }
                if lines.last().key() == key {
                    assert(first_line(lines, key, lines.len() - 1));
                }
            },
        }
    }
}

/// The first line about a key decides what `amount_of` finds.
pub(crate) proof fn lemma_first_line(lines: Seq<UserBid>, key: (nat, Seq<char>), at: int)
    requires
        first_line(lines, key, at),
    ensures
        amount_of(lines, key) == Some(lines[at].amount as int),
{
    lemma_amount_of(lines, key);
    match amount_of(lines, key) {
        Some(amount) => {
            let other = choose|other: int| #[trigger]
                first_line(lines, key, other) && lines[other].amount == amount;
            assert(other == at) by {
                if other < at {
                    assert(lines[other].key() != key);
                }
                if at < other {
                    assert(lines[at].key() != key);
                }
            }
        },
        None => {
            assert(lines[at].key() != key);
        },
    }
}

/// Where no line is about a key, `amount_of` finds nothing.
pub(crate) proof fn lemma_no_line(lines: Seq<UserBid>, key: (nat, Seq<char>))
    requires
        forall|j: int| 0 <= j < lines.len() ==> (#[trigger] lines[j]).key() != key,
    ensures
        amount_of(lines, key) is None,
{
    lemma_amount_of(lines, key);
    if let Some(amount) = amount_of(lines, key) {
        let at = choose|at: int| #[trigger]
            first_line(lines, key, at) && lines[at].amount == amount;
        assert(lines[at].key() != key);
    }
}

/// Two ledgers whose lines are about the same keys, line by line, and
/// agree on the amounts of the lines about `key`, hold the same for `key`.
pub(crate) proof fn lemma_same_lines(
    before: Seq<UserBid>,
    after: Seq<UserBid>,
    key: (nat, Seq<char>),
)
    requires
        before.len() == after.len(),
        forall|j: int| 0 <= j < before.len() ==> (#[trigger] before[j]).key() == after[j].key(),
        forall|j: int|
            0 <= j < before.len() && (#[trigger] before[j]).key() == key ==> before[j].amount
                == after[j].amount,
    ensures
        amount_of(after, key) == amount_of(before, key),
{
    lemma_amount_of(before, key);
    match amount_of(before, key) {
        Some(amount) => {
            let at = choose|at: int| #[trigger]
                first_line(before, key, at) && before[at].amount == amount;
            assert(first_line(after, key, at)) by {
                assert(before[at].key() == after[at].key());
                assert forall|j: int| 0 <= j < at implies (#[trigger] after[j]).key() != key by {
                    assert(before[j].key() == after[j].key());
                }
            }
            lemma_first_line(after, key, at);
        },
        None => {
            assert forall|j: int| 0 <= j < after.len() implies (#[trigger] after[j]).key()
                != key by {
                assert(before[j].key() == after[j].key());
            }
            lemma_no_line(after, key);
        },
    }
}

/// For each auction and bidder, the amount of the bidder's last accepted bid.
pub(crate) struct BidLedger {
    lines: Vec<UserBid>,
}

impl View for BidLedger {
    type V = Map<(nat, Seq<char>), int>;

    closed spec fn view(&self) -> Map<(nat, Seq<char>), int> {
        Map::new(
            |key: (nat, Seq<char>)| amount_of(self.lines@, key) is Some,
            |key: (nat, Seq<char>)| amount_of(self.lines@, key).unwrap(),
        )
    }
}

impl BidLedger {
    /// The ledger without a line.
    pub(crate) fn new() -> (ledger: BidLedger)
        ensures
            ledger@ == Map::<(nat, Seq<char>), int>::empty(),
    {
        let ledger = BidLedger { lines: Vec::new() };
        assert(ledger@ =~= Map::<(nat, Seq<char>), int>::empty());
        ledger
    }

    /// The index of the first line about the given auction and bidder.
    fn find(&self, auction_id: u64, bidder: &Address) -> (found: Option<usize>)
        ensures
            match found {
                Some(at) => first_line(self.lines@, (auction_id as nat, bidder@), at as int),
                None => forall|j: int|
                    0 <= j < self.lines@.len() ==> (#[trigger] self.lines@[j]).key() != (
                        auction_id as nat,
                        bidder@,
                    ),
            },
    {
        let mut i: usize = 0;
        while i < self.lines.len()
            invariant
                i <= self.lines@.len(),
                forall|j: int|
                    0 <= j < i ==> (#[trigger] self.lines@[j]).key() != (
                        auction_id as nat,
                        bidder@,
                    ),
            decreases self.lines@.len() - i,
        {
            let line = &self.lines[i];
            if line.auction_id == auction_id && line.bidder == *bidder {
                return Some(i);
            }
            i += 1;
        }
        None
    }

    /// Writes down that `bidder` has bid `amount` on the auction, in place
    /// of what the ledger held for the two before.
    pub(crate) fn record(&mut self, auction_id: u64, bidder: Address, amount: i128)
        ensures
            final(self)@ == old(self)@.insert((auction_id as nat, bidder@), amount as int),
    {
        let ghost key = (auction_id as nat, bidder@);
        let ghost before = self.lines@;
        match self.find(auction_id, &bidder) {
            Some(at) => {
                self.lines.set(at, UserBid { auction_id, bidder, amount });
                proof {
                    let after = self.lines@;
                    assert(first_line(after, key, at as int)) by {
                        assert forall|j: int| 0 <= j < at implies (#[trigger] after[j]).key()
                            != key by {
                            assert(after[j] == before[j]);
                        }
                    }
                    lemma_first_line(after, key, at as int);
                    assert forall|other: (nat, Seq<char>)| other != key implies amount_of(
                        after,
                        other,
                    ) == amount_of(before, other) by {
                        lemma_same_lines(before, after, other);
                    }
                }
            },
            None => {
                self.lines.push(UserBid { auction_id, bidder, amount });
                proof {
                    let after = self.lines@;
                    assert(after.drop_last() =~= before);
                    lemma_no_line(before, key);
                }
            },
        }
        assert(self@ =~= old(self)@.insert(key, amount as int));
    }

    /// Whether the ledger has a line about the auction and the bidder.
    pub(crate) fn has(&self, auction_id: u64, bidder: &Address) -> (present: bool)
        ensures
            present == self@.contains_key((auction_id as nat, bidder@)),
    {
        self.get(auction_id, bidder).is_some()
    }

    /// The amount that the ledger holds for the auction and the bidder.
    pub(crate) fn get(&self, auction_id: u64, bidder: &Address) -> (amount: Option<i128>)
        ensures
            match amount {
                Some(a) => self@.contains_key((auction_id as nat, bidder@)) && self@[(
                    auction_id as nat,
                    bidder@,
                )] == a,
                None => !self@.contains_key((auction_id as nat, bidder@)),
            },
    {
        match self.find(auction_id, bidder) {
            Some(at) => {
                proof {
                    lemma_first_line(self.lines@, (auction_id as nat, bidder@), at as int);
                }
                Some(self.lines[at].amount)
            },
            None => {
                proof {
                    lemma_no_line(self.lines@, (auction_id as nat, bidder@));
                }
                None
            },
        }
    }
}

} // verus!
