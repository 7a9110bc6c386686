//! What holds of the registry over one call and over several.
//!
//! Each law is stated over the state model and proved from it. The
//! operations of `AuctionContract` are proved to follow the same model, so
//! the laws hold of them.

use vstd::prelude::*;

use crate::auction::AuctionView;
use crate::error::AuctionError;
use crate::state::{creations, is_creation, no_reset, Call, State};

verus! {

/// The empty state is well formed, and its ids are dense.
pub proof fn law_empty_is_well_formed()
    ensures
        State::empty().well_formed(),
        State::empty().dense(),
{
}

/// Every call keeps a state well formed, and every call but one that
/// resets the counter keeps the ids dense.
pub proof fn law_call_keeps_well_formed(state: State, call: Call)
    ensures
        state.well_formed() ==> state.after(call).well_formed(),
        state.dense() && !(call is Initialize) ==> state.after(call).dense(),
{
}

/// As long as the counter is not reset, the ids stay dense.
pub proof fn law_ids_stay_dense(start: State, calls: Seq<Call>)
    requires
        start.dense(),
        no_reset(calls),
    ensures
        start.after_all(calls).dense(),
    decreases calls.len(),
{
    if calls.len() > 0 {
        let front = calls.drop_last();
        assert forall|i: int| 0 <= i < front.len() implies !((#[trigger] front[i])
            is Initialize) by {
            assert(front[i] == calls[i]);
        }
        law_ids_stay_dense(start, front);
        assert(!(calls[calls.len() - 1] is Initialize));
        law_call_keeps_well_formed(start.after_all(front), calls.last());
    }
}

/// Every state that calls lead to from the empty state is well formed, and
/// its ids are dense if no call has reset the counter.
pub proof fn law_reachable_is_well_formed(calls: Seq<Call>)
    ensures
        State::empty().after_all(calls).well_formed(),
        no_reset(calls) ==> State::empty().after_all(calls).dense(),
    decreases calls.len(),
{
    if calls.len() > 0 {
        let front = calls.drop_last();
        law_reachable_is_well_formed(front);
        law_call_keeps_well_formed(State::empty().after_all(front), calls.last());
    }
    if no_reset(calls) {
        law_ids_stay_dense(State::empty(), calls);
    }
}

/// Resetting the counter while it is zero, as it is before any auction has
/// been opened, changes nothing.
pub proof fn law_initialize_before_any_auction(state: State)
    requires
        state.counter == 0,
    ensures
        state.after(Call::Initialize) == state,
{
    assert(state.initialized() =~= state);
}

/// A call leaves the counter as it was unless it opens an auction, which
/// gets the id that follows the counter, or resets the counter.
pub proof fn law_counter_steps_by_one(state: State, call: Call)
    requires
        !(call is Initialize),
    ensures
        state.after(call).counter == if is_creation(call) {
            state.next_id()
        } else {
            state.counter
        },
        call is CreateAuction ==> state.accepts(call) == is_creation(call),
{
}

/// As long as the counter is not reset, it grows by the number of auctions
/// opened, whatever other calls are made in between. An auction gets the
/// id that follows the number of auctions opened before it.
pub proof fn law_counter_counts_creations(start: State, calls: Seq<Call>)
    requires
        no_reset(calls),
    ensures
        start.after_all(calls).counter == start.counter + creations(calls),
        start.after_all(calls).next_id() == start.counter + creations(calls) + 1,
    decreases calls.len(),
{
    if calls.len() > 0 {
        let front = calls.drop_last();
        assert forall|i: int| 0 <= i < front.len() implies !((#[trigger] front[i])
            is Initialize) by {
            assert(front[i] == calls[i]);
        }
        law_counter_counts_creations(start, front);
        assert(!(calls[calls.len() - 1] is Initialize));
        law_counter_steps_by_one(start.after_all(front), calls.last());
    }
}

/// Auctions opened one after another get ids that count up one by one, in
/// the order of the calls, and the counter grows by their number. From a
/// counter of zero the ids are 1, 2, 3 and so on, and the counter is the
/// number of auctions opened.
///
/// No id is issued twice: when all the auctions have been opened, each is
/// still stored under the id it was given, as it was opened.
pub proof fn law_ids_count_up(start: State, calls: Seq<Call>)
    requires
        forall|i: int| 0 <= i < calls.len() ==> is_creation(#[trigger] calls[i]),
    ensures
        start.after_all(calls).counter == start.counter + calls.len(),
        forall|i: int|
            0 <= i < calls.len() ==> (#[trigger] start.after_all(calls.take(i))).next_id()
                == start.counter + i + 1,
        forall|i: int|
            0 <= i < calls.len() ==> {
                let id = (start.counter + i + 1) as nat;
                &&& start.after_all(calls).auctions.contains_key(id)
                &&& (#[trigger] calls[i]) matches Call::CreateAuction {
                    now,
                    seller,
                    item_name,
                    description,
                    min_bid,
                    duration,
                    ..
                }
                &&& start.after_all(calls).auctions[id] == AuctionView::opened(
                    id,
                    seller,
                    item_name,
                    description,
                    min_bid,
                    now + duration,
                )
            },
    decreases calls.len(),
{
    if calls.len() > 0 {
        let front = calls.drop_last();
        assert forall|i: int| 0 <= i < front.len() implies is_creation(#[trigger] front[i]) by {
            assert(front[i] == calls[i]);
        }
        law_ids_count_up(start, front);
        assert(is_creation(calls[calls.len() - 1]));
        assert forall|i: int| 0 <= i < calls.len() implies (#[trigger] start.after_all(
            calls.take(i),
        )).next_id() == start.counter + i + 1 by {
            if i < front.len() {
                assert(calls.take(i) =~= front.take(i));
            } else {
                assert(calls.take(i) =~= front);
            }
        }
        assert forall|i: int| 0 <= i < calls.len() implies {
            let id = (start.counter + i + 1) as nat;
            &&& start.after_all(calls).auctions.contains_key(id)
            &&& (#[trigger] calls[i]) matches Call::CreateAuction {
                now,
                seller,
                item_name,
                description,
                min_bid,
                duration,
                ..
            }
            &&& start.after_all(calls).auctions[id] == AuctionView::opened(
                id,
                seller,
                item_name,
                description,
                min_bid,
                now + duration,
            )
        } by {
            if i < front.len() {
                assert(calls[i] == front[i]);
            }
        }
    } else {
        assert forall|i: int| 0 <= i < calls.len() implies (#[trigger] start.after_all(
            calls.take(i),
        )).next_id() == start.counter + i + 1 by {}
    }
}

/// While the ids are dense, the ids that were never issued are zero and
/// those above the counter. Reading, bidding on and closing an auction
/// under such an id is refused as `NotFound`, and under no other id.
pub proof fn law_unknown_id_is_not_found(state: State, auction_id: nat)
    requires
        state.dense(),
    ensures
        state.get_refusal(auction_id) == if 1 <= auction_id <= state.counter {
            None
        } else {
            Some(AuctionError::NotFound)
        },
        forall|now: nat|
            (#[trigger] state.close_refusal(now, auction_id) == Some(AuctionError::NotFound))
                <==> !(1 <= auction_id <= state.counter),
        forall|caller: Seq<char>, now: nat, amount: int|
            (#[trigger] state.bid_refusal(caller, now, auction_id, caller, amount) == Some(
                AuctionError::NotFound,
            )) <==> !(1 <= auction_id <= state.counter),
{
}

/// An auction that has just been opened is stored under the id it was
/// given, is active, and has no bid and no bidder. Closing it without a
/// bid leaves it without a bid and without a bidder.
pub proof fn law_no_bid_yet(
    state: State,
    seller: Seq<char>,
    item_name: Seq<char>,
    description: Seq<char>,
    min_bid: int,
    end_time: nat,
    now: nat,
)
    ensures
        ({
            let id = state.next_id();
            let opened = state.with_auction(seller, item_name, description, min_bid, end_time);
            &&& opened.get_refusal(id) is None
            &&& opened.auctions[id].active
            &&& opened.auctions[id].highest_bid == 0
            &&& opened.auctions[id].highest_bidder is None
            &&& opened.close_refusal(now, id) is None ==> {
                let closed = opened.with_closed(id);
                &&& closed.get_refusal(id) is None
                &&& !closed.auctions[id].active
                &&& closed.auctions[id].highest_bid == 0
                &&& closed.auctions[id].highest_bidder is None
            }
        }),
{
}

/// An accepted bid changes the highest bid and the highest bidder of its
/// auction and the ledger line of its bidder, and nothing else: the
/// counter, the other auctions, the other ledger lines and the other fields
/// of the record stay. The highest bid grows.
pub proof fn law_bid_changes_the_bid_only(
    state: State,
    caller: Seq<char>,
    now: nat,
    auction_id: nat,
    bidder: Seq<char>,
    amount: int,
)
    requires
        state.bid_refusal(caller, now, auction_id, bidder, amount) is None,
    ensures
        ({
            let before = state.auctions[auction_id];
            let next = state.with_bid(auction_id, bidder, amount);
            let after = next.auctions[auction_id];
            &&& next.counter == state.counter
            &&& next.auctions.dom() == state.auctions.dom()
            &&& forall|other: nat|
                other != auction_id && state.auctions.contains_key(other)
                    ==> #[trigger] next.auctions[other] == state.auctions[other]
            &&& forall|other: (nat, Seq<char>)|
                other != (auction_id, bidder) ==> {
                    &&& next.user_bids.contains_key(other) == state.user_bids.contains_key(other)
                    &&& #[trigger] next.user_bids[other] == state.user_bids[other]
                }
            &&& next.user_bids.contains_key((auction_id, bidder))
            &&& next.user_bids[(auction_id, bidder)] == amount
            &&& after.highest_bid == amount
            &&& after.highest_bidder == Some(bidder)
            &&& after.highest_bid > before.highest_bid
            &&& after.highest_bid >= before.min_bid
            &&& after.follows(before)
        }),
{
    let next = state.with_bid(auction_id, bidder, amount);
    assert(next.auctions.dom() =~= state.auctions.dom());
}

/// Closing changes the `active` flag of its auction and nothing else.
pub proof fn law_close_changes_the_flag_only(state: State, now: nat, auction_id: nat)
    requires
        state.close_refusal(now, auction_id) is None,
    ensures
        ({
            let before = state.auctions[auction_id];
            let next = state.with_closed(auction_id);
            let after = next.auctions[auction_id];
            &&& next.counter == state.counter
            &&& next.user_bids == state.user_bids
            &&& next.auctions.dom() == state.auctions.dom()
            &&& forall|other: nat|
                other != auction_id && state.auctions.contains_key(other)
                    ==> #[trigger] next.auctions[other] == state.auctions[other]
            &&& before.active
            &&& !after.active
            &&& after == AuctionView { active: false, ..before }
            &&& after.follows(before)
        }),
{
    let next = state.with_closed(auction_id);
    assert(next.auctions.dom() =~= state.auctions.dom());
}

/// While the ids are dense and the counter is not reset, no id is issued
/// twice: no call opens an auction under an id that is in use.
pub proof fn law_no_id_is_issued_twice(start: State, calls: Seq<Call>, auction_id: nat)
    requires
        start.dense(),
        no_reset(calls),
        start.auctions.contains_key(auction_id),
    ensures
        start.keeps_id(calls, auction_id),
{
    assert forall|i: int| 0 <= i < calls.len() && is_creation(#[trigger] calls[i]) implies
        start.after_all(calls.take(i)).next_id() != auction_id by {
        let front = calls.take(i);
        assert forall|j: int| 0 <= j < front.len() implies !((#[trigger] front[j])
            is Initialize) by {
            assert(front[j] == calls[j]);
        }
        law_counter_counts_creations(start, front);
    }
}

/// Whatever calls are made, as long as none of them opens a new auction
/// under its id, an auction stays stored and its record only moves on: what
/// was given when it was opened stays, the highest bid never falls, and
/// once closed it is never active again.
pub proof fn law_records_only_move_on(start: State, calls: Seq<Call>, auction_id: nat)
    requires
        start.auctions.contains_key(auction_id),
        start.keeps_id(calls, auction_id),
    ensures
        start.after_all(calls).auctions.contains_key(auction_id),
        start.after_all(calls).auctions[auction_id].follows(start.auctions[auction_id]),
    decreases calls.len(),
{
    if calls.len() > 0 {
        let front = calls.drop_last();
        assert forall|i: int| 0 <= i < front.len() && is_creation(#[trigger] front[i]) implies
            start.after_all(front.take(i)).next_id() != auction_id by {
            assert(front[i] == calls[i]);
            assert(front.take(i) =~= calls.take(i));
        }
        law_records_only_move_on(start, front, auction_id);
        assert(calls.take(calls.len() - 1) =~= front);
        assert(is_creation(calls[calls.len() - 1]) ==> start.after_all(front).next_id()
            != auction_id);
    }
}

/// Of two accepted bids on one auction, the later is strictly greater than
/// the earlier, whatever calls were made between the two, as long as none
/// of them opened a new auction under the same id.
///
/// A later bid that is not greater is refused; where it is placed by its
/// bidder, before the deadline and on an auction that is still active, it
/// is refused as `BidTooLow`.
pub proof fn law_later_bid_is_greater(
    start: State,
    auction_id: nat,
    earlier_caller: Seq<char>,
    earlier_now: nat,
    earlier_bidder: Seq<char>,
    earlier_amount: int,
    between: Seq<Call>,
    later_caller: Seq<char>,
    later_now: nat,
    later_bidder: Seq<char>,
    later_amount: int,
)
    requires
        start.bid_refusal(earlier_caller, earlier_now, auction_id, earlier_bidder, earlier_amount)
            is None,
        start.with_bid(auction_id, earlier_bidder, earlier_amount).keeps_id(between, auction_id),
    ensures
        ({
            let state = start.with_bid(auction_id, earlier_bidder, earlier_amount).after_all(
                between,
            );
            let refusal = state.bid_refusal(
                later_caller,
                later_now,
                auction_id,
                later_bidder,
                later_amount,
            );
            &&& state.auctions.contains_key(auction_id)
            &&& state.auctions[auction_id].highest_bid >= earlier_amount
            &&& refusal is None ==> later_amount > earlier_amount
            &&& later_amount <= earlier_amount && later_caller == later_bidder
                && state.auctions[auction_id].active && later_now
                < state.auctions[auction_id].end_time ==> refusal == Some(
                AuctionError::BidTooLow,
            )
        }),
{
    let next = start.with_bid(auction_id, earlier_bidder, earlier_amount);
    law_records_only_move_on(next, between, auction_id);
}

/// A bid below the reserve is never accepted. Where the caller is the
/// bidder, the auction is stored and active, the deadline has not passed
/// and the bid is greater than the highest bid, it is refused as
/// `BelowReserve`.
pub proof fn law_reserve_holds(
    state: State,
    caller: Seq<char>,
    now: nat,
    auction_id: nat,
    bidder: Seq<char>,
    amount: int,
)
    requires
        state.auctions.contains_key(auction_id),
        amount < state.auctions[auction_id].min_bid,
    ensures
        state.bid_refusal(caller, now, auction_id, bidder, amount) is Some,
        caller == bidder && state.auctions[auction_id].active && now
            < state.auctions[auction_id].end_time && amount
            > state.auctions[auction_id].highest_bid ==> state.bid_refusal(
            caller,
            now,
            auction_id,
            bidder,
            amount,
        ) == Some(AuctionError::BelowReserve),
{
}

/// At or after the deadline no bid is accepted, whether the auction has
/// been closed or not. On an auction that is still active such a bid, placed
/// by its bidder, is refused as `AuctionExpired`.
pub proof fn law_deadline_holds(
    state: State,
    caller: Seq<char>,
    now: nat,
    auction_id: nat,
    bidder: Seq<char>,
    amount: int,
)
    requires
        state.auctions.contains_key(auction_id),
        now >= state.auctions[auction_id].end_time,
    ensures
        state.bid_refusal(caller, now, auction_id, bidder, amount) is Some,
        caller == bidder && state.auctions[auction_id].active ==> state.bid_refusal(
            caller,
            now,
            auction_id,
            bidder,
            amount,
        ) == Some(AuctionError::AuctionExpired),
{
}

/// An auction is closed once: after it has been closed, closing it again
/// is refused as `AlreadyClosed`, at whatever time, and a bid placed by its
/// bidder is refused as `AuctionInactive`. This stays so whatever calls are
/// made afterwards, as long as none of them opens a new auction under the
/// same id.
pub proof fn law_closed_is_final(
    state: State,
    now: nat,
    auction_id: nat,
    between: Seq<Call>,
    later: nat,
    bidder: Seq<char>,
    amount: int,
)
    requires
        state.close_refusal(now, auction_id) is None,
        state.with_closed(auction_id).keeps_id(between, auction_id),
    ensures
        ({
            let closed = state.with_closed(auction_id).after_all(between);
            &&& closed.close_refusal(later, auction_id) == Some(AuctionError::AlreadyClosed)
            &&& closed.bid_refusal(bidder, later, auction_id, bidder, amount) == Some(
                AuctionError::AuctionInactive,
            )
        }),
{
    law_records_only_move_on(state.with_closed(auction_id), between, auction_id);
}

/// An active auction cannot be closed before its deadline, which is refused
/// as `TooEarly`, and can be closed at the deadline and at any time after
/// it.
pub proof fn law_close_waits_for_the_deadline(state: State, now: nat, auction_id: nat)
    requires
        state.auctions.contains_key(auction_id),
        state.auctions[auction_id].active,
    ensures
        now < state.auctions[auction_id].end_time ==> state.close_refusal(now, auction_id) == Some(
            AuctionError::TooEarly,
        ),
        now >= state.auctions[auction_id].end_time ==> state.close_refusal(now, auction_id)
            is None,
{
}

} // verus!
