use auction_contract::{Address, AuctionContract, AuctionError, Symbol};

const START: u64 = 0;

fn symbol(text: &str) -> Symbol {
    Symbol::new(text).unwrap()
}

fn ok<T>(result: Result<T, AuctionError>) -> T {
    match result {
        Ok(value) => value,
        Err(error) => panic!("{}", error.message()),
    }
}

fn create_auction_contract() -> AuctionContract {
    let mut contract = AuctionContract::new();
    contract.initialize();
    contract
}

fn create_laptop_auction(
    contract: &mut AuctionContract,
    seller: &Address,
    min_bid: i128,
    duration: u64,
) -> u64 {
    let item_name = symbol("Laptop");
    let description = symbol("GamingPC");
    ok(contract.create_auction(
        seller,
        START,
        seller.clone(),
        item_name,
        description,
        min_bid,
        duration,
    ))
}

#[test]
fn test_initialize() {
    let mut contract = AuctionContract::new();

    contract.initialize();

    let count = contract.get_auction_count();
    assert_eq!(count, 0);
}

#[test]
fn test_create_auction() {
    let mut contract = create_auction_contract();

    let seller = Address::new("seller");
    let item_name = symbol("Laptop");
    let description = symbol("GamingPC");
    let min_bid: i128 = 1000;
    let duration: u64 = 86400; // 1 day

    let auction_id = ok(contract.create_auction(
        &seller,
        START,
        seller.clone(),
        item_name,
        description,
        min_bid,
        duration,
    ));

    assert_eq!(auction_id, 1);

    let count = contract.get_auction_count();
    assert_eq!(count, 1);
}

#[test]
fn test_get_auction() {
    let mut contract = create_auction_contract();

    let seller = Address::new("seller");
    let item_name = symbol("Laptop");
    let description = symbol("GamingPC");
    let min_bid: i128 = 1000;
    let duration: u64 = 86400;

    let auction_id = ok(contract.create_auction(
        &seller,
        START,
        seller.clone(),
        item_name.clone(),
        description.clone(),
        min_bid,
        duration,
    ));

    let auction = ok(contract.get_auction(auction_id));

    assert_eq!(auction.id, auction_id);
    assert_eq!(auction.seller, seller);
    assert_eq!(auction.item_name, item_name);
    assert_eq!(auction.description, description);
    assert_eq!(auction.min_bid, min_bid);
    assert_eq!(auction.highest_bid, 0);
    assert_eq!(auction.highest_bidder, None);
    assert_eq!(auction.active, true);
    assert_eq!(auction.end_time, START + duration);
}

#[test]
fn test_place_bid() {
    let mut contract = create_auction_contract();

    let seller = Address::new("seller");
    let bidder = Address::new("bidder");
    let min_bid: i128 = 1000;
    let duration: u64 = 86400;

    let auction_id = create_laptop_auction(&mut contract, &seller, min_bid, duration);

    let bid_amount: i128 = 1500;
    ok(contract.place_bid(&bidder, START, auction_id, bidder.clone(), bid_amount));

    let auction = ok(contract.get_auction(auction_id));
    assert_eq!(auction.highest_bid, bid_amount);
    assert_eq!(auction.highest_bidder, Some(bidder));
}

#[test]
fn test_multiple_bids() {
    let mut contract = create_auction_contract();

    let seller = Address::new("seller");
    let bidder1 = Address::new("bidder1");
    let bidder2 = Address::new("bidder2");
    let bidder3 = Address::new("bidder3");

    let min_bid: i128 = 1000;
    let duration: u64 = 86400;

    let auction_id = create_laptop_auction(&mut contract, &seller, min_bid, duration);

    // First bid
    ok(contract.place_bid(&bidder1, START, auction_id, bidder1.clone(), 1500));
    let auction = ok(contract.get_auction(auction_id));
    assert_eq!(auction.highest_bid, 1500);
    assert_eq!(auction.highest_bidder, Some(bidder1.clone()));

    // Second bid (higher)
    ok(contract.place_bid(&bidder2, START, auction_id, bidder2.clone(), 2000));
    let auction = ok(contract.get_auction(auction_id));
    assert_eq!(auction.highest_bid, 2000);
    assert_eq!(auction.highest_bidder, Some(bidder2.clone()));

    // Third bid (even higher)
    ok(contract.place_bid(&bidder3, START, auction_id, bidder3.clone(), 2500));
    let auction = ok(contract.get_auction(auction_id));
    assert_eq!(auction.highest_bid, 2500);
    assert_eq!(auction.highest_bidder, Some(bidder3));
}

#[test]
#[should_panic(expected = "Bid too low")]
fn test_bid_too_low() {
    let mut contract = create_auction_contract();

    let seller = Address::new("seller");
    let bidder1 = Address::new("bidder1");
    let bidder2 = Address::new("bidder2");

    let min_bid: i128 = 1000;
    let duration: u64 = 86400;

    let auction_id = create_laptop_auction(&mut contract, &seller, min_bid, duration);

    // First bid
    ok(contract.place_bid(&bidder1, START, auction_id, bidder1.clone(), 1500));

    // A lower bid is refused
    ok(contract.place_bid(&bidder2, START, auction_id, bidder2.clone(), 1400));
}

#[test]
#[should_panic(expected = "Bid below minimum")]
fn test_bid_below_minimum() {
    let mut contract = create_auction_contract();

    let seller = Address::new("seller");
    let bidder = Address::new("bidder");

    let min_bid: i128 = 1000;
    let duration: u64 = 86400;

    let auction_id = create_laptop_auction(&mut contract, &seller, min_bid, duration);

    // A bid below the reserve is refused
    ok(contract.place_bid(&bidder, START, auction_id, bidder.clone(), 500));
}

#[test]
fn test_end_auction() {
    let mut contract = create_auction_contract();

    let seller = Address::new("seller");
    let bidder = Address::new("bidder");

    let min_bid: i128 = 1000;
    let duration: u64 = 86400;

    let auction_id = create_laptop_auction(&mut contract, &seller, min_bid, duration);

    // Place a bid
    ok(contract.place_bid(&bidder, START, auction_id, bidder.clone(), 1500));

    // Time passes the end of the auction
    let now = START + duration + 1;

    // End the auction
    ok(contract.end_auction(now, auction_id));

    let auction = ok(contract.get_auction(auction_id));
    assert_eq!(auction.active, false);
}

#[test]
#[should_panic(expected = "Auction not yet ended")]
fn test_end_auction_too_early() {
    let mut contract = create_auction_contract();

    let seller = Address::new("seller");
    let min_bid: i128 = 1000;
    let duration: u64 = 86400;

    let auction_id = create_laptop_auction(&mut contract, &seller, min_bid, duration);

    // Ending the auction before time is up is refused
    ok(contract.end_auction(START, auction_id));
}

#[test]
#[should_panic(expected = "Auction has ended")]
fn test_bid_on_ended_auction_by_time() {
    let mut contract = create_auction_contract();

    let seller = Address::new("seller");
    let bidder = Address::new("bidder");

    let min_bid: i128 = 1000;
    let duration: u64 = 86400;

    let auction_id = create_laptop_auction(&mut contract, &seller, min_bid, duration);

    // Time passes the end of the auction
    let now = START + duration + 1;

    // A bid after the time expired is refused
    ok(contract.place_bid(&bidder, now, auction_id, bidder.clone(), 1500));
}

#[test]
#[should_panic(expected = "Auction is not active")]
fn test_bid_on_ended_auction() {
    let mut contract = create_auction_contract();

    let seller = Address::new("seller");
    let bidder = Address::new("bidder");

    let min_bid: i128 = 1000;
    let duration: u64 = 86400;

    let auction_id = create_laptop_auction(&mut contract, &seller, min_bid, duration);

    // Time passes and the auction is ended
    let now = START + duration + 1;
    ok(contract.end_auction(now, auction_id));

    // A bid on the ended auction is refused
    ok(contract.place_bid(&bidder, now, auction_id, bidder.clone(), 1500));
}

#[test]
fn test_multiple_auctions() {
    let mut contract = create_auction_contract();

    let seller1 = Address::new("seller1");
    let seller2 = Address::new("seller2");
    let seller3 = Address::new("seller3");

    // Create first auction
    let auction_id1 = ok(contract.create_auction(
        &seller1,
        START,
        seller1.clone(),
        symbol("Laptop"),
        symbol("Gaming"),
        1000,
        86400,
    ));

    // Create second auction
    let auction_id2 = ok(contract.create_auction(
        &seller2,
        START,
        seller2.clone(),
        symbol("Phone"),
        symbol("iPhone"),
        500,
        86400,
    ));

    // Create third auction
    let auction_id3 = ok(contract.create_auction(
        &seller3,
        START,
        seller3.clone(),
        symbol("Watch"),
        symbol("Rolex"),
        2000,
        86400,
    ));

    assert_eq!(auction_id1, 1);
    assert_eq!(auction_id2, 2);
    assert_eq!(auction_id3, 3);

    let count = contract.get_auction_count();
    assert_eq!(count, 3);

    // Verify each auction
    let auction1 = ok(contract.get_auction(auction_id1));
    assert_eq!(auction1.seller, seller1);
    assert_eq!(auction1.min_bid, 1000);

    let auction2 = ok(contract.get_auction(auction_id2));
    assert_eq!(auction2.seller, seller2);
    assert_eq!(auction2.min_bid, 500);

    let auction3 = ok(contract.get_auction(auction_id3));
    assert_eq!(auction3.seller, seller3);
    assert_eq!(auction3.min_bid, 2000);
}

#[test]
#[should_panic(expected = "Auction not found")]
fn test_get_nonexistent_auction() {
    let contract = create_auction_contract();

    // No auction is stored under this id
    ok(contract.get_auction(999));
}

#[test]
#[should_panic(expected = "Auction already ended")]
fn test_end_auction_twice() {
    let mut contract = create_auction_contract();

    let seller = Address::new("seller");
    let min_bid: i128 = 1000;
    let duration: u64 = 86400;

    let auction_id = create_laptop_auction(&mut contract, &seller, min_bid, duration);

    // Time passes the end of the auction
    let now = START + duration + 1;

    // End the auction once
    ok(contract.end_auction(now, auction_id));

    // Ending it again is refused
    ok(contract.end_auction(now, auction_id));
}

#[test]
fn test_auction_with_no_bids() {
    let mut contract = create_auction_contract();

    let seller = Address::new("seller");
    let min_bid: i128 = 1000;
    let duration: u64 = 86400;

    let auction_id = create_laptop_auction(&mut contract, &seller, min_bid, duration);

    // Time passes the end of the auction
    let now = START + duration + 1;

    // End the auction with no bids
    ok(contract.end_auction(now, auction_id));

    let auction = ok(contract.get_auction(auction_id));
    assert_eq!(auction.highest_bid, 0);
    assert_eq!(auction.highest_bidder, None);
    assert_eq!(auction.active, false);
}

#[test]
fn test_same_bidder_increases_bid() {
    let mut contract = create_auction_contract();

    let seller = Address::new("seller");
    let bidder = Address::new("bidder");

    let min_bid: i128 = 1000;
    let duration: u64 = 86400;

    let auction_id = create_laptop_auction(&mut contract, &seller, min_bid, duration);

    // First bid
    ok(contract.place_bid(&bidder, START, auction_id, bidder.clone(), 1500));

    // Same bidder increases bid
    ok(contract.place_bid(&bidder, START, auction_id, bidder.clone(), 2000));

    let auction = ok(contract.get_auction(auction_id));
    assert_eq!(auction.highest_bid, 2000);
    assert_eq!(auction.highest_bidder, Some(bidder));
}
