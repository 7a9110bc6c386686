use auction_contract::symbol::MAX_SYMBOL_LEN;
use auction_contract::{Address, AuctionError, DataKey, Symbol};

#[test]
fn address_keeps_its_key() {
    let address = Address::new("GA7QYNF7SOWQ3GLR2BGMZEHXAVIRZA4KVWLTJJFC7MGXUA74P7UJVSGZ");
    assert_eq!(address.as_str(), "GA7QYNF7SOWQ3GLR2BGMZEHXAVIRZA4KVWLTJJFC7MGXUA74P7UJVSGZ");
    assert_eq!(Address::new("").as_str(), "");
}

#[test]
fn addresses_are_equal_by_key() {
    let alice = Address::new("alice");
    assert_eq!(alice, Address::new("alice"));
    assert_eq!(alice, alice.clone());
    assert_ne!(alice, Address::new("bob"));
    assert_ne!(alice, Address::new("alice "));
    assert_ne!(alice, Address::new("Alice"));
    assert_ne!(alice, Address::new(""));
}

#[test]
fn symbol_keeps_its_text() {
    assert_eq!(Symbol::new("Laptop").unwrap().as_str(), "Laptop");
    assert_eq!(Symbol::new("GamingPC").unwrap().as_str(), "GamingPC");
    assert_eq!(Symbol::new("a_B_9").unwrap().as_str(), "a_B_9");
    assert_eq!(Symbol::new("").unwrap().as_str(), "");
    assert_eq!(
        Symbol::new("abcdefghijklmnopqrstuvwxyz").unwrap().as_str(),
        "abcdefghijklmnopqrstuvwxyz"
    );
    assert_eq!(
        Symbol::new("ABCDEFGHIJKLMNOPQRSTUVWXYZ").unwrap().as_str(),
        "ABCDEFGHIJKLMNOPQRSTUVWXYZ"
    );
    assert_eq!(Symbol::new("_0123456789_").unwrap().as_str(), "_0123456789_");
}

#[test]
fn symbol_is_bounded() {
    assert_eq!(MAX_SYMBOL_LEN, 32);
    let longest = "abcdefghijklmnopqrstuvwxyz012345";
    assert_eq!(longest.len(), 32);
    assert_eq!(Symbol::new(longest).unwrap().as_str(), longest);
    let too_long = "abcdefghijklmnopqrstuvwxyz0123456";
    assert_eq!(too_long.len(), 33);
    assert!(Symbol::new(too_long).is_none());
}

#[test]
fn symbol_refuses_other_characters() {
    for text in [
        "a-b", "a b", " ", "Gaming PC", "caf\u{e9}", "a.b", "a/b", "@", "[", "`", "{", ":", "\n",
        "\u{0}", "a\u{ff3f}",
    ] {
        assert!(Symbol::new(text).is_none(), "{:?}", text);
    }
    // The characters next to the accepted ranges, each on its own.
    for text in ["/", ":", "@", "[", "^", "`", "{"] {
        assert!(Symbol::new(text).is_none(), "{:?}", text);
    }
    for text in ["0", "9", "A", "Z", "_", "a", "z"] {
        assert!(Symbol::new(text).is_some(), "{:?}", text);
    }
}

#[test]
fn symbol_counts_characters_not_bytes() {
    // Thirty-two characters of two bytes each: short enough, but not symbol characters.
    let text = "\u{e9}".repeat(32);
    assert!(Symbol::new(&text).is_none());
}

#[test]
fn symbols_are_equal_by_text() {
    let laptop = Symbol::new("Laptop").unwrap();
    assert_eq!(laptop, Symbol::new("Laptop").unwrap());
    assert_eq!(laptop, laptop.clone());
    assert_ne!(laptop, Symbol::new("laptop").unwrap());
    assert_ne!(laptop, Symbol::new("Laptop_").unwrap());
}

#[test]
fn each_error_has_its_message() {
    assert_eq!(AuctionError::Unauthorized.message(), "Unauthorized");
    assert_eq!(AuctionError::NotFound.message(), "Auction not found");
    assert_eq!(AuctionError::AuctionInactive.message(), "Auction is not active");
    assert_eq!(AuctionError::AlreadyClosed.message(), "Auction already ended");
    assert_eq!(AuctionError::AuctionExpired.message(), "Auction has ended");
    assert_eq!(AuctionError::TooEarly.message(), "Auction not yet ended");
    assert_eq!(AuctionError::BidTooLow.message(), "Bid too low");
    assert_eq!(AuctionError::BelowReserve.message(), "Bid below minimum");
}

#[test]
fn errors_are_told_apart() {
    let all = [
        AuctionError::Unauthorized,
        AuctionError::NotFound,
        AuctionError::AuctionInactive,
        AuctionError::AlreadyClosed,
        AuctionError::AuctionExpired,
        AuctionError::TooEarly,
        AuctionError::BidTooLow,
        AuctionError::BelowReserve,
    ];
    for (i, a) in all.iter().enumerate() {
        for (j, b) in all.iter().enumerate() {
            assert_eq!(a == b, i == j);
            assert_eq!(a.message() == b.message(), i == j);
        }
    }
}

#[test]
fn data_key_clone_keeps_the_key() {
    let bidder = Address::new("bidder");
    match DataKey::AuctionCounter.clone() {
        DataKey::AuctionCounter => {}
        other => panic!("{:?}", other),
    }
    match DataKey::Auction(5).clone() {
        DataKey::Auction(id) => assert_eq!(id, 5),
        other => panic!("{:?}", other),
    }
    match DataKey::UserBid(6, bidder.clone()).clone() {
        DataKey::UserBid(id, who) => {
            assert_eq!(id, 6);
            assert_eq!(who, bidder);
        }
        other => panic!("{:?}", other),
    }
}
