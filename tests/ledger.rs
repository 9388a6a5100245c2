use english_auction::error::AuctionError;
use english_auction::bytes::same_address;
use english_auction::ledger::{Bid, BidState};

fn addr(n: u8) -> [u8; 32] {
    [n; 32]
}

fn bid(n: u8, amount: u64) -> Bid {
    Bid { escrow_address: addr(n), amount }
}

fn contents(s: &BidState) -> Vec<(u8, u64)> {
    s.bids.iter().map(|b| (b.escrow_address[0], b.amount)).collect()
}

#[test]
fn eviction_keeps_the_highest_bids() {
    let mut s = BidState::new(3);
    for (who, amount) in [(1u8, 10u64), (2, 20), (3, 30), (4, 5)] {
        assert!(s.place_bid(bid(who, amount)).is_ok());
    }
    assert_eq!(contents(&s), vec![(3, 30), (2, 20), (1, 10)]);
}

#[test]
fn eviction_prunes_the_lowest_bid() {
    let mut s = BidState::new(2);
    s.place_bid(bid(1, 10)).unwrap();
    s.place_bid(bid(2, 20)).unwrap();
    s.place_bid(bid(3, 15)).unwrap();
    assert_eq!(contents(&s), vec![(2, 20), (3, 15)]);
}

#[test]
fn equal_amounts_keep_the_earlier_bid_first() {
    let mut s = BidState::new(5);
    s.place_bid(bid(1, 10)).unwrap();
    s.place_bid(bid(2, 10)).unwrap();
    assert_eq!(contents(&s), vec![(1, 10), (2, 10)]);
}

#[test]
fn equal_amount_at_capacity_is_pruned() {
    let mut s = BidState::new(1);
    s.place_bid(bid(1, 10)).unwrap();
    s.place_bid(bid(2, 10)).unwrap();
    assert_eq!(contents(&s), vec![(1, 10)]);
}

#[test]
fn rebid_replaces_the_earlier_bid() {
    let mut s = BidState::new(5);
    s.place_bid(bid(1, 10)).unwrap();
    s.place_bid(bid(1, 15)).unwrap();
    assert_eq!(contents(&s), vec![(1, 15)]);
}

#[test]
fn rebid_moves_up_the_ranking() {
    let mut s = BidState::new(5);
    s.place_bid(bid(1, 10)).unwrap();
    s.place_bid(bid(2, 20)).unwrap();
    s.place_bid(bid(1, 25)).unwrap();
    assert_eq!(contents(&s), vec![(1, 25), (2, 20)]);
}

#[test]
fn rebid_that_does_not_improve_is_refused() {
    let mut s = BidState::new(5);
    s.place_bid(bid(1, 10)).unwrap();
    s.place_bid(bid(2, 12)).unwrap();
    assert_eq!(s.place_bid(bid(1, 10)), Err(AuctionError::BidTooSmall));
    assert_eq!(s.place_bid(bid(1, 9)), Err(AuctionError::BidTooSmall));
    assert_eq!(contents(&s), vec![(2, 12), (1, 10)]);
}

#[test]
fn ledger_stays_bounded_ranked_and_unique() {
    let mut s = BidState::new(4);
    let mut amount = 7u64;
    for i in 0..200u32 {
        amount = (amount * 31 + 17) % 1000;
        let _ = s.place_bid(bid((i % 9) as u8, amount));
        assert!(s.bids.len() <= 4);
        for w in s.bids.windows(2) {
            assert!(w[0].amount >= w[1].amount);
        }
        for (x, a) in s.bids.iter().enumerate() {
            for b in s.bids.iter().skip(x + 1) {
                assert_ne!(a.escrow_address, b.escrow_address);
            }
        }
    }
}

#[test]
fn zero_capacity_keeps_nothing() {
    let mut s = BidState::new(0);
    assert!(s.place_bid(bid(1, 10)).is_ok());
    assert!(s.bids.is_empty());
    assert!(s.winner().is_none());
}

#[test]
fn winner_is_the_highest_bid() {
    let mut s = BidState::new(3);
    assert!(s.winner().is_none());
    s.place_bid(bid(1, 10)).unwrap();
    s.place_bid(bid(2, 40)).unwrap();
    s.place_bid(bid(3, 30)).unwrap();
    let w = s.winner().unwrap();
    assert_eq!((w.escrow_address, w.amount), (addr(2), 40));
}

#[test]
fn find_bidder_reports_positions() {
    let mut s = BidState::new(3);
    s.place_bid(bid(1, 10)).unwrap();
    s.place_bid(bid(2, 40)).unwrap();
    assert_eq!(s.find_bidder(&addr(1)), Some(1));
    assert_eq!(s.find_bidder(&addr(2)), Some(0));
    assert_eq!(s.find_bidder(&addr(3)), None);
}

#[test]
fn addresses_compare_by_every_byte() {
    let a = addr(4);
    let mut b = addr(4);
    assert!(same_address(&a, &b));
    b[31] = 5;
    assert!(!same_address(&a, &b));
}
