use english_auction::accounts::{escrow_address, metadata_address};
use english_auction::auction::{commit_bid, place_bid, prepare_bid, AuctionData, BidderMetadata, PlaceBidArgs};
use english_auction::error::AuctionError;
use english_auction::ledger::BidState;

fn auction(gap: Option<i64>, end: Option<i64>) -> AuctionData {
    AuctionData {
        resource: [9; 32],
        start_time: 0,
        end_time: end,
        gap_time: gap,
        last_bid: None,
        bid_state: BidState::new(3),
    }
}

fn meta(n: u8) -> BidderMetadata {
    BidderMetadata { bidder: [n; 32], last_bid: 0, last_bid_timestamp: 0, total_contributed: 0 }
}

fn ledger(a: &AuctionData) -> Vec<(u8, u64)> {
    a.bid_state.bids.iter().map(|b| (b.escrow_address[0], b.amount)).collect()
}

#[test]
fn gap_expiry_closes_the_auction() {
    let mut a = auction(Some(600), None);
    let mut m = meta(1);
    assert!(commit_bid(&mut a, &mut m, 0, 1000, [1; 32], 10, true).is_ok());
    assert_eq!(a.last_bid, Some(0));
    let mut late = a.clone();
    let mut m2 = meta(2);
    assert_eq!(commit_bid(&mut late, &mut m2, 601, 1000, [2; 32], 20, true), Err(AuctionError::AuctionClosed));
    assert_eq!(ledger(&late), vec![(1, 10)]);
    assert_eq!(commit_bid(&mut a, &mut m2, 599, 1000, [2; 32], 20, true), Ok(()));
    assert_eq!(a.last_bid, Some(599));
    assert!(a.check_open(1199).is_ok());
    assert_eq!(a.check_open(1200), Err(AuctionError::AuctionClosed));
    let mut m3 = meta(3);
    assert_eq!(commit_bid(&mut a, &mut m3, 1198, 1000, [3; 32], 30, true), Ok(()));
    assert_eq!(ledger(&a), vec![(3, 30), (2, 20), (1, 10)]);
}

#[test]
fn gap_is_measured_from_the_last_bid() {
    let a = auction(Some(600), None);
    assert!(a.check_open(1_000_000).is_ok());
    let mut a = a;
    a.last_bid = Some(100);
    assert!(a.check_open(700).is_ok());
    assert_eq!(a.check_open(701), Err(AuctionError::AuctionClosed));
}

#[test]
fn deadline_closes_the_auction() {
    let a = auction(None, Some(50));
    assert!(a.check_open(50).is_ok());
    assert_eq!(a.check_open(51), Err(AuctionError::AuctionClosed));
}

#[test]
fn no_bids_before_the_start() {
    let mut a = auction(None, None);
    a.start_time = 10;
    assert_eq!(a.check_open(9), Err(AuctionError::AuctionClosed));
    assert!(a.check_open(10).is_ok());
}

#[test]
fn extreme_times_do_not_overflow() {
    let mut a = auction(Some(600), None);
    a.start_time = i64::MIN;
    a.last_bid = Some(i64::MIN);
    assert_eq!(a.check_open(i64::MAX), Err(AuctionError::AuctionClosed));
    a.last_bid = Some(i64::MAX);
    assert!(a.check_open(i64::MIN).is_ok());
}

#[test]
fn prepare_checks_in_order() {
    let mut a = auction(None, Some(100));
    let mut m = meta(1);
    commit_bid(&mut a, &mut m, 5, 100, [1; 32], 40, true).unwrap();
    assert_eq!(prepare_bid(&a, 101, 0, [1; 32], 50).err(), Some(AuctionError::AuctionClosed));
    assert_eq!(prepare_bid(&a, 10, 49, [1; 32], 50).err(), Some(AuctionError::InsufficientFunds));
    assert_eq!(prepare_bid(&a, 10, 100, [1; 32], 40).err(), Some(AuctionError::BidTooSmall));
    let b = prepare_bid(&a, 10, 100, [1; 32], 41).unwrap();
    assert_eq!((b.escrow_address, b.amount), ([1; 32], 41));
}

#[test]
fn failed_transfer_changes_nothing() {
    let mut a = auction(Some(600), None);
    let mut m = meta(1);
    commit_bid(&mut a, &mut m, 0, 100, [1; 32], 10, true).unwrap();
    let mut m2 = meta(2);
    assert_eq!(commit_bid(&mut a, &mut m2, 5, 100, [2; 32], 20, false), Err(AuctionError::InsufficientFunds));
    assert_eq!(ledger(&a), vec![(1, 10)]);
    assert_eq!(a.last_bid, Some(0));
    assert_eq!((m2.last_bid, m2.last_bid_timestamp, m2.total_contributed), (0, 0, 0));
}

#[test]
fn commit_records_metadata() {
    let mut a = auction(None, None);
    let mut m = meta(1);
    commit_bid(&mut a, &mut m, 3, 100, [1; 32], 10, true).unwrap();
    commit_bid(&mut a, &mut m, 8, 100, [1; 32], 15, true).unwrap();
    assert_eq!((m.last_bid, m.last_bid_timestamp, m.total_contributed), (15, 8, 25));
    assert_eq!(ledger(&a), vec![(1, 15)]);
}

#[test]
fn contribution_overflow_is_refused() {
    let mut a = auction(None, None);
    let mut m = meta(1);
    m.total_contributed = u64::MAX - 5;
    assert_eq!(commit_bid(&mut a, &mut m, 3, 100, [1; 32], 10, true), Err(AuctionError::NumericalOverflow));
    assert!(a.bid_state.bids.is_empty());
    assert_eq!(a.last_bid, None);
    assert_eq!(m.total_contributed, u64::MAX - 5);
}

#[test]
fn pruned_bidder_keeps_its_contribution() {
    let mut a = auction(None, None);
    a.bid_state = BidState::new(1);
    let mut m1 = meta(1);
    let mut m2 = meta(2);
    commit_bid(&mut a, &mut m1, 1, 100, [1; 32], 10, true).unwrap();
    commit_bid(&mut a, &mut m2, 2, 100, [2; 32], 20, true).unwrap();
    assert_eq!(ledger(&a), vec![(2, 20)]);
    assert_eq!(m1.total_contributed, 10);
}

#[test]
fn place_bid_checks_the_derived_accounts() {
    let program = [11u8; 32];
    let auction_key = [12u8; 32];
    let bidder = [13u8; 32];
    let (escrow, _) = escrow_address(&program, &auction_key, &bidder).unwrap();
    let (metadata, _) = metadata_address(&program, &auction_key, &bidder).unwrap();
    let mut a = auction(Some(600), None);
    let mut m = meta(13);
    let args = PlaceBidArgs { amount: 25, resource: [9; 32] };
    assert_eq!(
        place_bid(&program, &auction_key, &bidder, &metadata, &escrow, &mut a, &mut m, 1, 100, args, true),
        Err(AuctionError::ValidationError)
    );
    assert!(a.bid_state.bids.is_empty());
    assert_eq!(place_bid(&program, &auction_key, &bidder, &escrow, &metadata, &mut a, &mut m, 1, 100, args, true), Ok(()));
    assert_eq!(a.bid_state.bids.len(), 1);
    assert_eq!(a.bid_state.bids[0].escrow_address, escrow);
    assert_eq!(a.bid_state.bids[0].amount, 25);
    assert_eq!((m.last_bid, m.last_bid_timestamp, m.total_contributed), (25, 1, 25));
    assert_eq!(
        place_bid(&program, &auction_key, &bidder, &escrow, &metadata, &mut a, &mut m, 2, 100, args, true),
        Err(AuctionError::BidTooSmall)
    );
    let more = PlaceBidArgs { amount: 30, resource: [9; 32] };
    assert_eq!(
        place_bid(&program, &auction_key, &bidder, &escrow, &metadata, &mut a, &mut m, 2, 100, more, false),
        Err(AuctionError::InsufficientFunds)
    );
    assert_eq!(a.bid_state.bids[0].amount, 25);
    assert_eq!(m.total_contributed, 25);
}
