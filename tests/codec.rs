use english_auction::auction::{AuctionData, BidderMetadata};
use english_auction::error::AuctionError;
use english_auction::execution::{
    check_authority, check_execution_time, check_extra_accounts, count_execution, governance_authority, TimelockError,
};
use english_auction::governance::Governance;
use english_auction::ledger::{Bid, BidState};
use english_auction::record::{
    pack_auction, pack_bidder_metadata, pack_ledger, unpack_auction, unpack_bidder_metadata, AUCTION_HEADER_LEN,
    BIDDER_METADATA_LEN, BID_LEN,
};
use english_auction::transaction::{CustomSingleSignerTransaction, GovernanceAccountType, MAX_INSTRUCTION_DATA};
use solana_program::pubkey::Pubkey;

fn sample() -> AuctionData {
    let mut bid_state = BidState::new(4);
    bid_state.place_bid(Bid { escrow_address: [1; 32], amount: 10 }).unwrap();
    bid_state.place_bid(Bid { escrow_address: [2; 32], amount: 300 }).unwrap();
    AuctionData {
        resource: [7; 32],
        start_time: -5,
        end_time: Some(1_700_000_000),
        gap_time: None,
        last_bid: Some(-1),
        bid_state,
    }
}

#[test]
fn auction_record_layout() {
    let bytes = pack_auction(&sample());
    assert_eq!(bytes.len(), AUCTION_HEADER_LEN + 2 * BID_LEN);
    assert_eq!(&bytes[0..32], &[7u8; 32]);
    assert_eq!(&bytes[32..40], &(-5i64).to_le_bytes());
    assert_eq!(bytes[40], 1);
    assert_eq!(&bytes[41..49], &1_700_000_000i64.to_le_bytes());
    assert_eq!(&bytes[49..58], &[0u8; 9]);
    assert_eq!(bytes[58], 1);
    assert_eq!(&bytes[59..67], &[0xffu8; 8]);
    assert_eq!(&bytes[67..75], &4u64.to_le_bytes());
    assert_eq!(&bytes[75..79], &2u32.to_le_bytes());
    assert_eq!(&bytes[79..111], &[2u8; 32]);
    assert_eq!(&bytes[111..119], &300u64.to_le_bytes());
}

#[test]
fn auction_record_round_trips() {
    let a = sample();
    let back = unpack_auction(&pack_auction(&a)).unwrap();
    assert_eq!(back.resource, a.resource);
    assert_eq!(back.start_time, -5);
    assert_eq!(back.end_time, a.end_time);
    assert_eq!(back.gap_time, None);
    assert_eq!(back.last_bid, Some(-1));
    assert_eq!(back.bid_state.max, 4);
    let bids: Vec<(u8, u64)> = back.bid_state.bids.iter().map(|b| (b.escrow_address[0], b.amount)).collect();
    assert_eq!(bids, vec![(2, 300), (1, 10)]);
}

#[test]
fn undersized_or_malformed_records_are_refused() {
    let bytes = pack_auction(&sample());
    assert_eq!(unpack_auction(&bytes[..bytes.len() - 1]).err(), Some(AuctionError::PersistenceError));
    assert_eq!(unpack_auction(&bytes[..10]).err(), Some(AuctionError::PersistenceError));
    let mut longer = bytes.clone();
    longer.push(0);
    assert_eq!(unpack_auction(&longer).err(), Some(AuctionError::PersistenceError));
    let mut bad_tag = bytes.clone();
    bad_tag[49] = 2;
    assert_eq!(unpack_auction(&bad_tag).err(), Some(AuctionError::PersistenceError));
    let mut stray = bytes.clone();
    stray[52] = 1;
    assert_eq!(unpack_auction(&stray).err(), Some(AuctionError::PersistenceError));
    let mut unranked = bytes.clone();
    unranked[111..119].copy_from_slice(&5u64.to_le_bytes());
    assert_eq!(unpack_auction(&unranked).err(), Some(AuctionError::PersistenceError));
    let mut twice = bytes.clone();
    twice[119..151].copy_from_slice(&[2u8; 32]);
    assert_eq!(unpack_auction(&twice).err(), Some(AuctionError::PersistenceError));
    let mut over = bytes.clone();
    over[67..75].copy_from_slice(&1u64.to_le_bytes());
    assert_eq!(unpack_auction(&over).err(), Some(AuctionError::PersistenceError));
}

#[test]
fn ledger_layout_has_capacity_count_and_bids() {
    let l = sample().bid_state;
    let bytes = pack_ledger(&l);
    assert_eq!(bytes.len(), 12 + 2 * BID_LEN);
    assert_eq!(&bytes[0..8], &4u64.to_le_bytes());
    assert_eq!(&bytes[8..12], &2u32.to_le_bytes());
    assert_eq!(&bytes[12..44], &[2u8; 32]);
}

#[test]
fn bidder_metadata_round_trips() {
    let m = BidderMetadata { bidder: [3; 32], last_bid: 77, last_bid_timestamp: -9, total_contributed: 1 << 40 };
    let bytes = pack_bidder_metadata(&m);
    assert_eq!(bytes.len(), BIDDER_METADATA_LEN);
    assert_eq!(&bytes[32..40], &77u64.to_le_bytes());
    let back = unpack_bidder_metadata(&bytes).unwrap();
    assert_eq!(
        (back.bidder, back.last_bid, back.last_bid_timestamp, back.total_contributed),
        ([3; 32], 77, -9, 1 << 40)
    );
    assert_eq!(unpack_bidder_metadata(&bytes[1..]).err(), Some(AuctionError::PersistenceError));
}

#[test]
fn execution_waits_for_the_delay() {
    assert_eq!(check_execution_time(100, 40, 60), Ok(()));
    assert_eq!(check_execution_time(99, 40, 60), Err(TimelockError::TooEarlyToExecute));
    assert_eq!(check_execution_time(39, 40, 0), Err(TimelockError::NumericalOverflow));
}

#[test]
fn execution_limits_extra_accounts() {
    assert_eq!(check_extra_accounts(10), Ok(()));
    assert_eq!(check_extra_accounts(11), Err(TimelockError::TooManyAccountsInInstruction));
}

#[test]
fn execution_counts_toward_completion() {
    assert_eq!(count_execution(2, 4), Ok((3, false)));
    assert_eq!(count_execution(3, 4), Ok((4, true)));
    assert_eq!(count_execution(255, 4), Err(TimelockError::NumericalOverflow));
}

#[test]
fn instruction_data_stops_at_the_end_index() {
    let mut instruction = [0u8; MAX_INSTRUCTION_DATA];
    instruction[..4].copy_from_slice(&[9, 8, 7, 6]);
    let mut t = CustomSingleSignerTransaction {
        account_type: GovernanceAccountType::CustomSingleSignerTransaction,
        delay_slots: 0,
        instruction,
        instruction_end_index: 2,
        executed: 0,
    };
    assert_eq!(t.instruction_data(), Ok(vec![9, 8, 7]));
    t.instruction_end_index = 450;
    assert_eq!(t.instruction_data(), Err(TimelockError::InstructionUnpackError));
    t.executed = 1;
    assert_eq!(t.instruction_data(), Err(TimelockError::TimelockTransactionAlreadyExecuted));
}

#[test]
fn governance_authority_is_derived_from_the_mints() {
    let program_id = [5u8; 32];
    let mut g = Governance {
        account_type: GovernanceAccountType::Governance,
        vote_threshold: 50,
        minimum_slot_waiting_period: 0,
        governance_mint: [6; 32],
        council_mint: None,
        program: [8; 32],
        time_limit: 0,
        name: [0; 32],
        proposal_count: 0,
    };
    let (key, bump) = governance_authority(&program_id, &g).unwrap();
    let (expected, expected_bump) =
        Pubkey::find_program_address(&[b"timelock", &program_id, &[6u8; 32], &[], &[8u8; 32]], &Pubkey::new_from_array(program_id));
    assert_eq!((key, bump), (expected.to_bytes(), expected_bump));
    g.council_mint = Some([7; 32]);
    let (with_council, _) = governance_authority(&program_id, &g).unwrap();
    assert_ne!(with_council, key);
    assert_eq!(check_authority(&key, &key), Ok(()));
    assert_eq!(check_authority(&with_council, &key), Err(TimelockError::InvalidGovernanceKey));
}
