//! The auction record, the timing rules that decide when it accepts a bid, and
//! the steps of placing a bid: checking it, then committing it once the funds
//! have moved into the bidder's escrow.
use vstd::prelude::*;

use crate::accounts::{accounts_match, check_bid_accounts};
use crate::error::AuctionError;
use crate::ledger::{improves_own_bid, ledger_after, Bid, BidState};

verus! {

/// One auction: its timing and its bid ledger.
#[derive(Clone, Debug)]
pub struct AuctionData {
    /// The resource being auctioned.
    pub resource: [u8; 32],
    /// The first moment at which bids are accepted.
    pub start_time: i64,
    /// The hard deadline, if any: no bid is accepted after it.
    pub end_time: Option<i64>,
    /// The silence, if any, after the last bid that concludes the auction.
    pub gap_time: Option<i64>,
    /// When the last bid was accepted, if one was.
    pub last_bid: Option<i64>,
    /// The active bids.
    pub bid_state: BidState,
}

/// What the auction keeps about one bidder, beside the escrow of its funds.
#[derive(Clone, Copy, Debug)]
pub struct BidderMetadata {
    /// The bidder's account.
    pub bidder: [u8; 32],
    /// The amount of the bidder's latest bid.
    pub last_bid: u64,
    /// When the bidder's latest bid was accepted.
    pub last_bid_timestamp: i64,
    /// All that the bidder has moved into escrow for this auction.
    pub total_contributed: u64,
}

/// The auction has not begun at `now`.
pub open spec fn not_started(a: AuctionData, now: int) -> bool {
    now < a.start_time
}

/// The hard deadline has passed at `now`.
pub open spec fn deadline_passed(a: AuctionData, now: int) -> bool {
    match a.end_time {
        Some(end) => now > end,
        None => false,
    }
}

/// The required silence after the last bid has run out at `now`.
pub open spec fn gap_expired(a: AuctionData, now: int) -> bool {
    match (a.gap_time, a.last_bid) {
        (Some(gap), Some(last)) => now - last > gap,
        _ => false,
    }
}

/// The auction accepts bids at `now`.
pub open spec fn is_open(a: AuctionData, now: int) -> bool {
    !not_started(a, now) && !deadline_passed(a, now) && !gap_expired(a, now)
}

/// The bid of escrow address `escrow` may be placed at `now` by a bidder whose
/// spendable balance is `balance`.
pub open spec fn bid_allowed(a: AuctionData, now: int, balance: u64, escrow: [u8; 32], amount: u64) -> bool {
    &&& is_open(a, now)
    &&& amount <= balance
    &&& improves_own_bid(a.bid_state.bids@, Bid { escrow_address: escrow, amount })
}

/// The error that a bid which is not allowed gets, in the order of the checks.
pub open spec fn bid_refusal(a: AuctionData, now: int, balance: u64, amount: u64) -> AuctionError {
    if !is_open(a, now) {
        AuctionError::AuctionClosed
    } else if amount > balance {
        AuctionError::InsufficientFunds
    } else {
        AuctionError::BidTooSmall
    }
}

/// The metadata of a bidder after a bid of `amount` at `now`.
pub open spec fn metadata_after(m: BidderMetadata, amount: u64, now: i64) -> BidderMetadata {
    BidderMetadata {
        last_bid: amount,
        last_bid_timestamp: now,
        total_contributed: (m.total_contributed + amount) as u64,
        ..m
    }
}

/// `after` is the auction `before` after it accepted `b` at `now`: the ledger took
/// the bid, the last bid's time is `now`, and nothing else changed.
pub open spec fn auction_after_bid(before: AuctionData, after: AuctionData, b: Bid, now: i64) -> bool {
    &&& after.bid_state.bids@ == ledger_after(before.bid_state.bids@, b, before.bid_state.max as nat)
    &&& after.bid_state.max == before.bid_state.max
    &&& after.last_bid == Some(now)
    &&& after.resource == before.resource
    &&& after.start_time == before.start_time
    &&& after.end_time == before.end_time
    &&& after.gap_time == before.gap_time
}

impl AuctionData {
    /// The auction's invariant: that of its ledger.
    pub open spec fn wf(&self) -> bool {
        self.bid_state.wf()
    }

    /// Whether the auction accepts a bid at `now`; `AuctionClosed` where it does not.
    pub fn check_open(&self, now: i64) -> (r: Result<(), AuctionError>)
        ensures
            r is Ok <==> is_open(*self, now as int),
            r is Err ==> r == Err::<(), AuctionError>(AuctionError::AuctionClosed),
    {
        if now < self.start_time {
            return Err(AuctionError::AuctionClosed);
        }
        if let Some(end) = self.end_time {
            if now > end {
                return Err(AuctionError::AuctionClosed);
            }
        }
        if let Some(gap) = self.gap_time {
            if let Some(last) = self.last_bid {
                if (now as i128) - (last as i128) > gap as i128 {
                    return Err(AuctionError::AuctionClosed);
                }
            }
        }
        Ok(())
    }
}

/// Checks a bid of `amount` from the bidder whose escrow address is `escrow`
/// and whose spendable balance is `balance`, at `now`, before any funds move.
/// On success it returns the bid to commit once the funds are in escrow.
pub fn prepare_bid(auction: &AuctionData, now: i64, balance: u64, escrow: [u8; 32], amount: u64) -> (r: Result<Bid, AuctionError>)
    requires
        auction.wf(),
    ensures
        r is Ok <==> bid_allowed(*auction, now as int, balance, escrow, amount),
        r is Ok ==> r == Ok::<Bid, AuctionError>(Bid { escrow_address: escrow, amount }),
        r is Err ==> r == Err::<Bid, AuctionError>(bid_refusal(*auction, now as int, balance, amount)),
{
    auction.check_open(now)?;
    if amount > balance {
        return Err(AuctionError::InsufficientFunds);
    }
    let bid = Bid { escrow_address: escrow, amount };
    if let Some(i) = auction.bid_state.find_bidder(&escrow) {
        if auction.bid_state.bids[i].amount >= amount {
            return Err(AuctionError::BidTooSmall);
        }
    }
    Ok(bid)
}

/// Commits a bid once the host has tried to move its funds into escrow;
/// `transferred` says whether that succeeded. The bid is checked again; where
/// it is accepted the ledger takes it, the auction's last bid becomes `now`
/// and the bidder's metadata records it. Where anything fails, neither the
/// auction nor the metadata changes.
pub fn commit_bid(
    auction: &mut AuctionData,
    meta: &mut BidderMetadata,
    now: i64,
    balance: u64,
    escrow: [u8; 32],
    amount: u64,
    transferred: bool,
) -> (r: Result<(), AuctionError>)
    requires
        old(auction).wf(),
    ensures
        final(auction).wf(),
        r is Ok <==> (bid_allowed(*old(auction), now as int, balance, escrow, amount) && transferred
            && old(meta).total_contributed + amount <= u64::MAX),
        !bid_allowed(*old(auction), now as int, balance, escrow, amount)
            ==> r == Err::<(), AuctionError>(bid_refusal(*old(auction), now as int, balance, amount)),
        bid_allowed(*old(auction), now as int, balance, escrow, amount) && !transferred
            ==> r == Err::<(), AuctionError>(AuctionError::InsufficientFunds),
        bid_allowed(*old(auction), now as int, balance, escrow, amount) && transferred
            && old(meta).total_contributed + amount > u64::MAX
            ==> r == Err::<(), AuctionError>(AuctionError::NumericalOverflow),
        r is Err ==> *final(auction) == *old(auction) && *final(meta) == *old(meta),
        r is Ok ==> auction_after_bid(*old(auction), *final(auction), Bid { escrow_address: escrow, amount }, now),
        r is Ok ==> *final(meta) == metadata_after(*old(meta), amount, now),
        final(meta).total_contributed >= old(meta).total_contributed,
{
    let bid = prepare_bid(auction, now, balance, escrow, amount)?;
    if !transferred {
        return Err(AuctionError::InsufficientFunds);
    }
    let total = match meta.total_contributed.checked_add(amount) {
        Some(t) => t,
        None => return Err(AuctionError::NumericalOverflow),
    };
    let placed = auction.bid_state.place_bid(bid);
    if placed.is_err() {
        return Err(AuctionError::BidTooSmall);
    }
    auction.last_bid = Some(now);
    meta.last_bid = amount;
    meta.last_bid_timestamp = now;
    meta.total_contributed = total;
    Ok(())
}

/// The arguments of a bid.
#[derive(Clone, Copy, Debug)]
pub struct PlaceBidArgs {
    /// The amount bid; the bidder must be able to pay it.
    pub amount: u64,
    /// The resource being bid on.
    pub resource: [u8; 32],
}

/// Places a bid of `bidder` on the auction at `auction_key`, once the host has
/// tried to move its funds into the named escrow (`transferred` says whether
/// that succeeded). The escrow and metadata addresses must be those derived
/// for the bidder, else `ValidationError`; then the bid is committed as by
/// `commit_bid`. Where anything fails, neither the auction nor the metadata
/// changes.
pub fn place_bid(
    program_id: &[u8; 32],
    auction_key: &[u8; 32],
    bidder: &[u8; 32],
    escrow: &[u8; 32],
    metadata: &[u8; 32],
    auction: &mut AuctionData,
    meta: &mut BidderMetadata,
    now: i64,
    balance: u64,
    args: PlaceBidArgs,
    transferred: bool,
) -> (r: Result<(), AuctionError>)
    requires
        old(auction).wf(),
    ensures
        final(auction).wf(),
        r is Ok <==> (accounts_match(program_id@, auction_key@, bidder@, escrow@, metadata@)
            && bid_allowed(*old(auction), now as int, balance, *escrow, args.amount) && transferred
            && old(meta).total_contributed + args.amount <= u64::MAX),
        !accounts_match(program_id@, auction_key@, bidder@, escrow@, metadata@)
            ==> r == Err::<(), AuctionError>(AuctionError::ValidationError),
        accounts_match(program_id@, auction_key@, bidder@, escrow@, metadata@)
            && !bid_allowed(*old(auction), now as int, balance, *escrow, args.amount)
            ==> r == Err::<(), AuctionError>(bid_refusal(*old(auction), now as int, balance, args.amount)),
        accounts_match(program_id@, auction_key@, bidder@, escrow@, metadata@)
            && bid_allowed(*old(auction), now as int, balance, *escrow, args.amount) && !transferred
            ==> r == Err::<(), AuctionError>(AuctionError::InsufficientFunds),
        accounts_match(program_id@, auction_key@, bidder@, escrow@, metadata@)
            && bid_allowed(*old(auction), now as int, balance, *escrow, args.amount) && transferred
            && old(meta).total_contributed + args.amount > u64::MAX
            ==> r == Err::<(), AuctionError>(AuctionError::NumericalOverflow),
        r is Err ==> *final(auction) == *old(auction) && *final(meta) == *old(meta),
        r is Ok ==> auction_after_bid(*old(auction), *final(auction), Bid { escrow_address: *escrow, amount: args.amount }, now),
        r is Ok ==> *final(meta) == metadata_after(*old(meta), args.amount, now),
        final(meta).total_contributed >= old(meta).total_contributed,
{
    check_bid_accounts(program_id, auction_key, bidder, escrow, metadata)?;
    commit_bid(auction, meta, now, balance, *escrow, args.amount, transferred)
}

} // verus!
