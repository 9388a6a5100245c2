//! The persisted layouts of the auction's records. Every integer is
//! little-endian; an optional time is a tag byte (1 present, 0 absent) and
//! eight bytes, zero when absent; the ledger is its capacity, its count of
//! bids, then the bids. A buffer of any other size or shape is refused.
use vstd::prelude::*;
use vstd::bytes::{
    lemma_auto_spec_u32_to_from_le_bytes, lemma_auto_spec_u64_to_from_le_bytes,
    spec_u32_from_le_bytes, spec_u32_to_le_bytes, spec_u64_from_le_bytes, spec_u64_to_le_bytes,
    u32_from_le_bytes, u32_to_le_bytes, u64_from_le_bytes, u64_to_le_bytes,
};

use crate::auction::{AuctionData, BidderMetadata};
use crate::bytes::{push_bytes, read_array, same_address};
use crate::error::AuctionError;
use crate::ledger::{has_unique_bidders, is_ranked, Bid, BidState};

verus! {

/// The size of a packed bid.
pub const BID_LEN: usize = 40;

/// The size of a packed auction record before its bids.
pub const AUCTION_HEADER_LEN: usize = 79;

/// The size of a packed bidder metadata record.
pub const BIDDER_METADATA_LEN: usize = 56;

/// A signed time as the eight bytes of its two's complement.
pub open spec fn i64_layout(x: i64) -> Seq<u8> {
    spec_u64_to_le_bytes(i64_bits(x))
}

/// Eight zero bytes.
pub open spec fn zeros8() -> Seq<u8> {
    Seq::new(8, |i: int| 0u8)
}

/// An optional time: a tag, then the time or zeros.
pub open spec fn option_time_layout(o: Option<i64>) -> Seq<u8> {
    match o {
        Some(v) => seq![1u8] + i64_layout(v),
        None => seq![0u8] + zeros8(),
    }
}

/// A bid: its escrow address, then its amount.
pub open spec fn bid_layout(b: Bid) -> Seq<u8> {
    b.escrow_address@ + spec_u64_to_le_bytes(b.amount)
}

/// The bids of `s`, one after the other.
pub open spec fn bids_layout(s: Seq<Bid>) -> Seq<u8>
    decreases s.len(),
{
    if s.len() == 0 {
        Seq::empty()
    } else {
        bids_layout(s.drop_last()) + bid_layout(s.last())
    }
}

/// A ledger: its capacity, its count of bids, then the bids.
pub open spec fn ledger_layout(l: BidState) -> Seq<u8> {
    spec_u64_to_le_bytes(l.max as u64) + spec_u32_to_le_bytes(l.bids@.len() as u32) + bids_layout(l.bids@)
}

/// An auction record: the resource, the start, the deadline, the gap, the last
/// bid's time, then the ledger.
pub open spec fn auction_layout(a: AuctionData) -> Seq<u8> {
    a.resource@ + i64_layout(a.start_time) + option_time_layout(a.end_time) + option_time_layout(a.gap_time)
        + option_time_layout(a.last_bid) + ledger_layout(a.bid_state)
}

/// A bidder's metadata: the bidder, the last amount, its time, the total.
pub open spec fn metadata_layout(m: BidderMetadata) -> Seq<u8> {
    m.bidder@ + spec_u64_to_le_bytes(m.last_bid) + i64_layout(m.last_bid_timestamp)
        + spec_u64_to_le_bytes(m.total_contributed)
}

/// The optional time at `at` in `s` is well formed.
pub open spec fn option_time_ok(s: Seq<u8>, at: int) -> bool {
    s[at] == 1 || (s[at] == 0 && s.subrange(at + 1, at + 9) == zeros8())
}

/// The count of bids that a packed auction record announces.
pub open spec fn bid_count_of(s: Seq<u8>) -> int {
    spec_u32_from_le_bytes(s.subrange(75, 79)) as int
}

/// The capacity that a packed auction record announces.
pub open spec fn capacity_of(s: Seq<u8>) -> int {
    spec_u64_from_le_bytes(s.subrange(67, 75)) as int
}

/// The escrow address of the `i`-th packed bid of an auction record.
pub open spec fn address_at(s: Seq<u8>, i: int) -> Seq<u8> {
    s.subrange(79 + 40 * i, 79 + 40 * i + 32)
}

/// The amount of the `i`-th packed bid of an auction record.
pub open spec fn amount_at(s: Seq<u8>, i: int) -> u64 {
    spec_u64_from_le_bytes(s.subrange(79 + 40 * i + 32, 79 + 40 * i + 40))
}

/// `s` is a packed auction record whose ledger keeps its invariant: the size
/// that its count announces, well-formed optional times, no more bids than
/// the capacity, bids ranked highest first, one bid per escrow address.
pub open spec fn auction_bytes_ok(s: Seq<u8>) -> bool {
    &&& s.len() >= 79
    &&& s.len() == 79 + 40 * bid_count_of(s)
    &&& option_time_ok(s, 40)
    &&& option_time_ok(s, 49)
    &&& option_time_ok(s, 58)
    &&& capacity_of(s) <= usize::MAX
    &&& bid_count_of(s) <= capacity_of(s)
    &&& forall|i: int, j: int| 0 <= i < j < bid_count_of(s) ==> #[trigger] amount_at(s, i) >= #[trigger] amount_at(s, j)
    &&& forall|i: int, j: int|
        0 <= i < bid_count_of(s) && 0 <= j < bid_count_of(s) && i != j
            ==> #[trigger] address_at(s, i) != #[trigger] address_at(s, j)
}

/// The two's complement bits of a signed time.
pub open spec fn i64_bits(x: i64) -> u64 {
    if x >= 0 {
        x as u64
    } else {
        (x + 0x1_0000_0000_0000_0000) as u64
    }
}

/// The signed time whose two's complement bits are `y`.
pub open spec fn i64_of_bits(y: u64) -> i64 {
    if y <= i64::MAX {
        y as i64
    } else {
        (y - 0x1_0000_0000_0000_0000) as i64
    }
}

fn to_bits(x: i64) -> (r: u64)
    ensures
        r == i64_bits(x),
        i64_of_bits(r) == x,
{
    if x >= 0 {
        x as u64
    } else {
        u64::MAX - ((-(x + 1)) as u64)
    }
}

fn of_bits(y: u64) -> (r: i64)
    ensures
        r == i64_of_bits(y),
        i64_bits(r) == y,
{
    if y <= i64::MAX as u64 {
        y as i64
    } else {
        -((u64::MAX - y) as i64) - 1
    }
}

proof fn lemma_bids_layout(s: Seq<Bid>)
    ensures
        bids_layout(s).len() == 40 * s.len(),
        forall|i: int| 0 <= i < s.len() ==> #[trigger] bids_layout(s).subrange(40 * i, 40 * i + 40) == bid_layout(s[i]),
    decreases s.len(),
{
    lemma_auto_spec_u64_to_from_le_bytes();
    if s.len() > 0 {
        let t = s.drop_last();
        lemma_bids_layout(t);
        assert forall|i: int| 0 <= i < s.len() implies #[trigger] bids_layout(s).subrange(40 * i, 40 * i + 40) == bid_layout(s[i]) by {
            if i < t.len() {
                assert(bids_layout(s).subrange(40 * i, 40 * i + 40) =~= bids_layout(t).subrange(40 * i, 40 * i + 40));
                assert(t[i] == s[i]);
            } else {
                assert(bids_layout(s).subrange(40 * i, 40 * i + 40) =~= bid_layout(s.last()));
            }
        };
    }
}

fn push_time(v: &mut Vec<u8>, x: i64)
    ensures
        final(v)@ == old(v)@ + i64_layout(x),
{
    let mut bytes = u64_to_le_bytes(to_bits(x));
    v.append(&mut bytes);
}

fn push_option_time(v: &mut Vec<u8>, o: Option<i64>)
    ensures
        final(v)@ == old(v)@ + option_time_layout(o),
{
    match o {
        Some(x) => {
            v.push(1u8);
            push_time(v, x);
        },
        None => {
            v.push(0u8);
            let zeros: [u8; 8] = [0u8; 8];
            assert(zeros@ =~= zeros8());
            push_bytes(v, zeros.as_slice());
        },
    }
    assert(final(v)@ =~= old(v)@ + option_time_layout(o));
}

fn push_bid(v: &mut Vec<u8>, b: &Bid)
    ensures
        final(v)@ == old(v)@ + bid_layout(*b),
{
    push_bytes(v, b.escrow_address.as_slice());
    let mut amount = u64_to_le_bytes(b.amount);
    v.append(&mut amount);
    assert(final(v)@ =~= old(v)@ + bid_layout(*b));
}

/// Packs a bid ledger.
pub fn pack_ledger(l: &BidState) -> (r: Vec<u8>)
    requires
        l.bids@.len() <= u32::MAX,
    ensures
        r@ == ledger_layout(*l),
{
    let mut r = u64_to_le_bytes(l.max as u64);
    let mut count = u32_to_le_bytes(l.bids.len() as u32);
    r.append(&mut count);
    let ghost head = r@;
    let mut i: usize = 0;
    while i < l.bids.len()
        invariant
            0 <= i <= l.bids@.len(),
            r@ == head + bids_layout(l.bids@.take(i as int)),
        decreases l.bids@.len() - i,
    {
        push_bid(&mut r, &l.bids[i]);
        assert(l.bids@.take(i + 1).drop_last() =~= l.bids@.take(i as int));
        i += 1;
    }
    assert(l.bids@.take(l.bids@.len() as int) =~= l.bids@);
    assert(r@ =~= ledger_layout(*l));
    r
}

/// Packs an auction record.
pub fn pack_auction(a: &AuctionData) -> (r: Vec<u8>)
    requires
        a.bid_state.bids@.len() <= u32::MAX,
    ensures
        r@ == auction_layout(*a),
{
    let mut r: Vec<u8> = Vec::new();
    push_bytes(&mut r, a.resource.as_slice());
    push_time(&mut r, a.start_time);
    push_option_time(&mut r, a.end_time);
    push_option_time(&mut r, a.gap_time);
    push_option_time(&mut r, a.last_bid);
    let mut ledger = pack_ledger(&a.bid_state);
    r.append(&mut ledger);
    assert(r@ =~= auction_layout(*a));
    r
}

/// Packs a bidder's metadata record.
pub fn pack_bidder_metadata(m: &BidderMetadata) -> (r: Vec<u8>)
    ensures
        r@ == metadata_layout(*m),
        r@.len() == BIDDER_METADATA_LEN,
{
    proof {
        lemma_auto_spec_u64_to_from_le_bytes();
    }
    let mut r: Vec<u8> = Vec::new();
    push_bytes(&mut r, m.bidder.as_slice());
    let mut last = u64_to_le_bytes(m.last_bid);
    r.append(&mut last);
    push_time(&mut r, m.last_bid_timestamp);
    let mut total = u64_to_le_bytes(m.total_contributed);
    r.append(&mut total);
    assert(r@ =~= metadata_layout(*m));
    r
}

fn read_time(input: &[u8], at: usize) -> (r: i64)
    requires
        at + 8 <= input@.len(),
    ensures
        i64_layout(r) == input@.subrange(at as int, at + 8),
{
    proof {
        lemma_auto_spec_u64_to_from_le_bytes();
    }
    let _len = input.len();
    let end = at + 8;
    of_bits(u64_from_le_bytes(&input[at..end]))
}

fn read_option_time(input: &[u8], at: usize) -> (r: Option<Option<i64>>)
    requires
        at + 9 <= input@.len(),
    ensures
        r is Some <==> option_time_ok(input@, at as int),
        r is Some ==> option_time_layout(r.unwrap()) == input@.subrange(at as int, at + 9),
{
    let len = input.len();
    if input[at] == 1 {
        let x = read_time(input, at + 1);
        assert(option_time_layout(Some(x)) =~= input@.subrange(at as int, at + 9));
        Some(Some(x))
    } else if input[at] == 0 {
        let mut i: usize = 0;
        while i < 8
            invariant
                0 <= i <= 8,
                len == input@.len(),
                at + 9 <= input@.len(),
                input@[at as int] == 0,
                forall|j: int| at + 1 <= j < at + 1 + i ==> #[trigger] input@[j] == 0,
            decreases 8 - i,
        {
            if input[at + 1 + i] != 0 {
                assert(input@.subrange(at + 1, at + 9)[i as int] != zeros8()[i as int]);
                assert(input@.subrange(at + 1, at + 9) != zeros8());
                assert(!option_time_ok(input@, at as int));
                return None;
            }
            i += 1;
        }
        assert(input@.subrange(at + 1, at + 9) =~= zeros8());
        assert(option_time_layout(None) =~= input@.subrange(at as int, at + 9));
        Some(None)
    } else {
        None
    }
}

fn read_bid(input: &[u8], i: usize) -> (r: Bid)
    requires
        79 + 40 * i + 40 <= input@.len(),
    ensures
        r.escrow_address@ == address_at(input@, i as int),
        r.amount == amount_at(input@, i as int),
        bid_layout(r) == input@.subrange(79 + 40 * i, 79 + 40 * i + 40),
{
    proof {
        lemma_auto_spec_u64_to_from_le_bytes();
    }
    let _len = input.len();
    let at = 79 + 40 * i;
    let escrow_address: [u8; 32] = read_array(input, at);
    let amount = u64_from_le_bytes(&input[at + 32..at + 40]);
    let r = Bid { escrow_address, amount };
    assert(bid_layout(r) =~= input@.subrange(79 + 40 * i, 79 + 40 * i + 40));
    r
}

fn position_of(bids: &Vec<Bid>, a: &[u8; 32]) -> (r: Option<usize>)
    ensures
        r is Some ==> r.unwrap() < bids@.len() && bids@[r.unwrap() as int].escrow_address@ == a@,
        r is None ==> forall|j: int| 0 <= j < bids@.len() ==> #[trigger] bids@[j].escrow_address@ != a@,
{
    let mut k: usize = 0;
    while k < bids.len()
        invariant
            0 <= k <= bids@.len(),
            forall|j: int| 0 <= j < k ==> #[trigger] bids@[j].escrow_address@ != a@,
        decreases bids@.len() - k,
    {
        if same_address(&bids[k].escrow_address, a) {
            return Some(k);
        }
        k += 1;
    }
    None
}

/// Reads an auction record. Refused, with `PersistenceError`, unless the
/// buffer is exactly a packed record whose ledger keeps its invariant.
pub fn unpack_auction(input: &[u8]) -> (r: Result<AuctionData, AuctionError>)
    ensures
        r is Ok <==> auction_bytes_ok(input@),
        r is Err ==> r == Err::<AuctionData, AuctionError>(AuctionError::PersistenceError),
        r is Ok ==> r.unwrap().wf() && auction_layout(r.unwrap()) == input@,
{
    proof {
        lemma_auto_spec_u64_to_from_le_bytes();
        lemma_auto_spec_u32_to_from_le_bytes();
    }
    if input.len() < AUCTION_HEADER_LEN {
        return Err(AuctionError::PersistenceError);
    }
    let count = u32_from_le_bytes(&input[75..79]);
    let max = u64_from_le_bytes(&input[67..75]);
    if input.len() as u64 != 79 + 40 * (count as u64) {
        return Err(AuctionError::PersistenceError);
    }
    let end_time = match read_option_time(input, 40) {
        Some(t) => t,
        None => return Err(AuctionError::PersistenceError),
    };
    let gap_time = match read_option_time(input, 49) {
        Some(t) => t,
        None => return Err(AuctionError::PersistenceError),
    };
    let last_bid = match read_option_time(input, 58) {
        Some(t) => t,
        None => return Err(AuctionError::PersistenceError),
    };
    if max > usize::MAX as u64 || (count as u64) > max {
        return Err(AuctionError::PersistenceError);
    }
    let n = count as usize;
    let mut bids: Vec<Bid> = Vec::new();
    let mut i: usize = 0;
    while i < n
        invariant
            0 <= i <= n,
            n == bid_count_of(input@),
            input@.len() == 79 + 40 * n,
            bids@.len() == i,
            forall|j: int| 0 <= j < i ==> (#[trigger] bids@[j]).escrow_address@ == address_at(input@, j)
                && bids@[j].amount == amount_at(input@, j),
            forall|a: int, b: int| 0 <= a < b < i ==> #[trigger] amount_at(input@, a) >= #[trigger] amount_at(input@, b),
            forall|a: int, b: int|
                0 <= a < i && 0 <= b < i && a != b ==> #[trigger] address_at(input@, a) != #[trigger] address_at(input@, b),
            bids_layout(bids@) == input@.subrange(79, 79 + 40 * i),
        decreases n - i,
    {
        let b = read_bid(input, i);
        if i > 0 && b.amount > bids[i - 1].amount {
            assert(amount_at(input@, i - 1) < amount_at(input@, i as int));
            return Err(AuctionError::PersistenceError);
        }
        if let Some(k) = position_of(&bids, &b.escrow_address) {
            assert(address_at(input@, k as int) == address_at(input@, i as int));
            return Err(AuctionError::PersistenceError);
        }
        assert forall|a: int, c: int| 0 <= a < i + 1 && 0 <= c < i + 1 && a != c
            implies #[trigger] address_at(input@, a) != #[trigger] address_at(input@, c) by {
            if a == i {
                assert(bids@[c].escrow_address@ != b.escrow_address@);
            } else if c == i {
                assert(bids@[a].escrow_address@ != b.escrow_address@);
            }
        };
        proof {
            assert forall|a: int, c: int| 0 <= a < c < i + 1 implies #[trigger] amount_at(input@, a) >= #[trigger] amount_at(input@, c) by {
                if c == i && a < i - 1 {
                    assert(amount_at(input@, a) >= amount_at(input@, i - 1));
                }
            };
        }
        let ghost old_bids = bids@;
        bids.push(b);
        assert(bids@.drop_last() =~= old_bids);
        assert forall|j: int| 0 <= j < i + 1 implies (#[trigger] bids@[j]).escrow_address@ == address_at(input@, j)
            && bids@[j].amount == amount_at(input@, j) by {
            if j < i {
                assert(bids@[j] == old_bids[j]);
            }
        };
        assert(input@.subrange(79, 79 + 40 * (i + 1)) =~= input@.subrange(79, 79 + 40 * i) + input@.subrange(
            79 + 40 * i,
            79 + 40 * i + 40,
        ));
        i += 1;
    }
    let bid_state = BidState { bids, max: max as usize };
    let ghost s = bid_state.bids@;
    assert(is_ranked(s)) by {
        assert forall|a: int, c: int| 0 <= a < c < s.len() implies #[trigger] s[a].amount >= #[trigger] s[c].amount by {
            assert(amount_at(input@, a) >= amount_at(input@, c));
        };
    };
    assert(has_unique_bidders(s)) by {
        assert forall|a: int, c: int| 0 <= a < s.len() && 0 <= c < s.len() && a != c
            implies #[trigger] s[a].escrow_address@ != #[trigger] s[c].escrow_address@ by {
            assert(address_at(input@, a) != address_at(input@, c));
        };
    };
    let resource: [u8; 32] = read_array(input, 0);
    let start_time = read_time(input, 32);
    let a = AuctionData { resource, start_time, end_time, gap_time, last_bid, bid_state };
    assert(input@.subrange(67, 75) =~= spec_u64_to_le_bytes(max));
    assert(input@.subrange(75, 79) =~= spec_u32_to_le_bytes(count));
    assert(auction_layout(a) =~= input@);
    Ok(a)
}

/// Reads a bidder's metadata record; `PersistenceError` unless the buffer has
/// exactly the packed size.
pub fn unpack_bidder_metadata(input: &[u8]) -> (r: Result<BidderMetadata, AuctionError>)
    ensures
        r is Ok <==> input@.len() == BIDDER_METADATA_LEN,
        r is Err ==> r == Err::<BidderMetadata, AuctionError>(AuctionError::PersistenceError),
        r is Ok ==> metadata_layout(r.unwrap()) == input@,
{
    proof {
        lemma_auto_spec_u64_to_from_le_bytes();
    }
    if input.len() != BIDDER_METADATA_LEN {
        return Err(AuctionError::PersistenceError);
    }
    let m = BidderMetadata {
        bidder: read_array(input, 0),
        last_bid: u64_from_le_bytes(&input[32..40]),
        last_bid_timestamp: read_time(input, 40),
        total_contributed: u64_from_le_bytes(&input[48..56]),
    };
    assert(metadata_layout(m) =~= input@);
    Ok(m)
}

/// What the fields of a packed auction record read as, where the record is
/// the layout of `a`.
proof fn lemma_auction_layout_fields(a: AuctionData)
    ensures
        auction_layout(a).len() == 79 + 40 * a.bid_state.bids@.len(),
        a.bid_state.bids@.len() <= u32::MAX ==> bid_count_of(auction_layout(a)) == a.bid_state.bids@.len(),
        capacity_of(auction_layout(a)) == a.bid_state.max,
        auction_layout(a).subrange(0, 32) == a.resource@,
        auction_layout(a).subrange(32, 40) == i64_layout(a.start_time),
        auction_layout(a).subrange(40, 49) == option_time_layout(a.end_time),
        auction_layout(a).subrange(49, 58) == option_time_layout(a.gap_time),
        auction_layout(a).subrange(58, 67) == option_time_layout(a.last_bid),
        option_time_ok(auction_layout(a), 40),
        option_time_ok(auction_layout(a), 49),
        option_time_ok(auction_layout(a), 58),
        forall|i: int| 0 <= i < a.bid_state.bids@.len() ==> {
            &&& #[trigger] address_at(auction_layout(a), i) == a.bid_state.bids@[i].escrow_address@
            &&& amount_at(auction_layout(a), i) == a.bid_state.bids@[i].amount
        },
{
    lemma_auto_spec_u64_to_from_le_bytes();
    lemma_auto_spec_u32_to_from_le_bytes();
    let s = auction_layout(a);
    let bids = a.bid_state.bids@;
    lemma_bids_layout(bids);
    assert(s.subrange(0, 32) =~= a.resource@);
    assert(s.subrange(32, 40) =~= i64_layout(a.start_time));
    assert(s.subrange(40, 49) =~= option_time_layout(a.end_time));
    assert(s.subrange(49, 58) =~= option_time_layout(a.gap_time));
    assert(s.subrange(58, 67) =~= option_time_layout(a.last_bid));
    assert(s.subrange(67, 75) =~= spec_u64_to_le_bytes(a.bid_state.max as u64));
    assert(s.subrange(75, 79) =~= spec_u32_to_le_bytes(bids.len() as u32));
    assert(s.subrange(41, 49) =~= option_time_layout(a.end_time).subrange(1, 9));
    assert(s.subrange(50, 58) =~= option_time_layout(a.gap_time).subrange(1, 9));
    assert(s.subrange(59, 67) =~= option_time_layout(a.last_bid).subrange(1, 9));
    assert(zeros8() =~= (seq![0u8] + zeros8()).subrange(1, 9));
    assert forall|i: int| 0 <= i < bids.len() implies {
        &&& #[trigger] address_at(s, i) == bids[i].escrow_address@
        &&& amount_at(s, i) == bids[i].amount
    } by {
        let l = bids_layout(bids);
        assert(l.subrange(40 * i, 40 * i + 40) == bid_layout(bids[i]));
        assert(address_at(s, i) =~= bid_layout(bids[i]).subrange(0, 32));
        assert(s.subrange(79 + 40 * i + 32, 79 + 40 * i + 40) =~= bid_layout(bids[i]).subrange(32, 40));
        assert(bid_layout(bids[i]).subrange(32, 40) =~= spec_u64_to_le_bytes(bids[i].amount));
    };
}

/// A packed auction record holds exactly one auction: where two auctions pack
/// to the same bytes, they agree on every field and every bid.
pub proof fn lemma_auction_layout_injective(a: AuctionData, b: AuctionData)
    requires
        auction_layout(a) == auction_layout(b),
        a.bid_state.bids@.len() <= u32::MAX,
    ensures
        a.resource == b.resource,
        a.start_time == b.start_time,
        a.end_time == b.end_time,
        a.gap_time == b.gap_time,
        a.last_bid == b.last_bid,
        a.bid_state.max == b.bid_state.max,
        a.bid_state.bids@ == b.bid_state.bids@,
{
    broadcast use vstd::array::group_array_axioms;
    lemma_auto_spec_u64_to_from_le_bytes();
    lemma_auction_layout_fields(a);
    lemma_auction_layout_fields(b);
    assert(a.resource =~= b.resource);
    assert(spec_u64_from_le_bytes(i64_layout(a.start_time)) == i64_bits(a.start_time));
    assert(i64_of_bits(i64_bits(a.start_time)) == a.start_time);
    assert(i64_of_bits(i64_bits(b.start_time)) == b.start_time);
    assert forall|o: Option<i64>, p: Option<i64>| option_time_layout(o) == option_time_layout(p) implies o == p by {
        if option_time_layout(o) == option_time_layout(p) {
            assert(option_time_layout(o)[0] == option_time_layout(p)[0]);
            if o is Some && p is Some {
                assert(option_time_layout(o).subrange(1, 9) =~= i64_layout(o.unwrap()));
                assert(option_time_layout(p).subrange(1, 9) =~= i64_layout(p.unwrap()));
                assert(i64_of_bits(i64_bits(o.unwrap())) == o.unwrap());
                assert(i64_of_bits(i64_bits(p.unwrap())) == p.unwrap());
            }
        }
    };
    let sa = a.bid_state.bids@;
    let sb = b.bid_state.bids@;
    assert forall|i: int| 0 <= i < sa.len() implies sa[i] == sb[i] by {
        assert(address_at(auction_layout(a), i) == address_at(auction_layout(b), i));
        assert(sa[i].escrow_address =~= sb[i].escrow_address);
    };
    assert(sa =~= sb);
}

/// Packing an auction whose ledger keeps its invariant gives bytes that
/// reading accepts, and reading them back gives that auction: the record read
/// packs to the same bytes, so it agrees with the auction in every field.
pub proof fn lemma_auction_round_trip(a: AuctionData)
    requires
        a.wf(),
        a.bid_state.bids@.len() <= u32::MAX,
    ensures
        auction_bytes_ok(auction_layout(a)),
        forall|b: AuctionData| #[trigger] auction_layout(b) == auction_layout(a) ==> {
            &&& b.resource == a.resource
            &&& b.start_time == a.start_time
            &&& b.end_time == a.end_time
            &&& b.gap_time == a.gap_time
            &&& b.last_bid == a.last_bid
            &&& b.bid_state.max == a.bid_state.max
            &&& b.bid_state.bids@ == a.bid_state.bids@
        },
{
    lemma_auction_layout_fields(a);
    let s = auction_layout(a);
    let bids = a.bid_state.bids@;
    assert forall|i: int, j: int| 0 <= i < j < bid_count_of(s) implies #[trigger] amount_at(s, i) >= #[trigger] amount_at(s, j) by {
        assert(address_at(s, i) == bids[i].escrow_address@);
        assert(address_at(s, j) == bids[j].escrow_address@);
        assert(bids[i].amount >= bids[j].amount);
    };
    assert forall|i: int, j: int| 0 <= i < bid_count_of(s) && 0 <= j < bid_count_of(s) && i != j
        implies #[trigger] address_at(s, i) != #[trigger] address_at(s, j) by {
        assert(bids[i].escrow_address@ != bids[j].escrow_address@);
    };
    assert forall|b: AuctionData| #[trigger] auction_layout(b) == auction_layout(a) implies {
        &&& b.resource == a.resource
        &&& b.start_time == a.start_time
        &&& b.end_time == a.end_time
        &&& b.gap_time == a.gap_time
        &&& b.last_bid == a.last_bid
        &&& b.bid_state.max == a.bid_state.max
        &&& b.bid_state.bids@ == a.bid_state.bids@
    } by {
        lemma_auction_layout_injective(a, b);
    };
}

/// Packing a bidder's metadata and reading it back gives the same metadata.
pub proof fn lemma_bidder_metadata_round_trip(m: BidderMetadata, n: BidderMetadata)
    requires
        metadata_layout(m) == metadata_layout(n),
    ensures
        metadata_layout(m).len() == BIDDER_METADATA_LEN,
        m.bidder == n.bidder,
        m.last_bid == n.last_bid,
        m.last_bid_timestamp == n.last_bid_timestamp,
        m.total_contributed == n.total_contributed,
{
    broadcast use vstd::array::group_array_axioms;
    lemma_auto_spec_u64_to_from_le_bytes();
    let s = metadata_layout(m);
    let t = metadata_layout(n);
    assert(s.subrange(0, 32) =~= m.bidder@);
    assert(t.subrange(0, 32) =~= n.bidder@);
    assert(m.bidder =~= n.bidder);
    assert(s.subrange(32, 40) =~= spec_u64_to_le_bytes(m.last_bid));
    assert(t.subrange(32, 40) =~= spec_u64_to_le_bytes(n.last_bid));
    assert(s.subrange(40, 48) =~= i64_layout(m.last_bid_timestamp));
    assert(t.subrange(40, 48) =~= i64_layout(n.last_bid_timestamp));
    assert(i64_of_bits(i64_bits(m.last_bid_timestamp)) == m.last_bid_timestamp);
    assert(i64_of_bits(i64_bits(n.last_bid_timestamp)) == n.last_bid_timestamp);
    assert(s.subrange(48, 56) =~= spec_u64_to_le_bytes(m.total_contributed));
    assert(t.subrange(48, 56) =~= spec_u64_to_le_bytes(n.total_contributed));
}

} // verus!
