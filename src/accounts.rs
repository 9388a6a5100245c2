//! The addresses of a bidder's escrow and metadata records: each is derived
//! from the program, the auction and the bidder alone, so that anyone can
//! derive it again.
use vstd::prelude::*;

use crate::bytes::same_address;
use crate::error::AuctionError;

verus! {

/// The address and bump seed that the host derives from `seeds` under the
/// program `program`, or none where no bump seed gives an address.
pub uninterp spec fn program_address_of(seeds: Seq<Seq<u8>>, program: Seq<u8>) -> Option<(Seq<u8>, u8)>;

/// Relies on solana_program's `Pubkey::try_find_program_address`: the program
/// address and bump seed for the seeds under the program id, or `None` where no
/// bump seed yields one. The result depends on its arguments alone.
#[verifier::external_body]
pub(crate) fn find_program_address(seeds: &Vec<Vec<u8>>, program: &[u8; 32]) -> (r: Option<([u8; 32], u8)>)
    ensures
        r.is_some() == program_address_of(seeds@.map_values(|v: Vec<u8>| v@), program@).is_some(),
        r.is_some() ==> program_address_of(seeds@.map_values(|v: Vec<u8>| v@), program@)
            == Some((r.unwrap().0@, r.unwrap().1)),
{
    let refs: Vec<&[u8]> = seeds.iter().map(|s| s.as_slice()).collect();
    let program = solana_program::pubkey::Pubkey::new_from_array(*program);
    solana_program::pubkey::Pubkey::try_find_program_address(&refs, &program)
        .map(|(key, bump)| (key.to_bytes(), bump))
}

/// The seed that starts every address of the auction program: "auction".
pub open spec fn auction_prefix() -> Seq<u8> {
    seq![97u8, 117u8, 99u8, 116u8, 105u8, 111u8, 110u8]
}

/// The seed that tells a metadata record from an escrow: "metadata".
pub open spec fn metadata_tag() -> Seq<u8> {
    seq![109u8, 101u8, 116u8, 97u8, 100u8, 97u8, 116u8, 97u8]
}

/// The seeds of the escrow of `bidder` in `auction`.
pub open spec fn escrow_seeds(program: Seq<u8>, auction: Seq<u8>, bidder: Seq<u8>) -> Seq<Seq<u8>> {
    seq![auction_prefix(), program, auction, bidder]
}

/// The seeds of the metadata record of `bidder` in `auction`.
pub open spec fn metadata_seeds(program: Seq<u8>, auction: Seq<u8>, bidder: Seq<u8>) -> Seq<Seq<u8>> {
    seq![auction_prefix(), program, auction, bidder, metadata_tag()]
}

/// `r` is the derived address `d`, both present or both absent.
pub open spec fn is_derived(r: Option<([u8; 32], u8)>, d: Option<(Seq<u8>, u8)>) -> bool {
    &&& r.is_some() == d.is_some()
    &&& r.is_some() ==> d == Some((r.unwrap().0@, r.unwrap().1))
}

fn prefix_seed() -> (r: Vec<u8>)
    ensures
        r@ == auction_prefix(),
{
    let r: Vec<u8> = vec![97u8, 117u8, 99u8, 116u8, 105u8, 111u8, 110u8];
    assert(r@ =~= auction_prefix());
    r
}

fn metadata_seed() -> (r: Vec<u8>)
    ensures
        r@ == metadata_tag(),
{
    let r: Vec<u8> = vec![109u8, 101u8, 116u8, 97u8, 100u8, 97u8, 116u8, 97u8];
    assert(r@ =~= metadata_tag());
    r
}

pub(crate) fn key_seed(k: &[u8; 32]) -> (r: Vec<u8>)
    ensures
        r@ == k@,
{
    let mut r: Vec<u8> = Vec::new();
    let mut i: usize = 0;
    while i < 32
        invariant
            0 <= i <= 32,
            k@.len() == 32,
            r@ == k@.take(i as int),
        decreases 32 - i,
    {
        r.push(k[i]);
        assert(k@.take(i as int + 1) =~= k@.take(i as int).push(k@[i as int]));
        i += 1;
    }
    assert(k@.take(32) =~= k@);
    r
}

/// The address of the escrow that holds the funds of `bidder` in `auction`.
pub fn escrow_address(program: &[u8; 32], auction: &[u8; 32], bidder: &[u8; 32]) -> (r: Option<([u8; 32], u8)>)
    ensures
        is_derived(r, program_address_of(escrow_seeds(program@, auction@, bidder@), program@)),
{
    let seeds: Vec<Vec<u8>> = vec![prefix_seed(), key_seed(program), key_seed(auction), key_seed(bidder)];
    assert(seeds@.map_values(|v: Vec<u8>| v@) =~= escrow_seeds(program@, auction@, bidder@));
    find_program_address(&seeds, program)
}

/// The address of the metadata record of `bidder` in `auction`.
pub fn metadata_address(program: &[u8; 32], auction: &[u8; 32], bidder: &[u8; 32]) -> (r: Option<([u8; 32], u8)>)
    ensures
        is_derived(r, program_address_of(metadata_seeds(program@, auction@, bidder@), program@)),
{
    let seeds: Vec<Vec<u8>> = vec![
        prefix_seed(),
        key_seed(program),
        key_seed(auction),
        key_seed(bidder),
        metadata_seed(),
    ];
    assert(seeds@.map_values(|v: Vec<u8>| v@) =~= metadata_seeds(program@, auction@, bidder@));
    find_program_address(&seeds, program)
}

/// The bump seeds of a bidder's escrow and metadata addresses.
#[derive(Clone, Copy, Debug)]
pub struct BidAccounts {
    pub escrow_bump: u8,
    pub metadata_bump: u8,
}

/// The escrow address `escrow` and the metadata address `metadata` that a
/// caller names are those derived for `bidder` in `auction`.
pub open spec fn accounts_match(
    program: Seq<u8>,
    auction: Seq<u8>,
    bidder: Seq<u8>,
    escrow: Seq<u8>,
    metadata: Seq<u8>,
) -> bool {
    let e = program_address_of(escrow_seeds(program, auction, bidder), program);
    let m = program_address_of(metadata_seeds(program, auction, bidder), program);
    &&& e.is_some() && e.unwrap().0 == escrow
    &&& m.is_some() && m.unwrap().0 == metadata
}

/// Checks that the escrow and metadata addresses a caller names are those
/// derived for `bidder` in `auction`; `ValidationError` where either is not.
pub fn check_bid_accounts(
    program: &[u8; 32],
    auction: &[u8; 32],
    bidder: &[u8; 32],
    escrow: &[u8; 32],
    metadata: &[u8; 32],
) -> (r: Result<BidAccounts, AuctionError>)
    ensures
        r is Ok <==> accounts_match(program@, auction@, bidder@, escrow@, metadata@),
        r is Err ==> r == Err::<BidAccounts, AuctionError>(AuctionError::ValidationError),
        r is Ok ==> program_address_of(escrow_seeds(program@, auction@, bidder@), program@)
            == Some((escrow@, r.unwrap().escrow_bump)),
        r is Ok ==> program_address_of(metadata_seeds(program@, auction@, bidder@), program@)
            == Some((metadata@, r.unwrap().metadata_bump)),
{
    let e = match escrow_address(program, auction, bidder) {
        Some(e) => e,
        None => return Err(AuctionError::ValidationError),
    };
    if !same_address(&e.0, escrow) {
        return Err(AuctionError::ValidationError);
    }
    let m = match metadata_address(program, auction, bidder) {
        Some(m) => m,
        None => return Err(AuctionError::ValidationError),
    };
    if !same_address(&m.0, metadata) {
        return Err(AuctionError::ValidationError);
    }
    Ok(BidAccounts { escrow_bump: e.1, metadata_bump: m.1 })
}

} // verus!
