//! The bid ledger: the active bids of one auction, highest first, at most one
//! per bidder and never more than the ledger's capacity.
use vstd::prelude::*;

use crate::bytes::same_address;
use crate::error::AuctionError;

verus! {

/// A bid: the escrow address that holds the bidder's funds, and the amount.
#[derive(Clone, Copy, Debug)]
pub struct Bid {
    pub escrow_address: [u8; 32],
    pub amount: u64,
}

/// Each bid ranks at or above every bid after it.
pub open spec fn is_ranked(s: Seq<Bid>) -> bool {
    forall|i: int, j: int| 0 <= i < j < s.len() ==> #[trigger] s[i].amount >= #[trigger] s[j].amount
}

/// No two bids share an escrow address.
pub open spec fn has_unique_bidders(s: Seq<Bid>) -> bool {
    forall|i: int, j: int|
        0 <= i < s.len() && 0 <= j < s.len() && i != j
            ==> #[trigger] s[i].escrow_address@ != #[trigger] s[j].escrow_address@
}

/// Some bid of `s` belongs to the escrow address `a`.
pub open spec fn holds_bidder(s: Seq<Bid>, a: Seq<u8>) -> bool {
    exists|i: int| 0 <= i < s.len() && #[trigger] s[i].escrow_address@ == a
}

/// The position of the bid of escrow address `a` (meaningful where `holds_bidder`).
pub open spec fn bidder_index(s: Seq<Bid>, a: Seq<u8>) -> int {
    choose|i: int| 0 <= i < s.len() && #[trigger] s[i].escrow_address@ == a
}

/// `s` without the bid of escrow address `a`, if it holds one.
pub open spec fn without_bidder(s: Seq<Bid>, a: Seq<u8>) -> Seq<Bid> {
    if holds_bidder(s, a) {
        s.remove(bidder_index(s, a))
    } else {
        s
    }
}

/// `i` is where a bid of `amount` ranks in `s`: after every bid of at least that
/// amount that came earlier, before the first bid of a smaller amount.
pub open spec fn is_slot(s: Seq<Bid>, amount: u64, i: int) -> bool {
    &&& 0 <= i <= s.len()
    &&& forall|j: int| 0 <= j < i ==> #[trigger] s[j].amount >= amount
    &&& i < s.len() ==> s[i].amount < amount
}

/// The position at which a bid of `amount` enters `s`.
pub open spec fn slot_for(s: Seq<Bid>, amount: u64) -> int {
    choose|i: int| is_slot(s, amount, i)
}

/// `s` cut down to its first `n` bids.
pub open spec fn capped(s: Seq<Bid>, n: nat) -> Seq<Bid> {
    if s.len() > n {
        s.take(n as int)
    } else {
        s
    }
}

/// The bid improves on its bidder's active bid in `s`, or the bidder has none.
pub open spec fn improves_own_bid(s: Seq<Bid>, b: Bid) -> bool {
    holds_bidder(s, b.escrow_address@) ==> s[bidder_index(s, b.escrow_address@)].amount < b.amount
}

/// The ledger `s` of capacity `n` after it accepts `b`: the bidder's earlier
/// bid leaves, `b` enters at its rank, and the lowest bid beyond the capacity
/// is pruned.
pub open spec fn ledger_after(s: Seq<Bid>, b: Bid, n: nat) -> Seq<Bid> {
    let rest = without_bidder(s, b.escrow_address@);
    capped(rest.insert(slot_for(rest, b.amount), b), n)
}

/// Taking the bid of escrow address `a` out of a ranked ledger with one bid per
/// bidder leaves it ranked, with one bid per bidder and none of `a`.
proof fn lemma_without_bidder(s: Seq<Bid>, a: Seq<u8>)
    requires
        is_ranked(s),
        has_unique_bidders(s),
    ensures
        is_ranked(without_bidder(s, a)),
        has_unique_bidders(without_bidder(s, a)),
        without_bidder(s, a).len() <= s.len(),
        forall|j: int| 0 <= j < without_bidder(s, a).len() ==> #[trigger] without_bidder(s, a)[j].escrow_address@ != a,
{
    if holds_bidder(s, a) {
        let k = bidder_index(s, a);
        let r = s.remove(k);
        assert forall|j: int| 0 <= j < r.len() implies #[trigger] r[j].escrow_address@ != a by {
            if j < k {
                assert(r[j] == s[j]);
            } else {
                assert(r[j] == s[j + 1]);
            }
        };
        assert forall|i: int, j: int| 0 <= i < j < r.len() implies #[trigger] r[i].amount >= #[trigger] r[j].amount by {
            let i1 = if i < k { i } else { i + 1 };
            let j1 = if j < k { j } else { j + 1 };
            assert(r[i] == s[i1]);
            assert(r[j] == s[j1]);
        };
        assert forall|i: int, j: int| 0 <= i < r.len() && 0 <= j < r.len() && i != j
            implies #[trigger] r[i].escrow_address@ != #[trigger] r[j].escrow_address@ by {
            let i1 = if i < k { i } else { i + 1 };
            let j1 = if j < k { j } else { j + 1 };
            assert(r[i] == s[i1]);
            assert(r[j] == s[j1]);
        };
    } else {
        assert forall|j: int| 0 <= j < s.len() implies #[trigger] s[j].escrow_address@ != a by {
            if s[j].escrow_address@ == a {
                assert(holds_bidder(s, a));
            }
        };
    }
}

/// Every ledger has a position for a bid of any amount.
proof fn lemma_slot_exists(s: Seq<Bid>, amount: u64)
    ensures
        is_slot(s, amount, slot_for(s, amount)),
    decreases s.len(),
{
    if s.len() == 0 {
        assert(is_slot(s, amount, 0));
    } else {
        let t = s.drop_last();
        lemma_slot_exists(t, amount);
        let i = slot_for(t, amount);
        if i < t.len() {
            assert(t[i] == s[i]);
            assert forall|j: int| 0 <= j < i implies #[trigger] s[j].amount >= amount by {
                assert(t[j] == s[j]);
            };
            assert(is_slot(s, amount, i));
        } else if s.last().amount >= amount {
            assert forall|j: int| 0 <= j < s.len() implies #[trigger] s[j].amount >= amount by {
                if j < t.len() {
                    assert(t[j] == s[j]);
                }
            };
            assert(is_slot(s, amount, s.len() as int));
        } else {
            assert forall|j: int| 0 <= j < t.len() implies #[trigger] s[j].amount >= amount by {
                assert(t[j] == s[j]);
            };
            assert(is_slot(s, amount, t.len() as int));
        }
    }
}

/// Entering a bid at its rank keeps a ledger ranked and, where the bidder had
/// no bid in it, with one bid per bidder.
proof fn lemma_insert_at_slot(s: Seq<Bid>, b: Bid)
    requires
        is_ranked(s),
        has_unique_bidders(s),
        forall|j: int| 0 <= j < s.len() ==> #[trigger] s[j].escrow_address@ != b.escrow_address@,
    ensures
        is_ranked(s.insert(slot_for(s, b.amount), b)),
        has_unique_bidders(s.insert(slot_for(s, b.amount), b)),
        s.insert(slot_for(s, b.amount), b).len() == s.len() + 1,
{
    lemma_slot_exists(s, b.amount);
    let p = slot_for(s, b.amount);
    let s2 = s.insert(p, b);
    assert forall|i: int, j: int| 0 <= i < j < s2.len() implies #[trigger] s2[i].amount >= #[trigger] s2[j].amount by {
        if j < p {
        } else if j == p {
        } else if i < p {
            assert(s2[j] == s[j - 1]);
        } else if i == p {
            assert(s2[j] == s[j - 1]);
            assert(s[p].amount >= s[j - 1].amount);
        } else {
            assert(s2[i] == s[i - 1]);
            assert(s2[j] == s[j - 1]);
        }
    };
    assert forall|i: int, j: int| 0 <= i < s2.len() && 0 <= j < s2.len() && i != j
        implies #[trigger] s2[i].escrow_address@ != #[trigger] s2[j].escrow_address@ by {
        if i != p && j != p {
            let i1 = if i < p { i } else { i - 1 };
            let j1 = if j < p { j } else { j - 1 };
            assert(s2[i] == s[i1]);
            assert(s2[j] == s[j1]);
        } else if i == p {
            let j1 = if j < p { j } else { j - 1 };
            assert(s2[j] == s[j1]);
        } else {
            let i1 = if i < p { i } else { i - 1 };
            assert(s2[i] == s[i1]);
        }
    };
}

/// Accepting a bid keeps a ledger within its capacity, ranked, and with at most
/// one bid per bidder.
pub proof fn lemma_ledger_after_keeps_invariant(s: Seq<Bid>, b: Bid, n: nat)
    requires
        s.len() <= n,
        is_ranked(s),
        has_unique_bidders(s),
    ensures
        ledger_after(s, b, n).len() <= n,
        is_ranked(ledger_after(s, b, n)),
        has_unique_bidders(ledger_after(s, b, n)),
{
    let rest = without_bidder(s, b.escrow_address@);
    lemma_without_bidder(s, b.escrow_address@);
    lemma_insert_at_slot(rest, b);
    let s2 = rest.insert(slot_for(rest, b.amount), b);
    if s2.len() > n {
        let t = s2.take(n as int);
        assert forall|i: int, j: int| 0 <= i < j < t.len() implies #[trigger] t[i].amount >= #[trigger] t[j].amount by {
            assert(t[i] == s2[i]);
            assert(t[j] == s2[j]);
        };
        assert forall|i: int, j: int| 0 <= i < t.len() && 0 <= j < t.len() && i != j
            implies #[trigger] t[i].escrow_address@ != #[trigger] t[j].escrow_address@ by {
            assert(t[i] == s2[i]);
            assert(t[j] == s2[j]);
        };
    }
}

/// The ledger of capacity `n` that starts as `s` and is offered `bids` in turn:
/// each bid that improves on its bidder's active bid is accepted, the others
/// are refused.
pub open spec fn ledger_after_bids(s: Seq<Bid>, bids: Seq<Bid>, n: nat) -> Seq<Bid>
    decreases bids.len(),
{
    if bids.len() == 0 {
        s
    } else {
        let prev = ledger_after_bids(s, bids.drop_last(), n);
        if improves_own_bid(prev, bids.last()) {
            ledger_after(prev, bids.last(), n)
        } else {
            prev
        }
    }
}

/// For every sequence of bids offered to an empty ledger of capacity `n`, the
/// ledger never holds more than `n` bids, stays ranked highest first, and holds
/// at most one bid per bidder.
pub proof fn lemma_ledger_invariant_for_all_bids(bids: Seq<Bid>, n: nat)
    ensures
        ledger_after_bids(Seq::empty(), bids, n).len() <= n,
        is_ranked(ledger_after_bids(Seq::empty(), bids, n)),
        has_unique_bidders(ledger_after_bids(Seq::empty(), bids, n)),
    decreases bids.len(),
{
    if bids.len() > 0 {
        lemma_ledger_invariant_for_all_bids(bids.drop_last(), n);
        let prev = ledger_after_bids(Seq::empty(), bids.drop_last(), n);
        lemma_ledger_after_keeps_invariant(prev, bids.last(), n);
    }
}

/// The active bids of one auction.
#[derive(Clone, Debug)]
pub struct BidState {
    /// The bids, highest first.
    pub bids: Vec<Bid>,
    /// How many bids the ledger keeps.
    pub max: usize,
}

impl BidState {
    /// The ledger's invariant: bounded by its capacity, ranked, one bid per bidder.
    pub open spec fn wf(&self) -> bool {
        &&& self.bids@.len() <= self.max
        &&& is_ranked(self.bids@)
        &&& has_unique_bidders(self.bids@)
    }

    /// An empty ledger that keeps at most `max` bids.
    pub fn new(max: usize) -> (r: BidState)
        ensures
            r.wf(),
            r.bids@ == Seq::<Bid>::empty(),
            r.max == max,
    {
        BidState { bids: Vec::new(), max }
    }

    /// The position of the bid of escrow address `a`, if the ledger holds one.
    pub fn find_bidder(&self, a: &[u8; 32]) -> (r: Option<usize>)
        requires
            self.wf(),
        ensures
            r.is_some() == holds_bidder(self.bids@, a@),
            r.is_some() ==> r.unwrap() == bidder_index(self.bids@, a@),
    {
        let mut i: usize = 0;
        while i < self.bids.len()
            invariant
                self.wf(),
                0 <= i <= self.bids@.len(),
                forall|j: int| 0 <= j < i ==> #[trigger] self.bids@[j].escrow_address@ != a@,
            decreases self.bids@.len() - i,
        {
            if same_address(&self.bids[i].escrow_address, a) {
                assert(self.bids@[i as int].escrow_address@ == a@);
                assert(holds_bidder(self.bids@, a@));
                let ghost k = bidder_index(self.bids@, a@);
                assert(k == i) by {
                    if k != i {
                        assert(self.bids@[k].escrow_address@ != self.bids@[i as int].escrow_address@);
                    }
                };
                return Some(i);
            }
            i += 1;
        }
        None
    }

    /// The position at which a bid of `amount` enters the ledger.
    fn find_slot(&self, amount: u64) -> (r: usize)
        ensures
            r == slot_for(self.bids@, amount),
            is_slot(self.bids@, amount, r as int),
    {
        let mut i: usize = 0;
        while i < self.bids.len() && self.bids[i].amount >= amount
            invariant
                0 <= i <= self.bids@.len(),
                forall|j: int| 0 <= j < i ==> #[trigger] self.bids@[j].amount >= amount,
            decreases self.bids@.len() - i,
        {
            i += 1;
        }
        assert(is_slot(self.bids@, amount, i as int));
        let ghost k = slot_for(self.bids@, amount);
        assert(k == i) by {
            assert(is_slot(self.bids@, amount, k));
            if k < i {
                assert(self.bids@[k].amount >= amount);
            } else if k > i {
                assert(self.bids@[i as int].amount >= amount);
            }
        };
        i
    }

    /// Accepts `bid`: the bidder's earlier bid, if any, is replaced, the new bid
    /// takes its rank (after earlier bids of the same amount), and the lowest
    /// bid beyond the capacity is pruned. A bid that does not exceed the
    /// bidder's own active bid is refused and the ledger stays as it was.
    pub fn place_bid(&mut self, bid: Bid) -> (r: Result<(), AuctionError>)
        requires
            old(self).wf(),
        ensures
            final(self).wf(),
            final(self).max == old(self).max,
            r is Ok <==> improves_own_bid(old(self).bids@, bid),
            r is Ok ==> final(self).bids@ == ledger_after(old(self).bids@, bid, old(self).max as nat),
            r is Err ==> r == Err::<(), AuctionError>(AuctionError::BidTooSmall) && final(self).bids@ == old(self).bids@,
    {
        let ghost s0 = self.bids@;
        match self.find_bidder(&bid.escrow_address) {
            Some(i) => {
                if self.bids[i].amount >= bid.amount {
                    return Err(AuctionError::BidTooSmall);
                }
                self.bids.remove(i);
                assert(self.bids@ == without_bidder(s0, bid.escrow_address@));
            },
            None => {
                assert(self.bids@ == without_bidder(s0, bid.escrow_address@));
            },
        }
        let ghost s1 = self.bids@;
        proof {
            lemma_without_bidder(s0, bid.escrow_address@);
        }
        let p = self.find_slot(bid.amount);
        self.bids.insert(p, bid);
        let ghost s2 = self.bids@;
        proof {
            lemma_insert_at_slot(s1, bid);
        }
        if self.bids.len() > self.max {
            self.bids.pop();
            assert(self.bids@ =~= s2.take(self.max as int));
        }
        Ok(())
    }

    /// The highest bid, if the ledger holds any.
    pub fn winner(&self) -> (r: Option<Bid>)
        ensures
            r.is_some() == (self.bids@.len() > 0),
            r.is_some() ==> r.unwrap() == self.bids@[0],
    {
        if self.bids.len() == 0 {
            None
        } else {
            Some(self.bids[0])
        }
    }
}

} // verus!
