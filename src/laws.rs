use vstd::prelude::*;

use crate::auction::{bid_outcome, close_outcome, Auction, Errors};
use crate::identity::Identity;

verus! {

/// The record after the first `k` bids of `bids` (bidder, amount), each
/// applied when accepted and ignored when refused.
pub open spec fn after_bids(a: Auction, bids: Seq<(Identity, u8)>, k: nat) -> Auction
    decreases k,
{
    if k == 0 {
        a
    } else {
        let prev = after_bids(a, bids, (k - 1) as nat);
        match bid_outcome(prev, bids[k - 1].0, bids[k - 1].1) {
            Ok(next) => next,
            Err(_) => prev,
        }
    }
}

/// Every bid of `bids` is accepted in turn, starting from `a`.
pub open spec fn all_accepted(a: Auction, bids: Seq<(Identity, u8)>) -> bool {
    forall|i: int|
        0 <= i < bids.len() ==> #[trigger] bid_outcome(after_bids(a, bids, i as nat), bids[i].0, bids[i].1) is Ok
}

/// After each accepted bid, the highest bid is that bid's amount and the
/// winner is that bid's bidder.
proof fn lemma_accepted_step(a: Auction, bids: Seq<(Identity, u8)>, i: int)
    requires
        all_accepted(a, bids),
        0 <= i < bids.len(),
    ensures
        after_bids(a, bids, (i + 1) as nat).last_bid == bids[i].1,
        after_bids(a, bids, (i + 1) as nat).winner == Some(bids[i].0),
        bids[i].1 > after_bids(a, bids, i as nat).last_bid,
{
    assert(bid_outcome(after_bids(a, bids, i as nat), bids[i].0, bids[i].1) is Ok);
}

/// Along accepted bids the highest bid never falls.
proof fn lemma_last_bid_monotone(a: Auction, bids: Seq<(Identity, u8)>, i: nat, j: nat)
    requires
        all_accepted(a, bids),
        i <= j <= bids.len(),
    ensures
        after_bids(a, bids, i).last_bid <= after_bids(a, bids, j).last_bid,
    decreases j - i,
{
    if i < j {
        lemma_last_bid_monotone(a, bids, i, (j - 1) as nat);
        lemma_accepted_step(a, bids, j - 1);
    }
}

/// Along any sequence of accepted bids, the amounts strictly increase, the
/// highest bid after each one is its amount, and the winner after each one is
/// its bidder.
pub proof fn lemma_accepted_bids_increase(a: Auction, bids: Seq<(Identity, u8)>)
    requires
        all_accepted(a, bids),
    ensures
        forall|i: int, j: int| 0 <= i < j < bids.len() ==> bids[i].1 < bids[j].1,
        forall|i: int|
            0 <= i < bids.len() ==> {
                &&& #[trigger] after_bids(a, bids, (i + 1) as nat).last_bid == bids[i].1
                &&& after_bids(a, bids, (i + 1) as nat).winner == Some(bids[i].0)
            },
        bids.len() > 0 ==> after_bids(a, bids, bids.len()).winner == Some(bids.last().0),
        a.last_bid <= after_bids(a, bids, bids.len()).last_bid,
{
    assert forall|i: int, j: int| 0 <= i < j < bids.len() implies bids[i].1 < bids[j].1 by {
        lemma_accepted_step(a, bids, i);
        lemma_last_bid_monotone(a, bids, (i + 1) as nat, j as nat);
        lemma_accepted_step(a, bids, j);
    }
    assert forall|i: int| 0 <= i < bids.len() implies {
        &&& #[trigger] after_bids(a, bids, (i + 1) as nat).last_bid == bids[i].1
        &&& after_bids(a, bids, (i + 1) as nat).winner == Some(bids[i].0)
    } by {
        lemma_accepted_step(a, bids, i);
    }
    if bids.len() > 0 {
        lemma_accepted_step(a, bids, bids.len() - 1);
    }
    lemma_last_bid_monotone(a, bids, 0, bids.len());
}

/// Starting from a record without a winner, whatever bids come, accepted or
/// refused, the record has a winner exactly when its highest bid has risen
/// above the opening one; while it has none, the highest bid is the opening one.
pub proof fn lemma_winner_iff_bid_accepted(a: Auction, bids: Seq<(Identity, u8)>, k: nat)
    requires
        a.winner is None,
        k <= bids.len(),
    ensures
        after_bids(a, bids, k).winner is Some <==> after_bids(a, bids, k).last_bid > a.last_bid,
        after_bids(a, bids, k).winner is None ==> after_bids(a, bids, k).last_bid == a.last_bid,
    decreases k,
{
    if k > 0 {
        lemma_winner_iff_bid_accepted(a, bids, (k - 1) as nat);
    }
}

/// Once an auction has ended, no bid and no close succeeds on it.
pub proof fn lemma_ended_is_terminal(
    a: Auction,
    bidder: Identity,
    amount: u8,
    winner: Identity,
    creator: Identity,
    now: i64,
)
    requires
        a.has_ended,
    ensures
        bid_outcome(a, bidder, amount) == Err::<Auction, Errors>(Errors::HasClosed),
        close_outcome(a, winner, creator, now) is Err,
{
}

} // verus!
