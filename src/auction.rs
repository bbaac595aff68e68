use vstd::prelude::*;
use vstd::string::StrSliceExecFns;

use crate::identity::{lemma_identity_eq, Identity};

verus! {

/// Longest name, in characters, that an auction or its item may have.
pub const MAX_STR_LEN: usize = 10;

/// Seconds in one minute of auction time.
pub const SECONDS_PER_MINUTE: i64 = 60;

/// Why a transition was refused. A refused transition changes nothing.
#[derive(Clone, Copy, Debug, PartialEq, Eq, Structural)]
pub enum Errors {
    /// The bid does not exceed the current highest bid.
    InsufficientBid,
    /// A name is longer than `MAX_STR_LEN` characters.
    MaxStrLenExceeded,
    /// The auction has already been closed.
    HasClosed,
    /// The auction's duration has not yet elapsed.
    HasNotClosed,
    /// The identity given as creator is not the auction's creator.
    NotCreator,
    /// The identity given as winner is not the auction's highest bidder.
    NotWinner,
}

impl Errors {
    /// The message shown to a caller for this error.
    pub fn msg(&self) -> (r: &'static str)
        ensures
            r@ == errors_msg(*self),
    {
        match self {
            Errors::InsufficientBid => "The current bid must exceed the previous bid",
            Errors::MaxStrLenExceeded => "String is too long",
            Errors::HasClosed => "Auction has closed",
            Errors::HasNotClosed => "Auction has not closed",
            Errors::NotCreator => "Cannot perform this operation",
            Errors::NotWinner => "Only the winning bidder can settle",
        }
    }
}

/// The message of each error.
pub open spec fn errors_msg(e: Errors) -> Seq<char> {
    match e {
        Errors::InsufficientBid => "The current bid must exceed the previous bid"@,
        Errors::MaxStrLenExceeded => "String is too long"@,
        Errors::HasClosed => "Auction has closed"@,
        Errors::HasNotClosed => "Auction has not closed"@,
        Errors::NotCreator => "Cannot perform this operation"@,
        Errors::NotWinner => "Only the winning bidder can settle"@,
    }
}

/// The persisted record of one auction, addressed by its `name`.
#[derive(Clone, Debug)]
pub struct Auction {
    /// Who opened the auction; receives the proceeds.
    pub creator: Identity,
    /// The auction's key.
    pub name: String,
    /// Minutes from `started_at` until the auction may be closed.
    pub duration: u8,
    /// Unix time, in seconds, at which the auction was opened.
    pub started_at: i64,
    /// Set once, by `close`; no transition succeeds after it.
    pub has_ended: bool,
    /// What is being sold.
    pub name_of_item: String,
    /// The highest bid so far; the minimum bid while nobody has bid.
    pub last_bid: u8,
    /// The highest bidder, absent while nobody has bid.
    pub winner: Option<Identity>,
}

/// A name is accepted when it has at most `MAX_STR_LEN` characters.
pub open spec fn name_fits(s: Seq<char>) -> bool {
    s.len() <= MAX_STR_LEN
}

impl Auction {
    /// Both names fit the bound that `start` enforces.
    pub open spec fn wf(&self) -> bool {
        name_fits(self.name@) && name_fits(self.name_of_item@)
    }
}

/// Whole minutes from `started_at` to `now`, the quotient truncated toward zero.
pub open spec fn elapsed_minutes(started_at: i64, now: i64) -> int {
    let d = now - started_at;
    if d >= 0 {
        d / (SECONDS_PER_MINUTE as int)
    } else {
        -((-d) / (SECONDS_PER_MINUTE as int))
    }
}

/// `close` is allowed once the elapsed whole minutes reach the duration.
pub open spec fn duration_elapsed(a: Auction, now: i64) -> bool {
    elapsed_minutes(a.started_at, now) >= a.duration
}

/// What a bid of `amount` by `bidder` does to the record `a`.
pub open spec fn bid_outcome(a: Auction, bidder: Identity, amount: u8) -> Result<Auction, Errors> {
    if a.has_ended {
        Err(Errors::HasClosed)
    } else if amount <= a.last_bid {
        Err(Errors::InsufficientBid)
    } else {
        Ok(Auction { last_bid: amount, winner: Some(bidder), ..a })
    }
}

/// A movement of `amount` units of value from `from` to `to`.
#[derive(Clone, Copy, Debug, PartialEq, Eq)]
pub struct Transfer {
    pub from: Identity,
    pub to: Identity,
    pub amount: u64,
}

/// What closing an auction leaves for the ledger and the store to carry out:
/// the transfer of the final bid, if anybody bid, and the identity to which
/// the record's storage is handed back when the record is discarded.
#[derive(Clone, Copy, Debug, PartialEq, Eq)]
pub struct Settlement {
    pub transfer: Option<Transfer>,
    pub reclaim_to: Identity,
}

/// What closing `a` at time `now` yields, with `winner` and `creator` as the
/// identities that the caller gives as the transfer's two ends.
pub open spec fn close_outcome(a: Auction, winner: Identity, creator: Identity, now: i64) -> Result<
    Settlement,
    Errors,
> {
    if !duration_elapsed(a, now) {
        Err(Errors::HasNotClosed)
    } else if a.has_ended {
        Err(Errors::HasClosed)
    } else if creator != a.creator {
        Err(Errors::NotCreator)
    } else {
        match a.winner {
            Some(w) => if winner != w {
                Err(Errors::NotWinner)
            } else {
                Ok(
                    Settlement {
                        transfer: Some(Transfer { from: w, to: a.creator, amount: a.last_bid as u64 }),
                        reclaim_to: a.creator,
                    },
                )
            },
            None => Ok(Settlement { transfer: None, reclaim_to: a.creator }),
        }
    }
}

/// The accounts that opening an auction involves.
pub struct StartAuction {
    /// The caller, who becomes the creator.
    pub creator: Identity,
}

/// The accounts that a bid involves.
pub struct Bidding {
    /// The record bid on.
    pub auction: Auction,
    /// The caller, who places the bid.
    pub bidder: Identity,
}

/// The accounts that closing an auction involves.
pub struct CloseAuction {
    /// The record closed.
    pub auction: Auction,
    /// The identity that pays the final bid.
    pub winner: Identity,
    /// The identity that receives it.
    pub creator: Identity,
}

/// Whether a string has at most `MAX_STR_LEN` characters.
fn fits(s: &String) -> (r: bool)
    ensures
        r == name_fits(s@),
{
    s.as_str().unicode_len() <= MAX_STR_LEN
}

/// Whether the whole minutes elapsed from `started_at` to `now` reach `duration`.
pub fn has_elapsed(started_at: i64, duration: u8, now: i64) -> (r: bool)
    ensures
        r == (elapsed_minutes(started_at, now) >= duration),
{
    let d: i128 = now as i128 - started_at as i128;
    if d >= 0 {
        (d as u128) / (SECONDS_PER_MINUTE as u128) >= duration as u128
    } else {
        duration == 0 && ((0 - d) as u128) / (SECONDS_PER_MINUTE as u128) == 0
    }
}

/// Opens an auction named `name` for `name_of_item`, at time `now`.
///
/// Fails with `MaxStrLenExceeded` when either name has more than `MAX_STR_LEN`
/// characters; otherwise the new record is open, has no winner, holds
/// `min_bid` as its highest bid and `ctx.creator` as its creator.
pub fn start(
    ctx: &StartAuction,
    name: String,
    name_of_item: String,
    min_bid: u8,
    duration: u8,
    now: i64,
) -> (r: Result<Auction, Errors>)
    ensures
        r is Err <==> !(name_fits(name@) && name_fits(name_of_item@)),
        r is Err ==> r == Err::<Auction, Errors>(Errors::MaxStrLenExceeded),
        r matches Ok(a) ==> {
            &&& a.wf()
            &&& a.creator == ctx.creator
            &&& a.name@ == name@
            &&& a.name_of_item@ == name_of_item@
            &&& a.duration == duration
            &&& a.started_at == now
            &&& !a.has_ended
            &&& a.last_bid == min_bid
            &&& a.winner is None
        },
{
    if !fits(&name) {
        return Err(Errors::MaxStrLenExceeded);
    }
    if !fits(&name_of_item) {
        return Err(Errors::MaxStrLenExceeded);
    }
    Ok(
        Auction {
            creator: ctx.creator,
            name,
            duration,
            started_at: now,
            has_ended: false,
            name_of_item,
            last_bid: min_bid,
            winner: None,
        },
    )
}

/// Places a bid of `amount` by `ctx.bidder` on `ctx.auction`, the record
/// addressed by `name`.
///
/// Fails with `HasClosed` on a closed auction, then with `InsufficientBid`
/// unless `amount` exceeds the highest bid; a refused bid changes nothing.
/// An accepted bid becomes the highest and its bidder the winner.
pub fn bid(ctx: &mut Bidding, name: String, amount: u8) -> (r: Result<(), Errors>)
    ensures
        final(ctx).bidder == old(ctx).bidder,
        match bid_outcome(old(ctx).auction, old(ctx).bidder, amount) {
            Ok(a) => r is Ok && final(ctx).auction == a,
            Err(e) => r == Err::<(), Errors>(e) && final(ctx).auction == old(ctx).auction,
        },
        old(ctx).auction.has_ended ==> r == Err::<(), Errors>(Errors::HasClosed),
        !old(ctx).auction.has_ended && amount <= old(ctx).auction.last_bid ==> r == Err::<
            (),
            Errors,
        >(Errors::InsufficientBid),
        r is Ok ==> {
            &&& final(ctx).auction.last_bid == amount
            &&& amount > old(ctx).auction.last_bid
            &&& final(ctx).auction.winner == Some(old(ctx).bidder)
        },
        old(ctx).auction.wf() ==> final(ctx).auction.wf(),
{
    if ctx.auction.has_ended {
        return Err(Errors::HasClosed);
    }
    if amount <= ctx.auction.last_bid {
        return Err(Errors::InsufficientBid);
    }
    ctx.auction.last_bid = amount;
    ctx.auction.winner = Some(ctx.bidder);
    Ok(())
}

/// Closes `ctx.auction`, the record addressed by `name`, at time `now`.
///
/// Fails with `HasNotClosed` before `duration` whole minutes have elapsed
/// since the start, then with `HasClosed` if it was closed already, then with
/// `NotCreator` or `NotWinner` when `ctx.creator` or `ctx.winner` is not the
/// record's creator or highest bidder; a refused close changes nothing.
/// Otherwise the record is marked ended and the settlement returned: the
/// highest bid is owed by the winner to the creator, or nothing is owed when
/// nobody bid. The caller carries out the transfer and discards the record in
/// the same atomic step; if the transfer fails, the whole step is undone.
pub fn close(ctx: &mut CloseAuction, name: String, now: i64) -> (r: Result<Settlement, Errors>)
    ensures
        final(ctx).winner == old(ctx).winner,
        final(ctx).creator == old(ctx).creator,
        match close_outcome(old(ctx).auction, old(ctx).winner, old(ctx).creator, now) {
            Ok(s) => r == Ok::<Settlement, Errors>(s) && final(ctx).auction == (Auction {
                has_ended: true,
                ..old(ctx).auction
            }),
            Err(e) => r == Err::<Settlement, Errors>(e) && final(ctx).auction == old(ctx).auction,
        },
        !duration_elapsed(old(ctx).auction, now) ==> r == Err::<Settlement, Errors>(
            Errors::HasNotClosed,
        ),
        r matches Ok(s) ==> {
            &&& final(ctx).auction.has_ended
            &&& s.reclaim_to == old(ctx).auction.creator
            &&& old(ctx).auction.winner matches Some(w) ==> s.transfer == Some(
                Transfer { from: w, to: old(ctx).auction.creator, amount: old(ctx).auction.last_bid as u64 },
            )
            &&& old(ctx).auction.winner is None ==> s.transfer is None
        },
        old(ctx).auction.wf() ==> final(ctx).auction.wf(),
{
    if !has_elapsed(ctx.auction.started_at, ctx.auction.duration, now) {
        return Err(Errors::HasNotClosed);
    }
    if ctx.auction.has_ended {
        return Err(Errors::HasClosed);
    }
    proof {
        lemma_identity_eq(ctx.creator, ctx.auction.creator);
    }
    if !(ctx.creator == ctx.auction.creator) {
        return Err(Errors::NotCreator);
    }
    let creator = ctx.auction.creator;
    let transfer = match ctx.auction.winner {
        Some(w) => {
            proof {
                lemma_identity_eq(ctx.winner, w);
            }
            if !(ctx.winner == w) {
                return Err(Errors::NotWinner);
            }
            Some(Transfer { from: w, to: creator, amount: ctx.auction.last_bid as u64 })
        },
        None => None,
    };
    ctx.auction.has_ended = true;
    Ok(Settlement { transfer, reclaim_to: creator })
}

} // verus!
