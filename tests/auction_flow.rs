use auction_sol::auction::{
    bid, close, has_elapsed, start, Auction, Bidding, CloseAuction, Errors, Settlement,
    StartAuction, Transfer,
};
use auction_sol::identity::Identity;

fn who(b: u8) -> Identity {
    Identity::new([b; 32])
}

fn open(name: &str, item: &str, min_bid: u8, duration: u8, now: i64) -> Auction {
    let ctx = StartAuction { creator: who(1) };
    start(&ctx, name.to_string(), item.to_string(), min_bid, duration, now).unwrap()
}

fn place(auction: Auction, bidder: Identity, amount: u8) -> (Auction, Result<(), Errors>) {
    let mut ctx = Bidding { auction, bidder };
    let r = bid(&mut ctx, "itemA".to_string(), amount);
    (ctx.auction, r)
}

fn settle(
    auction: Auction,
    winner: Identity,
    creator: Identity,
    now: i64,
) -> (Auction, Result<Settlement, Errors>) {
    let mut ctx = CloseAuction { auction, winner, creator };
    let r = close(&mut ctx, "itemA".to_string(), now);
    (ctx.auction, r)
}

#[test]
fn open_sets_initial_record() {
    let a = open("itemA", "widget", 5, 1, 1_000);
    assert!(!a.has_ended);
    assert_eq!(a.winner, None);
    assert_eq!(a.last_bid, 5);
    assert_eq!(a.creator, who(1));
    assert_eq!(a.name, "itemA");
    assert_eq!(a.name_of_item, "widget");
    assert_eq!(a.duration, 1);
    assert_eq!(a.started_at, 1_000);
}

#[test]
fn full_scenario() {
    let bidder1 = who(2);
    let bidder2 = who(3);
    let a = open("itemA", "widget", 5, 1, 1_000);

    let (a, r) = place(a, bidder1, 6);
    assert_eq!(r, Ok(()));
    assert_eq!(a.winner, Some(bidder1));

    let (a, r) = place(a, bidder2, 6);
    assert_eq!(r, Err(Errors::InsufficientBid));
    assert_eq!(a.winner, Some(bidder1));
    assert_eq!(a.last_bid, 6);

    let (a, r) = place(a, bidder2, 10);
    assert_eq!(r, Ok(()));
    assert_eq!(a.winner, Some(bidder2));
    assert_eq!(a.last_bid, 10);

    let (a, r) = settle(a, bidder2, who(1), 1_059);
    assert_eq!(r, Err(Errors::HasNotClosed));
    assert!(!a.has_ended);

    let (a, r) = settle(a, bidder2, who(1), 1_060);
    let expected = Settlement {
        transfer: Some(Transfer { from: bidder2, to: who(1), amount: 10 }),
        reclaim_to: who(1),
    };
    assert_eq!(r, Ok(expected));
    assert!(a.has_ended);
}

#[test]
fn eleven_character_name_is_refused() {
    let ctx = StartAuction { creator: who(1) };
    let r = start(&ctx, "abcdefghijk".to_string(), "widget".to_string(), 5, 1, 0);
    assert_eq!(r.unwrap_err(), Errors::MaxStrLenExceeded);
    let r = start(&ctx, "itemA".to_string(), "abcdefghijk".to_string(), 5, 1, 0);
    assert_eq!(r.unwrap_err(), Errors::MaxStrLenExceeded);
}

#[test]
fn ten_character_names_are_accepted() {
    let a = open("abcdefghij", "0123456789", 0, 0, 0);
    assert_eq!(a.name.len(), 10);
}

#[test]
fn name_bound_counts_characters() {
    let a = open("éééééééééé", "widget", 0, 0, 0);
    assert_eq!(a.name.chars().count(), 10);
}

#[test]
fn low_bid_changes_nothing() {
    let a = open("itemA", "widget", 5, 1, 0);
    let (b, r) = place(a.clone(), who(2), 5);
    assert_eq!(r, Err(Errors::InsufficientBid));
    assert_eq!(b.last_bid, 5);
    assert_eq!(b.winner, None);
    let (c, r) = place(b, who(2), 0);
    assert_eq!(r, Err(Errors::InsufficientBid));
    assert_eq!(c.last_bid, 5);
}

#[test]
fn bid_on_ended_auction_fails() {
    let a = open("itemA", "widget", 5, 0, 0);
    let (a, r) = settle(a, who(9), who(1), 0);
    assert!(r.is_ok());
    let (b, r) = place(a, who(2), 200);
    assert_eq!(r, Err(Errors::HasClosed));
    assert!(b.has_ended);
    assert_eq!(b.last_bid, 5);
    assert_eq!(b.winner, None);
}

#[test]
fn ended_auction_cannot_close_again() {
    let a = open("itemA", "widget", 5, 0, 0);
    let (a, r) = place(a, who(2), 7);
    assert!(r.is_ok());
    let (a, r) = settle(a, who(2), who(1), 30);
    assert!(r.is_ok());
    let (_, r) = settle(a, who(2), who(1), 90);
    assert_eq!(r, Err(Errors::HasClosed));
}

#[test]
fn close_without_bids_transfers_nothing() {
    let a = open("itemA", "widget", 5, 2, 0);
    let (a, r) = settle(a, who(4), who(1), 120);
    assert_eq!(r, Ok(Settlement { transfer: None, reclaim_to: who(1) }));
    assert!(a.has_ended);
}

#[test]
fn close_refuses_wrong_creator_or_winner() {
    let a = open("itemA", "widget", 5, 1, 0);
    let (a, _) = place(a, who(2), 9);
    let (a, r) = settle(a, who(2), who(5), 60);
    assert_eq!(r, Err(Errors::NotCreator));
    assert!(!a.has_ended);
    let (a, r) = settle(a, who(3), who(1), 60);
    assert_eq!(r, Err(Errors::NotWinner));
    assert!(!a.has_ended);
}

#[test]
fn bids_strictly_increase() {
    let mut a = open("itemA", "widget", 0, 1, 0);
    let mut last = 0u8;
    for (i, amount) in [1u8, 3, 2, 3, 8, 255, 255].iter().enumerate() {
        let (next, r) = place(a, who(i as u8), *amount);
        if r.is_ok() {
            assert!(next.last_bid > last);
            assert_eq!(next.winner, Some(who(i as u8)));
        } else {
            assert_eq!(next.last_bid, last);
        }
        last = next.last_bid;
        a = next;
    }
    assert_eq!(a.last_bid, 255);
    assert_eq!(a.winner, Some(who(5)));
}

#[test]
fn elapsed_minutes_truncate() {
    assert!(!has_elapsed(0, 1, 59));
    assert!(has_elapsed(0, 1, 60));
    assert!(has_elapsed(0, 2, 179));
    assert!(!has_elapsed(0, 3, 179));
    assert!(has_elapsed(100, 0, 41));
    assert!(!has_elapsed(100, 0, 40));
    assert!(!has_elapsed(100, 1, 40));
    assert!(has_elapsed(i64::MIN, 255, i64::MAX));
    assert!(!has_elapsed(i64::MAX, 0, i64::MIN));
}

#[test]
fn largest_bid_transfers_in_full() {
    let a = open("itemA", "widget", 254, 255, 0);
    let (a, r) = place(a, who(2), 255);
    assert!(r.is_ok());
    let (_, r) = settle(a.clone(), who(2), who(1), 255 * 60 - 1);
    assert_eq!(r, Err(Errors::HasNotClosed));
    let (_, r) = settle(a, who(2), who(1), 255 * 60);
    assert_eq!(r.unwrap().transfer.unwrap().amount, 255);
}

#[test]
fn error_messages() {
    assert_eq!(Errors::InsufficientBid.msg(), "The current bid must exceed the previous bid");
    assert_eq!(Errors::MaxStrLenExceeded.msg(), "String is too long");
    assert_eq!(Errors::HasClosed.msg(), "Auction has closed");
    assert_eq!(Errors::HasNotClosed.msg(), "Auction has not closed");
    assert_eq!(Errors::NotCreator.msg(), "Cannot perform this operation");
    assert_eq!(Errors::NotWinner.msg(), "Only the winning bidder can settle");
}

#[test]
fn identities_compare_by_bytes() {
    let mut k = [7u8; 32];
    assert_eq!(Identity::new(k), who(7));
    k[31] = 8;
    assert_ne!(Identity::new(k), who(7));
    assert_eq!(Identity::new(k).to_bytes(), k);
}
