use blitz::{Blitz, DisplayStatus, Error, Notice, Outcome, Transfer};

const OWNER: &str = "GOWNER";
const PLATFORM: &str = "GPLATFORM";
const TOKEN: &str = "CTOKEN";
const ALICE: &str = "GALICE";
const BOB: &str = "GBOB";
const DAY: u64 = 86400;
const T0: u64 = 1_700_000_000;

fn s(x: &str) -> String {
    x.to_string()
}

fn initialized() -> Blitz {
    let mut b = Blitz::new();
    b.initialize(&s(OWNER), &s(PLATFORM), &s(TOKEN)).unwrap();
    b
}

fn started() -> Blitz {
    let mut b = initialized();
    b.start_auction(&s(OWNER), T0).unwrap();
    b
}

fn deposit(o: &Outcome, i: usize) -> (String, i128) {
    match &o.transfers[i] {
        Transfer::Deposit { from, amount } => (from.clone(), *amount),
        Transfer::Payout { .. } => panic!("expected a deposit"),
    }
}

fn payout(o: &Outcome, i: usize) -> (String, i128) {
    match &o.transfers[i] {
        Transfer::Payout { to, amount } => (to.clone(), *amount),
        Transfer::Deposit { .. } => panic!("expected a payout"),
    }
}

#[test]
fn scenario_full_auction_round() {
    let mut b = initialized();
    b.start_auction(&s(OWNER), T0).unwrap();
    let cur = b.get_current_auction();
    assert_eq!(cur.auction_id, 1);
    assert_eq!(cur.starting_time, T0);
    assert_eq!(cur.ending_time, T0 + 86400);

    let o = b.place_bid(&s(ALICE), 10_000_000, &s("https://a.example"), T0 + 10).unwrap();
    assert_eq!(o.transfers.len(), 1);
    assert_eq!(deposit(&o, 0), (s(ALICE), 10_000_000));

    let r = b.place_bid(&s(BOB), 10_999_999, &s("https://b.example"), T0 + 20);
    assert_eq!(r.unwrap_err(), Error::BidTooLow);
    assert_eq!(b.get_current_auction().highest_bid, 10_000_000);
    assert_eq!(b.get_current_auction().highest_bidder, ALICE);

    let o = b.place_bid(&s(BOB), 11_000_000, &s("https://b.example"), T0 + 30).unwrap();
    assert_eq!(o.transfers.len(), 2);
    assert_eq!(payout(&o, 0), (s(ALICE), 10_000_000));
    assert_eq!(deposit(&o, 1), (s(BOB), 11_000_000));

    let close_time = T0 + DAY + 1;
    let o = b.end_auction(close_time).unwrap();
    assert_eq!(o.transfers.len(), 1);
    assert_eq!(payout(&o, 0), (s(PLATFORM), 11_000_000));
    let cur = b.get_current_auction();
    assert!(cur.is_ended);
    assert_eq!(cur.url_expiry_time, close_time + 86400);
    assert_eq!(b.get_qr_url(close_time), "https://b.example");
    assert_eq!(b.get_qr_url(close_time + 86399), "https://b.example");
    assert_eq!(b.get_qr_url(close_time + 86400), "");
}

#[test]
fn initialize_twice_is_refused() {
    let mut b = initialized();
    let r = b.initialize(&s(ALICE), &s(ALICE), &s(ALICE));
    assert_eq!(r.unwrap_err(), Error::AlreadyInitialized);
    assert_eq!(b.get_contract_info().owner, OWNER);
}

#[test]
fn initialize_sets_defaults() {
    let mut b = Blitz::new();
    assert_eq!(b.get_auction_counter(), 0);
    let o = b.initialize(&s(OWNER), &s(PLATFORM), &s(TOKEN)).unwrap();
    assert!(o.transfers.is_empty());
    assert!(matches!(&o.notices[0], Notice::Initialized { owner, .. } if owner == OWNER));
    let info = b.get_contract_info();
    assert_eq!(info.platform_wallet, PLATFORM);
    assert_eq!(info.token_address, TOKEN);
    assert_eq!(info.auction_counter, 0);
    assert_eq!(info.min_bid_increment, 1_000_000);
    assert_eq!(info.min_starting_bid, 10_000_000);
    let cur = b.get_current_auction();
    assert_eq!(cur.starting_time, 0);
    assert!(cur.is_ended);
    assert_eq!(cur.highest_bidder, OWNER);
    assert_eq!(b.get_minimum_bid(), 10_000_000);
}

#[test]
fn bid_without_started_auction() {
    let mut b = Blitz::new();
    let r = b.place_bid(&s(ALICE), 10_000_000, &s("u"), T0);
    assert_eq!(r.unwrap_err(), Error::NoActiveAuction);
    let mut b = initialized();
    let r = b.place_bid(&s(ALICE), 10_000_000, &s("u"), T0);
    assert_eq!(r.unwrap_err(), Error::NoActiveAuction);
}

#[test]
fn bid_after_end_time() {
    let mut b = started();
    let r = b.place_bid(&s(ALICE), 10_000_000, &s("u"), T0 + DAY);
    assert_eq!(r.unwrap_err(), Error::AuctionEnded);
}

#[test]
fn bid_with_empty_url() {
    let mut b = started();
    let r = b.place_bid(&s(ALICE), 10_000_000, &s(""), T0 + 1);
    assert_eq!(r.unwrap_err(), Error::EmptyUrl);
}

#[test]
fn low_bid_changes_nothing() {
    let mut b = started();
    b.place_bid(&s(ALICE), 12_000_000, &s("a"), T0 + 1).unwrap();
    let r = b.place_bid(&s(BOB), 12_999_999, &s("b"), T0 + 2);
    assert_eq!(r.unwrap_err(), Error::BidTooLow);
    let cur = b.get_current_auction();
    assert_eq!(cur.highest_bid, 12_000_000);
    assert_eq!(cur.highest_bidder, ALICE);
    assert_eq!(cur.preferred_url, "a");
    assert_eq!(b.get_minimum_bid(), 13_000_000);
}

#[test]
fn starting_bid_below_minimum() {
    let mut b = started();
    let r = b.place_bid(&s(ALICE), 9_999_999, &s("a"), T0 + 1);
    assert_eq!(r.unwrap_err(), Error::BidTooLow);
}

#[test]
fn bid_overflowing_minimum_is_too_low() {
    let mut b = started();
    b.place_bid(&s(ALICE), i128::MAX - 10, &s("a"), T0 + 1).unwrap();
    let r = b.place_bid(&s(BOB), i128::MAX, &s("b"), T0 + 2);
    assert_eq!(r.unwrap_err(), Error::BidTooLow);
}

#[test]
fn self_rebid_gets_no_refund() {
    let mut b = started();
    b.place_bid(&s(ALICE), 10_000_000, &s("a"), T0 + 1).unwrap();
    let o = b.place_bid(&s(ALICE), 11_000_000, &s("a2"), T0 + 2).unwrap();
    assert_eq!(o.transfers.len(), 1);
    assert_eq!(deposit(&o, 0), (s(ALICE), 11_000_000));
    assert_eq!(b.get_current_auction().highest_bid, 11_000_000);
    assert_eq!(b.get_current_auction_url(T0 + 3), "a2");
}

#[test]
fn escrow_follows_the_highest_bidder() {
    let mut b = started();
    let mut escrow: i128 = 0;
    let bids = [(ALICE, 10_000_000), (BOB, 11_000_000), (ALICE, 12_500_000), (BOB, 20_000_000)];
    for (i, (who, amount)) in bids.iter().enumerate() {
        let o = b.place_bid(&s(who), *amount, &s("u"), T0 + 1 + i as u64).unwrap();
        for t in &o.transfers {
            match t {
                Transfer::Deposit { amount, .. } => escrow += amount,
                Transfer::Payout { amount, .. } => escrow -= amount,
            }
        }
        assert_eq!(escrow, b.get_current_auction().highest_bid);
    }
    let o = b.end_auction(T0 + DAY + 5).unwrap();
    assert_eq!(payout(&o, 0), (s(PLATFORM), 20_000_000));
    escrow -= 20_000_000;
    assert_eq!(escrow, 0);
}

#[test]
fn end_auction_errors() {
    let mut b = initialized();
    assert_eq!(b.end_auction(T0).unwrap_err(), Error::NoAuctionToEnd);
    b.start_auction(&s(OWNER), T0).unwrap();
    b.place_bid(&s(ALICE), 10_000_000, &s("a"), T0 + 1).unwrap();
    assert_eq!(b.end_auction(T0 + DAY).unwrap_err(), Error::AuctionNotEnded);
    let cur = b.get_current_auction();
    assert!(!cur.is_ended);
    assert_eq!(cur.highest_bid, 10_000_000);
    b.end_auction(T0 + DAY + 1).unwrap();
    assert_eq!(b.end_auction(T0 + DAY + 2).unwrap_err(), Error::AlreadyEnded);
}

#[test]
fn end_without_bids_moves_nothing() {
    let mut b = started();
    let o = b.end_auction(T0 + DAY + 1).unwrap();
    assert!(o.transfers.is_empty());
    assert!(matches!(&o.notices[0], Notice::Ended { amount: 0, .. }));
}

#[test]
fn start_requires_owner() {
    let mut b = initialized();
    assert_eq!(b.start_auction(&s(ALICE), T0).unwrap_err(), Error::Unauthorized);
    assert_eq!(b.get_auction_counter(), 0);
}

#[test]
fn start_closes_a_stale_auction() {
    let mut b = started();
    b.place_bid(&s(ALICE), 10_000_000, &s("a"), T0 + 1).unwrap();
    let later = T0 + DAY + 100;
    let o = b.start_auction(&s(OWNER), later).unwrap();
    assert_eq!(payout(&o, 0), (s(PLATFORM), 10_000_000));
    assert_eq!(o.notices.len(), 2);
    assert!(matches!(&o.notices[1], Notice::Started { auction_id: 2, .. }));
    let last = b.get_last_auction();
    assert_eq!(last.auction_id, 1);
    assert!(last.is_ended);
    assert_eq!(last.url_expiry_time, later + DAY);
    let cur = b.get_current_auction();
    assert_eq!(cur.auction_id, 2);
    assert!(b.is_auction_active(later));
    assert_eq!(b.get_auction(1).unwrap().highest_bid, 10_000_000);
}

#[test]
fn ids_increase_and_history_is_bounded() {
    let mut b = initialized();
    let mut now = T0;
    for id in 1..=7u64 {
        b.start_auction(&s(OWNER), now).unwrap();
        assert_eq!(b.get_current_auction().auction_id, id);
        now += DAY + 1;
        b.end_auction(now).unwrap();
    }
    assert_eq!(b.get_auction_counter(), 7);
    let h = b.get_auction_history();
    let ids: Vec<u64> = h.iter().map(|a| a.auction_id).collect();
    assert_eq!(ids, vec![1, 2, 3, 4, 5]);
    assert!(b.get_auction(0).is_none());
    assert!(b.get_auction(6).is_none());
    assert!(b.get_auction(7).is_none());
    assert_eq!(b.get_auction(5).unwrap().auction_id, 5);
}

#[test]
fn history_empty_before_any_close() {
    let b = started();
    assert!(b.get_auction_history().is_empty());
    assert!(b.get_auction(1).is_none());
}

#[test]
fn time_remaining_and_activity() {
    let mut b = started();
    assert!(b.is_auction_active(T0));
    assert_eq!(b.get_time_remaining(T0), DAY);
    assert_eq!(b.get_time_remaining(T0 + 400), DAY - 400);
    assert_eq!(b.get_time_remaining(T0 + DAY), 0);
    assert!(!b.is_auction_active(T0 + DAY));
    b.end_auction(T0 + DAY + 1).unwrap();
    assert_eq!(b.get_time_remaining(T0 + DAY + 1), 0);
}

#[test]
fn display_status_follows_sources() {
    let mut b = started();
    assert_eq!(b.get_display_status(T0 + 1), DisplayStatus::Default);
    let st = b.get_qr_url_status(T0 + 1);
    assert_eq!((st.status.as_str(), st.source.as_str()), ("default", "Default"));
    assert_eq!(b.get_qr_url_expiry_time(T0 + 1), 0);

    b.place_bid(&s(ALICE), 10_000_000, &s("https://a"), T0 + 2).unwrap();
    let st = b.get_qr_url_status(T0 + 3);
    assert_eq!((st.status.as_str(), st.source.as_str()), ("auction_active", "Current Auction"));
    assert_eq!(b.get_current_auction_url(T0 + 3), "https://a");
    assert_eq!(b.get_qr_url_expiry_time(T0 + 3), T0 + 2 * DAY);
    assert_eq!(b.get_qr_url(T0 + 3), "");
    assert!(!b.has_active_qr_url(T0 + 3));

    let close = T0 + DAY + 10;
    b.end_auction(close).unwrap();
    let st = b.get_qr_url_status(close + 1);
    assert_eq!((st.status.as_str(), st.source.as_str()), ("winner_display", "Winner Display"));
    assert!(b.has_active_qr_url(close + 1));
    assert_eq!(b.get_current_auction_url(close + 1), "");
    assert_eq!(b.get_qr_url_expiry_time(close + 1), close + DAY);
    assert_eq!(b.get_qr_url_expiry_time(close + DAY), 0);
    assert_eq!(b.get_display_status(close + DAY), DisplayStatus::Default);
}

#[test]
fn reads_are_repeatable() {
    let mut b = started();
    b.place_bid(&s(ALICE), 10_000_000, &s("https://a"), T0 + 2).unwrap();
    for now in [T0 + 5, T0 + DAY, T0 + 3 * DAY] {
        let a = b.get_auction_summary(now);
        let c = b.get_auction_summary(now);
        assert_eq!(a.is_active, c.is_active);
        assert_eq!(a.time_remaining, c.time_remaining);
        assert_eq!(a.qr_url, c.qr_url);
        assert_eq!(a.has_active_qr, c.has_active_qr);
        assert_eq!(a.current_auction.highest_bid, c.current_auction.highest_bid);
        assert_eq!(b.get_minimum_bid(), b.get_minimum_bid());
        assert_eq!(b.get_qr_url_expiry_time(now), b.get_qr_url_expiry_time(now));
    }
}

#[test]
fn summary_bundles_reads() {
    let mut b = started();
    b.place_bid(&s(BOB), 15_000_000, &s("https://b"), T0 + 2).unwrap();
    b.end_auction(T0 + DAY + 1).unwrap();
    let sum = b.get_auction_summary(T0 + DAY + 2);
    assert!(!sum.is_active);
    assert_eq!(sum.time_remaining, 0);
    assert!(sum.has_active_qr);
    assert_eq!(sum.qr_url, "https://b");
    assert_eq!(sum.last_auction.highest_bidder, BOB);
    assert!(sum.current_auction.is_ended);
}

#[test]
fn owner_setters() {
    let mut b = initialized();
    assert_eq!(b.set_min_bid_increment(&s(ALICE), 5).unwrap_err(), Error::Unauthorized);
    assert_eq!(b.set_min_starting_bid(&s(ALICE), 5).unwrap_err(), Error::Unauthorized);
    assert_eq!(b.set_platform_wallet(&s(ALICE), &s(ALICE)).unwrap_err(), Error::Unauthorized);
    assert_eq!(b.transfer_ownership(&s(ALICE), &s(ALICE)).unwrap_err(), Error::Unauthorized);

    b.set_min_bid_increment(&s(OWNER), 500).unwrap();
    b.set_min_starting_bid(&s(OWNER), 2_000).unwrap();
    let o = b.set_platform_wallet(&s(OWNER), &s(BOB)).unwrap();
    assert!(matches!(&o.notices[0], Notice::PlatformWallet { wallet } if wallet == BOB));
    let info = b.get_contract_info();
    assert_eq!((info.min_bid_increment, info.min_starting_bid), (500, 2_000));
    assert_eq!(info.platform_wallet, BOB);

    let o = b.transfer_ownership(&s(OWNER), &s(ALICE)).unwrap();
    assert!(matches!(&o.notices[0], Notice::OwnerChanged { previous, owner } if previous == OWNER && owner == ALICE));
    assert_eq!(b.start_auction(&s(OWNER), T0).unwrap_err(), Error::Unauthorized);
    b.start_auction(&s(ALICE), T0).unwrap();
    assert_eq!(b.get_minimum_bid(), 2_000);
    b.place_bid(&s(BOB), 2_000, &s("x"), T0 + 1).unwrap();
    assert_eq!(b.get_minimum_bid(), 2_500);
    let o = b.end_auction(T0 + DAY + 1).unwrap();
    assert_eq!(payout(&o, 0), (s(BOB), 2_000));
}

#[test]
fn bid_notice_carries_the_bid() {
    let mut b = started();
    let o = b.place_bid(&s(ALICE), 10_000_000, &s("https://a"), T0 + 7).unwrap();
    match &o.notices[0] {
        Notice::BidPlaced { auction_id, bidder, amount, preferred_url, time } => {
            assert_eq!(*auction_id, 1);
            assert_eq!(bidder, ALICE);
            assert_eq!(*amount, 10_000_000);
            assert_eq!(preferred_url, "https://a");
            assert_eq!(*time, T0 + 7);
        }
        _ => panic!("expected a bid notice"),
    }
}

#[test]
fn restore_round_trips_and_rejects_inconsistent_parts() {
    let mut b = started();
    b.place_bid(&s(ALICE), 10_000_000, &s("a"), T0 + 1).unwrap();
    b.end_auction(T0 + DAY + 1).unwrap();
    let (info, current, last, history) = b.into_parts();
    assert_eq!(history.len(), 6);
    assert!(history[1].is_some());
    let mut again = Blitz::restore(info.clone(), current.clone(), last.clone(), history.clone()).unwrap();
    assert_eq!(again.get_auction(1).unwrap().highest_bid, 10_000_000);
    assert_eq!(again.end_auction(T0 + DAY + 2).unwrap_err(), Error::AlreadyEnded);

    let short: Vec<Option<blitz::Auction>> = history[..5].to_vec();
    assert!(Blitz::restore(info.clone(), current.clone(), last.clone(), short).is_none());
    let mut open_last = last.clone();
    open_last.is_ended = false;
    assert!(Blitz::restore(info.clone(), current.clone(), open_last, history.clone()).is_none());
    let mut future = current.clone();
    future.auction_id = 9;
    assert!(Blitz::restore(info, future, last, history).is_none());
}
