use vstd::prelude::*;

verus! {

/// Length of an auction, in seconds (24 hours).
pub const AUCTION_DURATION: u64 = 86400;

/// How long the winner's URL stays on display after the close, in seconds (24 hours).
pub const URL_DISPLAY_DURATION: u64 = 86400;

/// Minimum raise over the highest bid set at initialization (0.1 XLM in stroops).
pub const DEFAULT_MIN_BID_INCREMENT: i128 = 1000000;

/// Minimum first bid set at initialization (1 XLM in stroops).
pub const DEFAULT_MIN_STARTING_BID: i128 = 10000000;

/// Latest timestamp at which a state transition may run: every deadline it
/// computes (end of bidding, end of the display window) must fit in a `u64`.
pub const LATEST_TIME: u64 = u64::MAX - AUCTION_DURATION - URL_DISPLAY_DURATION;

/// One auction record. Identities are held as the text of their address.
#[derive(Debug)]
pub struct Auction {
    pub auction_id: u64,
    pub starting_time: u64,
    pub ending_time: u64,
    pub highest_bid: i128,
    pub highest_bidder: String,
    pub preferred_url: String,
    pub is_ended: bool,
    pub url_expiry_time: u64,
}

/// The mathematical value of an [`Auction`].
pub struct AuctionView {
    pub auction_id: u64,
    pub starting_time: u64,
    pub ending_time: u64,
    pub highest_bid: i128,
    pub highest_bidder: Seq<char>,
    pub preferred_url: Seq<char>,
    pub is_ended: bool,
    pub url_expiry_time: u64,
}

impl View for Auction {
    type V = AuctionView;

    open spec fn view(&self) -> AuctionView {
        AuctionView {
            auction_id: self.auction_id,
            starting_time: self.starting_time,
            ending_time: self.ending_time,
            highest_bid: self.highest_bid,
            highest_bidder: self.highest_bidder@,
            preferred_url: self.preferred_url@,
            is_ended: self.is_ended,
            url_expiry_time: self.url_expiry_time,
        }
    }
}

impl Clone for Auction {
    fn clone(&self) -> (r: Self)
        ensures
            r == *self,
    {
        Auction {
            auction_id: self.auction_id,
            starting_time: self.starting_time,
            ending_time: self.ending_time,
            highest_bid: self.highest_bid,
            highest_bidder: self.highest_bidder.clone(),
            preferred_url: self.preferred_url.clone(),
            is_ended: self.is_ended,
            url_expiry_time: self.url_expiry_time,
        }
    }
}

/// The placeholder record of a slot that never started: closed, no bid, and
/// `placeholder` (conventionally the owner) as its nominal bidder.
pub open spec fn empty_auction(placeholder: Seq<char>) -> AuctionView {
    AuctionView {
        auction_id: 0,
        starting_time: 0,
        ending_time: 0,
        highest_bid: 0,
        highest_bidder: placeholder,
        preferred_url: Seq::empty(),
        is_ended: true,
        url_expiry_time: 0,
    }
}

/// A freshly opened auction: bidding runs from `now` for one auction duration.
pub open spec fn fresh_auction(id: u64, owner: Seq<char>, now: u64) -> AuctionView {
    AuctionView {
        auction_id: id,
        starting_time: now,
        ending_time: (now + AUCTION_DURATION) as u64,
        highest_bid: 0,
        highest_bidder: owner,
        preferred_url: Seq::empty(),
        is_ended: false,
        url_expiry_time: 0,
    }
}

/// The record after a bid of `amount` by `bidder` became the highest.
pub open spec fn with_bid(a: AuctionView, bidder: Seq<char>, amount: i128, url: Seq<char>) -> AuctionView {
    AuctionView { highest_bid: amount, highest_bidder: bidder, preferred_url: url, ..a }
}

/// The record after it was closed at `now`: its URL is shown for one display window.
pub open spec fn closed_at(a: AuctionView, now: u64) -> AuctionView {
    AuctionView { is_ended: true, url_expiry_time: (now + URL_DISPLAY_DURATION) as u64, ..a }
}

/// Bids are accepted: the slot was started, its window has not passed, and it is open.
pub open spec fn is_active(a: AuctionView, now: u64) -> bool {
    a.starting_time > 0 && now < a.ending_time && !a.is_ended
}

/// The closed record's URL is still on display at `now`.
pub open spec fn shows_winner(a: AuctionView, now: u64) -> bool {
    a.is_ended && now < a.url_expiry_time && a.preferred_url.len() > 0
}

impl Auction {
    pub fn empty(placeholder: &String) -> (r: Auction)
        ensures
            r@ == empty_auction(placeholder@),
    {
        Auction {
            auction_id: 0,
            starting_time: 0,
            ending_time: 0,
            highest_bid: 0,
            highest_bidder: placeholder.clone(),
            preferred_url: String::new(),
            is_ended: true,
            url_expiry_time: 0,
        }
    }

    pub fn fresh(id: u64, owner: &String, now: u64) -> (r: Auction)
        requires
            now <= LATEST_TIME,
        ensures
            r@ == fresh_auction(id, owner@, now),
    {
        Auction {
            auction_id: id,
            starting_time: now,
            ending_time: now + AUCTION_DURATION,
            highest_bid: 0,
            highest_bidder: owner.clone(),
            preferred_url: String::new(),
            is_ended: false,
            url_expiry_time: 0,
        }
    }

    /// Whether bids are accepted at `now`.
    pub fn is_active_at(&self, now: u64) -> (r: bool)
        ensures
            r == is_active(self@, now),
    {
        self.starting_time > 0 && now < self.ending_time && !self.is_ended
    }

    /// Whether this closed record's URL is on display at `now`.
    pub fn shows_winner_at(&self, now: u64) -> (r: bool)
        ensures
            r == shows_winner(self@, now),
    {
        self.is_ended && now < self.url_expiry_time && !self.preferred_url.as_str().is_empty()
    }
}

} // verus!
