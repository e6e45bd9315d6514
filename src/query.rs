use vstd::prelude::*;

use crate::auction::{Auction, AuctionView, URL_DISPLAY_DURATION, is_active, shows_winner};
use crate::blitz::{
    Blitz, BlitzView, ContractInfo, RETRIEVABLE_IDS, history_slot, minimum_bid, opt_view,
};

verus! {

/// Which source supplies the URL on public display.
#[derive(Clone, Copy, Debug, PartialEq, Eq, Structural)]
pub enum DisplayStatus {
    /// The current auction is active and has a bid with a URL.
    AuctionActive,
    /// The last completed auction's URL is within its display window.
    WinnerDisplay,
    /// Neither: the display shows its default content.
    Default,
}

/// The display status in words, as front-ends show it.
#[derive(Debug)]
pub struct QRStatus {
    pub status: String,
    pub source: String,
}

/// Everything a front-end needs about the auctions, in one read.
#[derive(Debug)]
pub struct AuctionSummary {
    pub current_auction: Auction,
    pub last_auction: Auction,
    pub is_active: bool,
    pub time_remaining: u64,
    pub has_active_qr: bool,
    pub qr_url: String,
}

/// Seconds left to bid: the time to the end while the auction is active, else 0.
pub open spec fn time_remaining(s: BlitzView, now: u64) -> u64 {
    if is_active(s.current, now) {
        (s.current.ending_time - now) as u64
    } else {
        0
    }
}

/// The URL of the current auction's highest bid, while it is active.
pub open spec fn current_url(s: BlitzView, now: u64) -> Seq<char> {
    if is_active(s.current, now) && s.current.preferred_url.len() > 0 {
        s.current.preferred_url
    } else {
        Seq::empty()
    }
}

/// The winner's URL, during the display window after its auction closed.
pub open spec fn winner_url(s: BlitzView, now: u64) -> Seq<char> {
    if shows_winner(s.last, now) {
        s.last.preferred_url
    } else {
        Seq::empty()
    }
}

/// The source of the displayed URL; the active auction's takes precedence.
pub open spec fn display_status(s: BlitzView, now: u64) -> DisplayStatus {
    if current_url(s, now).len() > 0 {
        DisplayStatus::AuctionActive
    } else if winner_url(s, now).len() > 0 {
        DisplayStatus::WinnerDisplay
    } else {
        DisplayStatus::Default
    }
}

pub open spec fn status_label(d: DisplayStatus) -> Seq<char> {
    match d {
        DisplayStatus::AuctionActive => "auction_active"@,
        DisplayStatus::WinnerDisplay => "winner_display"@,
        DisplayStatus::Default => "default"@,
    }
}

pub open spec fn source_label(d: DisplayStatus) -> Seq<char> {
    match d {
        DisplayStatus::AuctionActive => "Current Auction"@,
        DisplayStatus::WinnerDisplay => "Winner Display"@,
        DisplayStatus::Default => "Default"@,
    }
}

/// When the displayed URL stops being shown: for an active auction with a
/// bid, one display window after its end; for the last completed auction
/// within its window, the window's end; otherwise 0.
pub open spec fn url_expiry(s: BlitzView, now: u64) -> u64 {
    if current_url(s, now).len() > 0 {
        (s.current.ending_time + URL_DISPLAY_DURATION) as u64
    } else if s.last.is_ended && now < s.last.url_expiry_time {
        s.last.url_expiry_time
    } else {
        0
    }
}

/// The record filed for `id`, for the ids that keep a slot of their own.
pub open spec fn auction_by_id(s: BlitzView, id: u64) -> Option<AuctionView> {
    if 1 <= id && id <= RETRIEVABLE_IDS {
        s.history[history_slot(id)]
    } else {
        None
    }
}

/// The records filed in the slots of ids `1..=n`, in ascending id order.
pub open spec fn filed_up_to(s: BlitzView, n: int) -> Seq<AuctionView>
    decreases n,
{
    if n <= 0 {
        Seq::empty()
    } else {
        let earlier = filed_up_to(s, n - 1);
        match s.history[n] {
            Some(a) => earlier.push(a),
            None => earlier,
        }
    }
}

/// The retrievable history: the filed records of ids `1..=5`, ascending.
pub open spec fn auction_history(s: BlitzView) -> Seq<AuctionView> {
    filed_up_to(s, RETRIEVABLE_IDS as int)
}

pub open spec fn auction_counter(s: BlitzView) -> u64 {
    match s.info {
        Some(i) => i.auction_counter,
        None => 0,
    }
}

impl Blitz {
    /// Whether `initialize` has configured the contract.
    pub fn is_initialized(&self) -> (r: bool)
        ensures
            r == self@.info is Some,
    {
        self.info().is_some()
    }

    /// Whether bids are accepted at `now`.
    pub fn is_auction_active(&self, now: u64) -> (r: bool)
        ensures
            r == is_active(self@.current, now),
    {
        self.current().is_active_at(now)
    }

    /// Seconds left to bid; 0 unless the auction is active.
    pub fn get_time_remaining(&self, now: u64) -> (r: u64)
        ensures
            r == time_remaining(self@, now),
    {
        let current = self.current();
        if current.is_active_at(now) {
            current.ending_time - now
        } else {
            0
        }
    }

    /// The URL of the winner on display at `now`, or an empty string.
    pub fn get_qr_url(&self, now: u64) -> (r: String)
        ensures
            r@ == winner_url(self@, now),
    {
        let last = self.last();
        if last.shows_winner_at(now) {
            last.preferred_url.clone()
        } else {
            String::new()
        }
    }

    /// The URL of the active auction's highest bid, or an empty string.
    pub fn get_current_auction_url(&self, now: u64) -> (r: String)
        ensures
            r@ == current_url(self@, now),
    {
        let current = self.current();
        if current.is_active_at(now) && !current.preferred_url.as_str().is_empty() {
            current.preferred_url.clone()
        } else {
            String::new()
        }
    }

    /// Whether a winner's URL is on display at `now`.
    pub fn has_active_qr_url(&self, now: u64) -> (r: bool)
        ensures
            r == (winner_url(self@, now).len() > 0),
    {
        !self.get_qr_url(now).as_str().is_empty()
    }

    /// Which source supplies the displayed URL at `now`.
    pub fn get_display_status(&self, now: u64) -> (r: DisplayStatus)
        ensures
            r == display_status(self@, now),
    {
        if !self.get_current_auction_url(now).as_str().is_empty() {
            DisplayStatus::AuctionActive
        } else if self.has_active_qr_url(now) {
            DisplayStatus::WinnerDisplay
        } else {
            DisplayStatus::Default
        }
    }

    /// The display status at `now`, in words.
    pub fn get_qr_url_status(&self, now: u64) -> (r: QRStatus)
        ensures
            r.status@ == status_label(display_status(self@, now)),
            r.source@ == source_label(display_status(self@, now)),
    {
        match self.get_display_status(now) {
            DisplayStatus::AuctionActive => QRStatus {
                status: String::from_str("auction_active"),
                source: String::from_str("Current Auction"),
            },
            DisplayStatus::WinnerDisplay => QRStatus {
                status: String::from_str("winner_display"),
                source: String::from_str("Winner Display"),
            },
            DisplayStatus::Default => QRStatus {
                status: String::from_str("default"),
                source: String::from_str("Default"),
            },
        }
    }

    /// When the URL on display at `now` stops being shown, or 0.
    pub fn get_qr_url_expiry_time(&self, now: u64) -> (r: u64)
        requires
            self.wf(),
        ensures
            r == url_expiry(self@, now),
    {
        let current = self.current();
        if current.is_active_at(now) && !current.preferred_url.as_str().is_empty() {
            return current.ending_time + URL_DISPLAY_DURATION;
        }
        let last = self.last();
        if last.is_ended && now < last.url_expiry_time {
            last.url_expiry_time
        } else {
            0
        }
    }

    pub fn get_current_auction(&self) -> (r: Auction)
        ensures
            r@ == self@.current,
    {
        self.current().clone()
    }

    pub fn get_last_auction(&self) -> (r: Auction)
        ensures
            r@ == self@.last,
    {
        self.last().clone()
    }

    /// The completed auction filed under `id`; only ids `1..=5` are retrievable.
    pub fn get_auction(&self, auction_id: u64) -> (r: Option<Auction>)
        requires
            self.wf(),
        ensures
            opt_view(r) == auction_by_id(self@, auction_id),
    {
        if 1 <= auction_id && auction_id <= RETRIEVABLE_IDS {
            match self.history_entry(auction_id as usize) {
                Some(a) => Some(a.clone()),
                None => None,
            }
        } else {
            None
        }
    }

    /// The retrievable completed auctions, in ascending id order.
    pub fn get_auction_history(&self) -> (r: Vec<Auction>)
        requires
            self.wf(),
        ensures
            r@.map_values(|a: Auction| a@) == auction_history(self@),
    {
        let mut auctions: Vec<Auction> = Vec::new();
        let mut id: u64 = 1;
        while id <= RETRIEVABLE_IDS
            invariant
                1 <= id <= RETRIEVABLE_IDS + 1,
                self.wf(),
                auctions@.map_values(|a: Auction| a@) == filed_up_to(self@, id - 1),
            decreases RETRIEVABLE_IDS + 1 - id,
        {
            let ghost before = auctions@;
            match self.get_auction(id) {
                Some(a) => {
                    auctions.push(a);
                    assert(auctions@.map_values(|a: Auction| a@) =~= before.map_values(|a: Auction| a@).push(
                        a@,
                    ));
                },
                None => {},
            }
            id = id + 1;
        }
        auctions
    }

    /// Auctions started so far; 0 before initialization.
    pub fn get_auction_counter(&self) -> (r: u64)
        ensures
            r == auction_counter(self@),
    {
        match self.info() {
            Some(i) => i.auction_counter,
            None => 0,
        }
    }

    pub fn get_contract_info(&self) -> (r: ContractInfo)
        requires
            self@.info is Some,
        ensures
            r@ == self@.info.unwrap(),
    {
        match self.info() {
            Some(i) => i.clone(),
            None => ContractInfo {
                owner: String::new(),
                platform_wallet: String::new(),
                token_address: String::new(),
                auction_counter: 0,
                min_bid_increment: 0,
                min_starting_bid: 0,
            },
        }
    }

    /// The smallest bid the current auction accepts.
    pub fn get_minimum_bid(&self) -> (r: i128)
        requires
            self.wf(),
            self@.info is Some,
            minimum_bid(self@.current, self@.info.unwrap()) <= i128::MAX,
        ensures
            r == minimum_bid(self@.current, self@.info.unwrap()),
    {
        let highest_bid = self.current().highest_bid;
        match self.info() {
            Some(i) => if highest_bid == 0 {
                i.min_starting_bid
            } else {
                highest_bid + i.min_bid_increment
            },
            None => 0,
        }
    }

    /// The current and last auctions with the derived display values at `now`.
    pub fn get_auction_summary(&self, now: u64) -> (r: AuctionSummary)
        ensures
            r.current_auction@ == self@.current,
            r.last_auction@ == self@.last,
            r.is_active == is_active(self@.current, now),
            r.time_remaining == time_remaining(self@, now),
            r.has_active_qr == (winner_url(self@, now).len() > 0),
            r.qr_url@ == winner_url(self@, now),
    {
        AuctionSummary {
            current_auction: self.get_current_auction(),
            last_auction: self.get_last_auction(),
            is_active: self.is_auction_active(now),
            time_remaining: self.get_time_remaining(now),
            has_active_qr: self.has_active_qr_url(now),
            qr_url: self.get_qr_url(now),
        }
    }
}

} // verus!
