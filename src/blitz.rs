use vstd::prelude::*;

use crate::auction::{
    Auction, AuctionView, AUCTION_DURATION, DEFAULT_MIN_BID_INCREMENT, DEFAULT_MIN_STARTING_BID,
    LATEST_TIME, URL_DISPLAY_DURATION, closed_at, empty_auction, fresh_auction, with_bid,
};
use crate::effects::{Notice, NoticeView, Outcome, Transfer, TransferView};
use crate::error::Error;

verus! {

/// Number of history slots: one per retrievable id, plus the shared overflow slot 0.
pub const HISTORY_SLOTS: usize = 6;

/// Completed auctions with ids `1..=RETRIEVABLE_IDS` keep a slot of their own.
pub const RETRIEVABLE_IDS: u64 = 5;

/// The contract's configuration, fixed at initialization and changed only by its owner.
#[derive(Debug)]
pub struct ContractInfo {
    pub owner: String,
    pub platform_wallet: String,
    pub token_address: String,
    pub auction_counter: u64,
    pub min_bid_increment: i128,
    pub min_starting_bid: i128,
}

pub struct InfoView {
    pub owner: Seq<char>,
    pub platform_wallet: Seq<char>,
    pub token_address: Seq<char>,
    pub auction_counter: u64,
    pub min_bid_increment: i128,
    pub min_starting_bid: i128,
}

impl View for ContractInfo {
    type V = InfoView;

    open spec fn view(&self) -> InfoView {
        InfoView {
            owner: self.owner@,
            platform_wallet: self.platform_wallet@,
            token_address: self.token_address@,
            auction_counter: self.auction_counter,
            min_bid_increment: self.min_bid_increment,
            min_starting_bid: self.min_starting_bid,
        }
    }
}

impl Clone for ContractInfo {
    fn clone(&self) -> (r: Self)
        ensures
            r == *self,
    {
        ContractInfo {
            owner: self.owner.clone(),
            platform_wallet: self.platform_wallet.clone(),
            token_address: self.token_address.clone(),
            auction_counter: self.auction_counter,
            min_bid_increment: self.min_bid_increment,
            min_starting_bid: self.min_starting_bid,
        }
    }
}

/// The whole stored state of the auction contract: its configuration (absent
/// until `initialize`), the current auction, the last completed one, and the
/// bounded history of completed auctions.
#[derive(Debug)]
pub struct Blitz {
    info: Option<ContractInfo>,
    current_auction: Auction,
    last_auction: Auction,
    history: Vec<Option<Auction>>,
}

pub struct BlitzView {
    pub info: Option<InfoView>,
    pub current: AuctionView,
    pub last: AuctionView,
    /// Indexed by `history_slot` of an auction id.
    pub history: Seq<Option<AuctionView>>,
}

pub open spec fn opt_view(o: Option<Auction>) -> Option<AuctionView> {
    match o {
        Some(a) => Some(a@),
        None => None,
    }
}

impl View for Blitz {
    type V = BlitzView;

    closed spec fn view(&self) -> BlitzView {
        parts_view(self.info, self.current_auction, self.last_auction, self.history@)
    }
}

/// The state that stored parts describe.
pub open spec fn parts_view(
    info: Option<ContractInfo>,
    current: Auction,
    last: Auction,
    history: Seq<Option<Auction>>,
) -> BlitzView {
    BlitzView {
        info: match info {
            Some(i) => Some(i@),
            None => None,
        },
        current: current@,
        last: last@,
        history: history.map_values(|o: Option<Auction>| opt_view(o)),
    }
}

/// A history slot's content fits the state: a closed record whose id was issued.
pub open spec fn slot_fits(s: BlitzView, e: Option<AuctionView>) -> bool {
    match e {
        None => true,
        Some(a) => a.is_ended && s.info is Some && a.auction_id <= s.info.unwrap().auction_counter,
    }
}

/// The history slot of a completed auction: its own for ids `1..=5`, else
/// the shared overflow slot 0, where a later record replaces an earlier one.
pub open spec fn history_slot(id: u64) -> int {
    if 1 <= id && id <= RETRIEVABLE_IDS {
        id as int
    } else {
        0
    }
}

/// No record in the state carries an id above `n`.
pub open spec fn ids_up_to(s: BlitzView, n: u64) -> bool {
    &&& s.current.auction_id <= n
    &&& s.last.auction_id <= n
    &&& forall|k: int|
        0 <= k < s.history.len() && (#[trigger] s.history[k]) is Some ==> s.history[k].unwrap().auction_id <= n
}

/// Every record but the current one is closed.
pub open spec fn completed_records_closed(s: BlitzView) -> bool {
    &&& s.last.is_ended
    &&& forall|k: int| 0 <= k < s.history.len() && (#[trigger] s.history[k]) is Some ==> s.history[k].unwrap().is_ended
}

impl BlitzView {
    /// The state is consistent: six history slots, every completed record
    /// closed, deadlines that fit, a non-negative highest bid, and either no
    /// configuration and nothing started or filed, or positive bid parameters
    /// and no id above the counter.
    pub open spec fn wf(self) -> bool {
        &&& self.history.len() == HISTORY_SLOTS
        &&& completed_records_closed(self)
        &&& self.current.ending_time <= u64::MAX - URL_DISPLAY_DURATION
        &&& self.current.highest_bid >= 0
        &&& match self.info {
            None => {
                &&& self.current.starting_time == 0
                &&& forall|k: int| 0 <= k < self.history.len() ==> (#[trigger] self.history[k]) is None
            },
            Some(i) => {
                &&& i.min_bid_increment > 0
                &&& i.min_starting_bid > 0
                &&& ids_up_to(self, i.auction_counter)
            },
        }
    }
}

/// The smallest acceptable bid: the starting bid while nobody has bid, else
/// the highest bid raised by the increment.
pub open spec fn minimum_bid(a: AuctionView, i: InfoView) -> int {
    if a.highest_bid == 0 {
        i.min_starting_bid as int
    } else {
        a.highest_bid + i.min_bid_increment
    }
}

/// Why a bid is rejected, checked in this order; `None` when it is accepted.
pub open spec fn bid_error(s: BlitzView, amount: i128, url: Seq<char>, now: u64) -> Option<Error> {
    if s.info is None || s.current.starting_time == 0 {
        Some(Error::NoActiveAuction)
    } else if now >= s.current.ending_time {
        Some(Error::AuctionEnded)
    } else if url.len() == 0 {
        Some(Error::EmptyUrl)
    } else if amount < minimum_bid(s.current, s.info.unwrap()) {
        Some(Error::BidTooLow)
    } else {
        None
    }
}

/// An accepted bid refunds the previous highest bidder, unless there is none
/// or it is the same bidder raising their own bid.
pub open spec fn refund_due(a: AuctionView, bidder: Seq<char>) -> bool {
    a.highest_bid > 0 && a.highest_bidder != bidder
}

/// The transfers of an accepted bid: the refund, if due, then the new escrow.
pub open spec fn bid_transfers(a: AuctionView, bidder: Seq<char>, amount: i128) -> Seq<TransferView> {
    let pull = seq![TransferView::Deposit { from: bidder, amount }];
    if refund_due(a, bidder) {
        seq![TransferView::Payout { to: a.highest_bidder, amount: a.highest_bid }] + pull
    } else {
        pull
    }
}

pub open spec fn after_bid(s: BlitzView, bidder: Seq<char>, amount: i128, url: Seq<char>) -> BlitzView {
    BlitzView { current: with_bid(s.current, bidder, amount, url), ..s }
}

/// The state after the current auction was closed at `now`: the closed record
/// is current, last, and filed in its history slot.
pub open spec fn after_close(s: BlitzView, now: u64) -> BlitzView {
    let c = closed_at(s.current, now);
    BlitzView { current: c, last: c, history: s.history.update(history_slot(c.auction_id), Some(c)), ..s }
}

/// The close sweeps the winning bid, if any, to the platform wallet.
pub open spec fn close_transfers(s: BlitzView) -> Seq<TransferView> {
    if s.current.highest_bid > 0 {
        seq![TransferView::Payout { to: s.info.unwrap().platform_wallet, amount: s.current.highest_bid }]
    } else {
        Seq::empty()
    }
}

pub open spec fn close_notice(s: BlitzView, now: u64) -> NoticeView {
    NoticeView::Ended {
        auction_id: s.current.auction_id,
        winner: s.current.highest_bidder,
        amount: s.current.highest_bid,
        preferred_url: s.current.preferred_url,
        time: now,
        url_expiry_time: (now + URL_DISPLAY_DURATION) as u64,
    }
}

/// Why `end_auction` is refused, checked in this order; `None` when it closes.
pub open spec fn end_error(s: BlitzView, now: u64) -> Option<Error> {
    if s.current.starting_time == 0 {
        Some(Error::NoAuctionToEnd)
    } else if now <= s.current.ending_time {
        Some(Error::AuctionNotEnded)
    } else if s.current.is_ended {
        Some(Error::AlreadyEnded)
    } else {
        None
    }
}

/// A started auction that was never closed is closed before a new one starts.
pub open spec fn needs_close(s: BlitzView) -> bool {
    s.current.starting_time > 0 && !s.current.is_ended
}

/// The state after `start_auction` at `now`: any stale auction closed, the
/// counter raised by one, and a fresh auction under the new id.
pub open spec fn after_start(s: BlitzView, now: u64) -> BlitzView {
    let s1 = if needs_close(s) { after_close(s, now) } else { s };
    let i = s.info.unwrap();
    let id = (i.auction_counter + 1) as u64;
    BlitzView {
        info: Some(InfoView { auction_counter: id, ..i }),
        current: fresh_auction(id, i.owner, now),
        ..s1
    }
}

pub open spec fn start_transfers(s: BlitzView) -> Seq<TransferView> {
    if needs_close(s) { close_transfers(s) } else { Seq::empty() }
}

pub open spec fn start_notices(s: BlitzView, now: u64) -> Seq<NoticeView> {
    let started = NoticeView::Started {
        auction_id: (s.info.unwrap().auction_counter + 1) as u64,
        starting_time: now,
        ending_time: (now + AUCTION_DURATION) as u64,
    };
    if needs_close(s) { seq![close_notice(s, now), started] } else { seq![started] }
}

/// The configuration that `initialize` installs.
pub open spec fn initial_info(owner: Seq<char>, wallet: Seq<char>, token: Seq<char>) -> InfoView {
    InfoView {
        owner,
        platform_wallet: wallet,
        token_address: token,
        auction_counter: 0,
        min_bid_increment: DEFAULT_MIN_BID_INCREMENT,
        min_starting_bid: DEFAULT_MIN_STARTING_BID,
    }
}

/// `caller` may run the owner's operations.
pub open spec fn is_owner(s: BlitzView, caller: Seq<char>) -> bool {
    s.info.unwrap().owner == caller
}

/// The state after an owner's operation replaced its configuration by `i`.
pub open spec fn with_info(s: BlitzView, i: InfoView) -> BlitzView {
    BlitzView { info: Some(i), ..s }
}

impl Blitz {
    /// The stored state is consistent (see [`BlitzView::wf`]).
    pub open spec fn wf(&self) -> bool {
        self@.wf()
    }

    /// Storage before `initialize`: no configuration and no auction started.
    pub fn new() -> (r: Blitz)
        ensures
            r.wf(),
            r@.info is None,
            r@.current.starting_time == 0,
            forall|k: int| 0 <= k < HISTORY_SLOTS ==> r@.history[k] is None,
    {
        let nobody = String::new();
        let mut history: Vec<Option<Auction>> = Vec::new();
        let mut k: usize = 0;
        while k < HISTORY_SLOTS
            invariant
                k <= HISTORY_SLOTS,
                history@.len() == k,
                forall|j: int| 0 <= j < k ==> history@[j] is None,
            decreases HISTORY_SLOTS - k,
        {
            history.push(None);
            k = k + 1;
        }
        let r = Blitz {
            info: None,
            current_auction: Auction::empty(&nobody),
            last_auction: Auction::empty(&nobody),
            history,
        };
        assert forall|j: int| 0 <= j < HISTORY_SLOTS implies r@.history[j] is None by {
            assert(history@[j] is None);
        }
        r
    }

    /// Installs the configuration with default bid parameters and an empty,
    /// closed placeholder auction as both current and last record.
    pub fn initialize(&mut self, owner: &String, platform_wallet: &String, token_address: &String) -> (r: Result<
        Outcome,
        Error,
    >)
        requires
            old(self).wf(),
        ensures
            final(self).wf(),
            old(self)@.info is Some ==> r == Err::<Outcome, Error>(Error::AlreadyInitialized) && final(self)@
                == old(self)@,
            old(self)@.info is None ==> match r {
                Ok(out) => {
                    &&& final(self)@ == (BlitzView {
                        info: Some(initial_info(owner@, platform_wallet@, token_address@)),
                        current: empty_auction(owner@),
                        last: empty_auction(owner@),
                        ..old(self)@
                    })
                    &&& out@.transfers.len() == 0
                    &&& out@.notices == seq![
                        NoticeView::Initialized {
                            owner: owner@,
                            platform_wallet: platform_wallet@,
                            token_address: token_address@,
                        },
                    ]
                },
                Err(_) => false,
            },
    {
        if self.info.is_some() {
            return Err(Error::AlreadyInitialized);
        }
        let ghost s = self@;
        self.info = Some(
            ContractInfo {
                owner: owner.clone(),
                platform_wallet: platform_wallet.clone(),
                token_address: token_address.clone(),
                auction_counter: 0,
                min_bid_increment: DEFAULT_MIN_BID_INCREMENT,
                min_starting_bid: DEFAULT_MIN_STARTING_BID,
            },
        );
        self.current_auction = Auction::empty(owner);
        self.last_auction = Auction::empty(owner);
        let mut out = Outcome::new();
        out.notify(
            Notice::Initialized {
                owner: owner.clone(),
                platform_wallet: platform_wallet.clone(),
                token_address: token_address.clone(),
            },
        );
        assert(out@.notices =~= seq![
            NoticeView::Initialized {
                owner: owner@,
                platform_wallet: platform_wallet@,
                token_address: token_address@,
            },
        ]);
        assert(self@.history == s.history);
        Ok(out)
    }

    /// Places a bid of `amount` by `bidder` (whose authorization the caller has
    /// checked) on the current auction, at time `now`.
    ///
    /// An accepted bid refunds the previous highest bidder unless it is the
    /// same bidder, escrows `amount`, and becomes the highest bid.
    pub fn place_bid(&mut self, bidder: &String, amount: i128, preferred_url: &String, now: u64) -> (r: Result<
        Outcome,
        Error,
    >)
        requires
            old(self).wf(),
        ensures
            final(self).wf(),
            match bid_error(old(self)@, amount, preferred_url@, now) {
                Some(e) => r == Err::<Outcome, Error>(e) && final(self)@ == old(self)@,
                None => match r {
                    Ok(out) => {
                        &&& final(self)@ == after_bid(old(self)@, bidder@, amount, preferred_url@)
                        &&& out@.transfers == bid_transfers(old(self)@.current, bidder@, amount)
                        &&& out@.notices == seq![
                            NoticeView::BidPlaced {
                                auction_id: old(self)@.current.auction_id,
                                bidder: bidder@,
                                amount,
                                preferred_url: preferred_url@,
                                time: now,
                            },
                        ]
                    },
                    Err(_) => false,
                },
            },
    {
        let ghost s = self@;
        let (min_starting_bid, min_bid_increment) = match &self.info {
            None => {
                return Err(Error::NoActiveAuction);
            },
            Some(i) => (i.min_starting_bid, i.min_bid_increment),
        };
        if self.current_auction.starting_time == 0 {
            return Err(Error::NoActiveAuction);
        }
        if now >= self.current_auction.ending_time {
            return Err(Error::AuctionEnded);
        }
        if preferred_url.as_str().is_empty() {
            return Err(Error::EmptyUrl);
        }
        let highest_bid = self.current_auction.highest_bid;
        if highest_bid == 0 {
            if amount < min_starting_bid {
                return Err(Error::BidTooLow);
            }
        } else {
            match highest_bid.checked_add(min_bid_increment) {
                None => {
                    return Err(Error::BidTooLow);
                },
                Some(minimum) => {
                    if amount < minimum {
                        return Err(Error::BidTooLow);
                    }
                },
            }
        }
        let mut out = Outcome::new();
        let same_bidder = self.current_auction.highest_bidder == *bidder;
        if highest_bid > 0 && !same_bidder {
            out.transfer(Transfer::Payout { to: self.current_auction.highest_bidder.clone(), amount: highest_bid });
        }
        out.transfer(Transfer::Deposit { from: bidder.clone(), amount });
        self.current_auction.highest_bid = amount;
        self.current_auction.highest_bidder = bidder.clone();
        self.current_auction.preferred_url = preferred_url.clone();
        out.notify(
            Notice::BidPlaced {
                auction_id: self.current_auction.auction_id,
                bidder: bidder.clone(),
                amount,
                preferred_url: preferred_url.clone(),
                time: now,
            },
        );
        assert(out@.transfers =~= bid_transfers(s.current, bidder@, amount));
        assert(out@.notices =~= seq![
            NoticeView::BidPlaced {
                auction_id: s.current.auction_id,
                bidder: bidder@,
                amount,
                preferred_url: preferred_url@,
                time: now,
            },
        ]);
        assert(self@.history == s.history);
        assert(self@ == after_bid(s, bidder@, amount, preferred_url@));
        Ok(out)
    }

    /// Whether `caller` is the owner, whose authorization the owner's operations need.
    fn is_owner_exec(&self, caller: &String) -> (r: bool)
        requires
            self@.info is Some,
        ensures
            r == is_owner(self@, caller@),
    {
        match &self.info {
            Some(i) => i.owner == *caller,
            None => false,
        }
    }

    /// Closes the current auction at `now`: sweeps the winning bid to the
    /// platform wallet, sets the display window, and files the record as
    /// last completed and in its history slot.
    fn close_current(&mut self, now: u64, out: &mut Outcome)
        requires
            old(self).wf(),
            old(self)@.info is Some,
            now <= LATEST_TIME,
        ensures
            final(self).wf(),
            final(self)@ == after_close(old(self)@, now),
            final(out)@.transfers == old(out)@.transfers + close_transfers(old(self)@),
            final(out)@.notices == old(out)@.notices.push(close_notice(old(self)@, now)),
    {
        let ghost s = self@;
        let ghost t0 = out@.transfers;
        let highest_bid = self.current_auction.highest_bid;
        if highest_bid > 0 {
            let wallet = match &self.info {
                Some(i) => i.platform_wallet.clone(),
                None => String::new(),
            };
            out.transfer(Transfer::Payout { to: wallet, amount: highest_bid });
        }
        assert(out@.transfers =~= t0 + close_transfers(s));
        self.current_auction.is_ended = true;
        self.current_auction.url_expiry_time = now + URL_DISPLAY_DURATION;
        let id = self.current_auction.auction_id;
        let slot: usize = if 1 <= id && id <= RETRIEVABLE_IDS {
            id as usize
        } else {
            0
        };
        self.history[slot] = Some(self.current_auction.clone());
        self.last_auction = self.current_auction.clone();
        out.notify(
            Notice::Ended {
                auction_id: id,
                winner: self.current_auction.highest_bidder.clone(),
                amount: highest_bid,
                preferred_url: self.current_auction.preferred_url.clone(),
                time: now,
                url_expiry_time: self.current_auction.url_expiry_time,
            },
        );
        assert(self@.history =~= s.history.update(history_slot(id), Some(closed_at(s.current, now))));
    }

    /// Opens a new auction at `now`; only the owner may. A started auction
    /// that was never closed is closed first.
    pub fn start_auction(&mut self, caller: &String, now: u64) -> (r: Result<Outcome, Error>)
        requires
            old(self).wf(),
            old(self)@.info is Some,
            old(self)@.info.unwrap().auction_counter < u64::MAX,
            now <= LATEST_TIME,
        ensures
            final(self).wf(),
            !is_owner(old(self)@, caller@) ==> r == Err::<Outcome, Error>(Error::Unauthorized) && final(self)@
                == old(self)@,
            is_owner(old(self)@, caller@) ==> match r {
                Ok(out) => {
                    &&& final(self)@ == after_start(old(self)@, now)
                    &&& out@.transfers == start_transfers(old(self)@)
                    &&& out@.notices == start_notices(old(self)@, now)
                },
                Err(_) => false,
            },
    {
        if !self.is_owner_exec(caller) {
            return Err(Error::Unauthorized);
        }
        let ghost s = self@;
        let mut out = Outcome::new();
        if self.current_auction.starting_time > 0 && !self.current_auction.is_ended {
            self.close_current(now, &mut out);
        }
        let ghost s1 = self@;
        let (owner, counter) = match &self.info {
            Some(i) => (i.owner.clone(), i.auction_counter + 1),
            None => (String::new(), 0),
        };
        match &mut self.info {
            Some(i) => {
                i.auction_counter = counter;
            },
            None => {},
        }
        self.current_auction = Auction::fresh(counter, &owner, now);
        out.notify(
            Notice::Started {
                auction_id: counter,
                starting_time: now,
                ending_time: now + AUCTION_DURATION,
            },
        );
        assert(out@.transfers =~= start_transfers(s));
        assert(out@.notices =~= start_notices(s, now));
        assert(self@.history == s1.history);
        Ok(out)
    }

    /// Closes the current auction once its end time has passed; anyone may call it.
    pub fn end_auction(&mut self, now: u64) -> (r: Result<Outcome, Error>)
        requires
            old(self).wf(),
            old(self)@.info is Some,
            now <= LATEST_TIME,
        ensures
            final(self).wf(),
            match end_error(old(self)@, now) {
                Some(e) => r == Err::<Outcome, Error>(e) && final(self)@ == old(self)@,
                None => match r {
                    Ok(out) => {
                        &&& final(self)@ == after_close(old(self)@, now)
                        &&& out@.transfers == close_transfers(old(self)@)
                        &&& out@.notices == seq![close_notice(old(self)@, now)]
                    },
                    Err(_) => false,
                },
            },
    {
        if self.current_auction.starting_time == 0 {
            return Err(Error::NoAuctionToEnd);
        }
        if now <= self.current_auction.ending_time {
            return Err(Error::AuctionNotEnded);
        }
        if self.current_auction.is_ended {
            return Err(Error::AlreadyEnded);
        }
        let ghost s = self@;
        let mut out = Outcome::new();
        self.close_current(now, &mut out);
        assert(out@.transfers =~= close_transfers(s));
        assert(out@.notices =~= seq![close_notice(s, now)]);
        Ok(out)
    }

    /// Sets the minimum raise over the highest bid; only the owner may.
    pub fn set_min_bid_increment(&mut self, caller: &String, new_increment: i128) -> (r: Result<Outcome, Error>)
        requires
            old(self).wf(),
            old(self)@.info is Some,
            new_increment > 0,
        ensures
            final(self).wf(),
            !is_owner(old(self)@, caller@) ==> r == Err::<Outcome, Error>(Error::Unauthorized) && final(self)@
                == old(self)@,
            is_owner(old(self)@, caller@) ==> match r {
                Ok(out) => {
                    &&& final(self)@ == with_info(
                        old(self)@,
                        (InfoView { min_bid_increment: new_increment, ..old(self)@.info.unwrap() }),
                    )
                    &&& out@.transfers.len() == 0
                    &&& out@.notices == seq![NoticeView::MinBidIncrement { value: new_increment }]
                },
                Err(_) => false,
            },
    {
        if !self.is_owner_exec(caller) {
            return Err(Error::Unauthorized);
        }
        match &mut self.info {
            Some(i) => {
                i.min_bid_increment = new_increment;
            },
            None => {},
        }
        let mut out = Outcome::new();
        out.notify(Notice::MinBidIncrement { value: new_increment });
        assert(out@.notices =~= seq![NoticeView::MinBidIncrement { value: new_increment }]);
        Ok(out)
    }

    /// Sets the minimum first bid of an auction; only the owner may.
    pub fn set_min_starting_bid(&mut self, caller: &String, new_starting_bid: i128) -> (r: Result<Outcome, Error>)
        requires
            old(self).wf(),
            old(self)@.info is Some,
            new_starting_bid > 0,
        ensures
            final(self).wf(),
            !is_owner(old(self)@, caller@) ==> r == Err::<Outcome, Error>(Error::Unauthorized) && final(self)@
                == old(self)@,
            is_owner(old(self)@, caller@) ==> match r {
                Ok(out) => {
                    &&& final(self)@ == with_info(
                        old(self)@,
                        (InfoView { min_starting_bid: new_starting_bid, ..old(self)@.info.unwrap() }),
                    )
                    &&& out@.transfers.len() == 0
                    &&& out@.notices == seq![NoticeView::MinStartingBid { value: new_starting_bid }]
                },
                Err(_) => false,
            },
    {
        if !self.is_owner_exec(caller) {
            return Err(Error::Unauthorized);
        }
        match &mut self.info {
            Some(i) => {
                i.min_starting_bid = new_starting_bid;
            },
            None => {},
        }
        let mut out = Outcome::new();
        out.notify(Notice::MinStartingBid { value: new_starting_bid });
        assert(out@.notices =~= seq![NoticeView::MinStartingBid { value: new_starting_bid }]);
        Ok(out)
    }

    /// Sets the wallet that receives the winning bids; only the owner may.
    pub fn set_platform_wallet(&mut self, caller: &String, new_wallet: &String) -> (r: Result<Outcome, Error>)
        requires
            old(self).wf(),
            old(self)@.info is Some,
        ensures
            final(self).wf(),
            !is_owner(old(self)@, caller@) ==> r == Err::<Outcome, Error>(Error::Unauthorized) && final(self)@
                == old(self)@,
            is_owner(old(self)@, caller@) ==> match r {
                Ok(out) => {
                    &&& final(self)@ == with_info(
                        old(self)@,
                        (InfoView { platform_wallet: new_wallet@, ..old(self)@.info.unwrap() }),
                    )
                    &&& out@.transfers.len() == 0
                    &&& out@.notices == seq![NoticeView::PlatformWallet { wallet: new_wallet@ }]
                },
                Err(_) => false,
            },
    {
        if !self.is_owner_exec(caller) {
            return Err(Error::Unauthorized);
        }
        match &mut self.info {
            Some(i) => {
                i.platform_wallet = new_wallet.clone();
            },
            None => {},
        }
        let mut out = Outcome::new();
        out.notify(Notice::PlatformWallet { wallet: new_wallet.clone() });
        assert(out@.notices =~= seq![NoticeView::PlatformWallet { wallet: new_wallet@ }]);
        Ok(out)
    }

    /// Hands the contract to `new_owner`; only the current owner may.
    pub fn transfer_ownership(&mut self, caller: &String, new_owner: &String) -> (r: Result<Outcome, Error>)
        requires
            old(self).wf(),
            old(self)@.info is Some,
        ensures
            final(self).wf(),
            !is_owner(old(self)@, caller@) ==> r == Err::<Outcome, Error>(Error::Unauthorized) && final(self)@
                == old(self)@,
            is_owner(old(self)@, caller@) ==> match r {
                Ok(out) => {
                    &&& final(self)@ == with_info(
                        old(self)@,
                        (InfoView { owner: new_owner@, ..old(self)@.info.unwrap() }),
                    )
                    &&& out@.transfers.len() == 0
                    &&& out@.notices == seq![
                        NoticeView::OwnerChanged { previous: old(self)@.info.unwrap().owner, owner: new_owner@ },
                    ]
                },
                Err(_) => false,
            },
    {
        if !self.is_owner_exec(caller) {
            return Err(Error::Unauthorized);
        }
        let mut previous = String::new();
        match &mut self.info {
            Some(i) => {
                previous = i.owner.clone();
                i.owner = new_owner.clone();
            },
            None => {},
        }
        let mut out = Outcome::new();
        out.notify(Notice::OwnerChanged { previous, owner: new_owner.clone() });
        assert(out@.notices =~= seq![
            NoticeView::OwnerChanged { previous: previous@, owner: new_owner@ },
        ]);
        Ok(out)
    }

    /// Rebuilds a state from its stored parts; `None` when they do not form
    /// a consistent state.
    pub fn restore(
        info: Option<ContractInfo>,
        current_auction: Auction,
        last_auction: Auction,
        history: Vec<Option<Auction>>,
    ) -> (r: Option<Blitz>)
        ensures
            r is Some <==> parts_view(info, current_auction, last_auction, history@).wf(),
            r is Some ==> r.unwrap()@ == parts_view(info, current_auction, last_auction, history@),
    {
        let b = Blitz { info, current_auction, last_auction, history };
        if b.is_consistent() {
            Some(b)
        } else {
            None
        }
    }

    /// The stored parts of the state: configuration, current and last
    /// auction, and the history slots.
    pub fn into_parts(self) -> (r: (Option<ContractInfo>, Auction, Auction, Vec<Option<Auction>>))
        ensures
            parts_view(r.0, r.1, r.2, r.3@) == self@,
    {
        (self.info, self.current_auction, self.last_auction, self.history)
    }

    fn is_consistent(&self) -> (r: bool)
        ensures
            r == self.wf(),
    {
        let ghost s = self@;
        if self.history.len() != HISTORY_SLOTS || !self.last_auction.is_ended || self.current_auction.ending_time
            > u64::MAX - URL_DISPLAY_DURATION || self.current_auction.highest_bid < 0 {
            return false;
        }
        let config_ok = match &self.info {
            None => self.current_auction.starting_time == 0,
            Some(i) => i.min_bid_increment > 0 && i.min_starting_bid > 0 && self.current_auction.auction_id
                <= i.auction_counter && self.last_auction.auction_id <= i.auction_counter,
        };
        if !config_ok {
            return false;
        }
        let mut k: usize = 0;
        while k < HISTORY_SLOTS
            invariant
                s == self@,
                s.history.len() == HISTORY_SLOTS,
                k <= HISTORY_SLOTS,
                forall|j: int| 0 <= j < k ==> slot_fits(s, #[trigger] s.history[j]),
            decreases HISTORY_SLOTS - k,
        {
            let fits = match &self.history[k] {
                None => true,
                Some(a) => a.is_ended && match &self.info {
                    Some(i) => a.auction_id <= i.auction_counter,
                    None => false,
                },
            };
            assert(s.history[k as int] == opt_view(self.history@[k as int]));
            if !fits {
                assert(!slot_fits(s, s.history[k as int]));
                return false;
            }
            k = k + 1;
        }
        true
    }

    pub(crate) fn info(&self) -> (r: &Option<ContractInfo>)
        ensures
            r is Some == self@.info is Some,
            r is Some ==> r.unwrap()@ == self@.info.unwrap(),
    {
        &self.info
    }

    pub(crate) fn current(&self) -> (r: &Auction)
        ensures
            r@ == self@.current,
    {
        &self.current_auction
    }

    pub(crate) fn last(&self) -> (r: &Auction)
        ensures
            r@ == self@.last,
    {
        &self.last_auction
    }

    pub(crate) fn history_entry(&self, slot: usize) -> (r: &Option<Auction>)
        requires
            self.wf(),
            slot < HISTORY_SLOTS,
        ensures
            opt_view(*r) == self@.history[slot as int],
    {
        &self.history[slot]
    }
}

} // verus!
