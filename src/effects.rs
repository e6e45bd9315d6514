use vstd::prelude::*;

verus! {

/// A movement of the payment asset that a transition asks for, to or from
/// the funds the contract holds in escrow.
#[derive(Debug)]
pub enum Transfer {
    /// `from` pays `amount` into escrow.
    Deposit { from: String, amount: i128 },
    /// Escrow pays `amount` out to `to`.
    Payout { to: String, amount: i128 },
}

pub enum TransferView {
    Deposit { from: Seq<char>, amount: i128 },
    Payout { to: Seq<char>, amount: i128 },
}

impl View for Transfer {
    type V = TransferView;

    open spec fn view(&self) -> TransferView {
        match self {
            Transfer::Deposit { from, amount } => TransferView::Deposit { from: from@, amount: *amount },
            Transfer::Payout { to, amount } => TransferView::Payout { to: to@, amount: *amount },
        }
    }
}

/// A notification for outside observers that a transition emits.
#[derive(Debug)]
pub enum Notice {
    Initialized { owner: String, platform_wallet: String, token_address: String },
    Started { auction_id: u64, starting_time: u64, ending_time: u64 },
    BidPlaced { auction_id: u64, bidder: String, amount: i128, preferred_url: String, time: u64 },
    Ended {
        auction_id: u64,
        winner: String,
        amount: i128,
        preferred_url: String,
        time: u64,
        url_expiry_time: u64,
    },
    MinBidIncrement { value: i128 },
    MinStartingBid { value: i128 },
    PlatformWallet { wallet: String },
    OwnerChanged { previous: String, owner: String },
}

pub enum NoticeView {
    Initialized { owner: Seq<char>, platform_wallet: Seq<char>, token_address: Seq<char> },
    Started { auction_id: u64, starting_time: u64, ending_time: u64 },
    BidPlaced { auction_id: u64, bidder: Seq<char>, amount: i128, preferred_url: Seq<char>, time: u64 },
    Ended {
        auction_id: u64,
        winner: Seq<char>,
        amount: i128,
        preferred_url: Seq<char>,
        time: u64,
        url_expiry_time: u64,
    },
    MinBidIncrement { value: i128 },
    MinStartingBid { value: i128 },
    PlatformWallet { wallet: Seq<char> },
    OwnerChanged { previous: Seq<char>, owner: Seq<char> },
}

impl View for Notice {
    type V = NoticeView;

    open spec fn view(&self) -> NoticeView {
        match self {
            Notice::Initialized { owner, platform_wallet, token_address } => NoticeView::Initialized {
                owner: owner@,
                platform_wallet: platform_wallet@,
                token_address: token_address@,
            },
            Notice::Started { auction_id, starting_time, ending_time } => NoticeView::Started {
                auction_id: *auction_id,
                starting_time: *starting_time,
                ending_time: *ending_time,
            },
            Notice::BidPlaced { auction_id, bidder, amount, preferred_url, time } => NoticeView::BidPlaced {
                auction_id: *auction_id,
                bidder: bidder@,
                amount: *amount,
                preferred_url: preferred_url@,
                time: *time,
            },
            Notice::Ended { auction_id, winner, amount, preferred_url, time, url_expiry_time } =>
                NoticeView::Ended {
                auction_id: *auction_id,
                winner: winner@,
                amount: *amount,
                preferred_url: preferred_url@,
                time: *time,
                url_expiry_time: *url_expiry_time,
            },
            Notice::MinBidIncrement { value } => NoticeView::MinBidIncrement { value: *value },
            Notice::MinStartingBid { value } => NoticeView::MinStartingBid { value: *value },
            Notice::PlatformWallet { wallet } => NoticeView::PlatformWallet { wallet: wallet@ },
            Notice::OwnerChanged { previous, owner } => NoticeView::OwnerChanged {
                previous: previous@,
                owner: owner@,
            },
        }
    }
}

/// What a successful transition asks its environment to do, in order:
/// the transfers first, then the notifications.
#[derive(Debug)]
pub struct Outcome {
    pub transfers: Vec<Transfer>,
    pub notices: Vec<Notice>,
}

pub struct OutcomeView {
    pub transfers: Seq<TransferView>,
    pub notices: Seq<NoticeView>,
}

impl View for Outcome {
    type V = OutcomeView;

    open spec fn view(&self) -> OutcomeView {
        OutcomeView {
            transfers: self.transfers@.map_values(|t: Transfer| t@),
            notices: self.notices@.map_values(|n: Notice| n@),
        }
    }
}

impl Outcome {
    pub fn new() -> (r: Outcome)
        ensures
            r@.transfers == Seq::<TransferView>::empty(),
            r@.notices == Seq::<NoticeView>::empty(),
    {
        let r = Outcome { transfers: Vec::new(), notices: Vec::new() };
        assert(r@.transfers =~= Seq::<TransferView>::empty());
        assert(r@.notices =~= Seq::<NoticeView>::empty());
        r
    }

    pub fn transfer(&mut self, t: Transfer)
        ensures
            final(self)@.transfers == old(self)@.transfers.push(t@),
            final(self)@.notices == old(self)@.notices,
    {
        self.transfers.push(t);
        assert(final(self)@.transfers =~= old(self)@.transfers.push(t@));
    }

    pub fn notify(&mut self, n: Notice)
        ensures
            final(self)@.transfers == old(self)@.transfers,
            final(self)@.notices == old(self)@.notices.push(n@),
    {
        self.notices.push(n);
        assert(final(self)@.notices =~= old(self)@.notices.push(n@));
    }
}

} // verus!
