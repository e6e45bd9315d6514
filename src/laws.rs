use vstd::prelude::*;

use crate::auction::{AuctionView, LATEST_TIME, URL_DISPLAY_DURATION, is_active};
use crate::blitz::{
    BlitzView, after_bid, after_close, after_start, bid_error, bid_transfers, close_transfers,
    completed_records_closed, end_error, ids_up_to, minimum_bid, refund_due,
};
use crate::effects::TransferView;
use crate::error::Error;
use crate::query::winner_url;

verus! {

/// What one transfer adds to the escrow account of `who`.
pub open spec fn paid_in_delta(t: TransferView, who: Seq<char>) -> int {
    match t {
        TransferView::Deposit { from, amount } => if from == who { amount as int } else { 0 },
        TransferView::Payout { to, amount } => if to == who { -amount } else { 0 },
    }
}

/// Net amount `who` has paid into escrow through `ts`: deposits minus refunds.
pub open spec fn paid_in_by(ts: Seq<TransferView>, who: Seq<char>) -> int
    decreases ts.len(),
{
    if ts.len() == 0 {
        0
    } else {
        paid_in_by(ts.drop_last(), who) + paid_in_delta(ts.last(), who)
    }
}

pub open spec fn balance_delta(t: TransferView) -> int {
    match t {
        TransferView::Deposit { amount, .. } => amount as int,
        TransferView::Payout { amount, .. } => -amount,
    }
}

/// What escrow holds after `ts`: everything paid in minus everything paid out.
pub open spec fn escrow_balance(ts: Seq<TransferView>) -> int
    decreases ts.len(),
{
    if ts.len() == 0 {
        0
    } else {
        escrow_balance(ts.drop_last()) + balance_delta(ts.last())
    }
}

/// Escrow holds exactly the highest bid, and all of it belongs to the highest
/// bidder: every other identity has had back whatever it paid in.
pub open spec fn escrow_matches(a: AuctionView, ts: Seq<TransferView>) -> bool {
    &&& escrow_balance(ts) == a.highest_bid
    &&& forall|who: Seq<char>|
        #[trigger] paid_in_by(ts, who) == if a.highest_bid > 0 && who == a.highest_bidder {
            a.highest_bid as int
        } else {
            0
        }
}

/// One bid of a sequence, as the contract receives it.
pub struct BidView {
    pub bidder: Seq<char>,
    pub amount: i128,
    pub url: Seq<char>,
    pub time: u64,
}

/// An accepted bid by the bidder who already holds the highest bid.
pub open spec fn self_rebid(s: BlitzView, b: BidView) -> bool {
    &&& bid_error(s, b.amount, b.url, b.time) is None
    &&& s.current.highest_bid > 0
    &&& s.current.highest_bidder == b.bidder
}

/// The state and the transfers after the bids were placed one after another.
pub open spec fn run_bids(s: BlitzView, bids: Seq<BidView>) -> (BlitzView, Seq<TransferView>)
    decreases bids.len(),
{
    if bids.len() == 0 {
        (s, Seq::empty())
    } else {
        let (s1, ts1) = run_bids(s, bids.drop_last());
        let b = bids.last();
        if bid_error(s1, b.amount, b.url, b.time) is None {
            (after_bid(s1, b.bidder, b.amount, b.url), ts1 + bid_transfers(s1.current, b.bidder, b.amount))
        } else {
            (s1, ts1)
        }
    }
}

/// No bid of the sequence raises the bidder's own highest bid.
pub open spec fn no_self_rebids(s: BlitzView, bids: Seq<BidView>) -> bool
    decreases bids.len(),
{
    if bids.len() == 0 {
        true
    } else {
        no_self_rebids(s, bids.drop_last()) && !self_rebid(run_bids(s, bids.drop_last()).0, bids.last())
    }
}

proof fn lemma_paid_in_concat(a: Seq<TransferView>, b: Seq<TransferView>, who: Seq<char>)
    ensures
        paid_in_by(a + b, who) == paid_in_by(a, who) + paid_in_by(b, who),
        escrow_balance(a + b) == escrow_balance(a) + escrow_balance(b),
    decreases b.len(),
{
    if b.len() > 0 {
        lemma_paid_in_concat(a, b.drop_last(), who);
        assert((a + b).drop_last() =~= a + b.drop_last());
    } else {
        assert(a + b =~= a);
    }
}

/// An accepted bid that does not raise the bidder's own highest bid keeps
/// escrow equal to the highest bid, held for the highest bidder alone: the
/// previous highest bidder is refunded in full.
pub proof fn lemma_bid_keeps_escrow(
    s: BlitzView,
    ts: Seq<TransferView>,
    bidder: Seq<char>,
    amount: i128,
    url: Seq<char>,
    now: u64,
)
    requires
        s.wf(),
        escrow_matches(s.current, ts),
        bid_error(s, amount, url, now) is None,
        !self_rebid(s, (BidView { bidder, amount, url, time: now })),
    ensures
        after_bid(s, bidder, amount, url).wf(),
        escrow_matches(after_bid(s, bidder, amount, url).current, ts + bid_transfers(s.current, bidder, amount)),
{
    let bt = bid_transfers(s.current, bidder, amount);
    let s2 = after_bid(s, bidder, amount, url);
    assert(amount > 0);
    reveal_with_fuel(paid_in_by, 3);
    reveal_with_fuel(escrow_balance, 3);
    if refund_due(s.current, bidder) {
        assert(bt.drop_last() =~= seq![TransferView::Payout { to: s.current.highest_bidder, amount: s.current.highest_bid }]);
        assert(bt.drop_last().drop_last() =~= Seq::<TransferView>::empty());
    } else {
        assert(bt.drop_last() =~= Seq::<TransferView>::empty());
    }
    lemma_paid_in_concat(ts, bt, bidder);
    assert forall|who: Seq<char>|
        #[trigger] paid_in_by(ts + bt, who) == if s2.current.highest_bid > 0 && who == s2.current.highest_bidder {
            s2.current.highest_bid as int
        } else {
            0
        } by {
        lemma_paid_in_concat(ts, bt, who);
    }
    assert(ids_up_to(s2, s.info.unwrap().auction_counter));
}

/// Over any sequence of bids on an auction whose escrow starts empty, with no
/// bidder raising their own highest bid, escrow always holds exactly the
/// highest bid, all of it for the highest bidder: every outbid bidder got
/// back all it paid in.
pub proof fn lemma_bids_keep_escrow(s: BlitzView, bids: Seq<BidView>)
    requires
        s.wf(),
        s.current.highest_bid == 0,
        no_self_rebids(s, bids),
    ensures
        run_bids(s, bids).0.wf(),
        escrow_matches(run_bids(s, bids).0.current, run_bids(s, bids).1),
    decreases bids.len(),
{
    if bids.len() > 0 {
        lemma_bids_keep_escrow(s, bids.drop_last());
        let (s1, ts1) = run_bids(s, bids.drop_last());
        let b = bids.last();
        if bid_error(s1, b.amount, b.url, b.time) is None {
            lemma_bid_keeps_escrow(s1, ts1, b.bidder, b.amount, b.url, b.time);
        }
    }
}

/// Closing an auction whose escrow holds its highest bid empties escrow: the
/// winning amount, and only it, goes to the platform wallet.
pub proof fn lemma_close_settles_escrow(s: BlitzView, ts: Seq<TransferView>, now: u64)
    requires
        s.wf(),
        s.info is Some,
        escrow_matches(s.current, ts),
    ensures
        escrow_balance(ts + close_transfers(s)) == 0,
        s.current.highest_bid > 0 ==> close_transfers(s) == seq![
            TransferView::Payout { to: s.info.unwrap().platform_wallet, amount: s.current.highest_bid },
        ],
        s.current.highest_bid == 0 ==> close_transfers(s).len() == 0,
{
    let ct = close_transfers(s);
    reveal_with_fuel(escrow_balance, 2);
    lemma_paid_in_concat(ts, ct, Seq::empty());
    if s.current.highest_bid > 0 {
        assert(ct.drop_last() =~= Seq::<TransferView>::empty());
    }
}

/// A bid below the minimum is refused, whatever else holds: `place_bid` then
/// leaves the state as it was and moves no funds.
pub proof fn lemma_low_bid_refused(s: BlitzView, amount: i128, url: Seq<char>, now: u64)
    requires
        s.info is Some,
        amount < minimum_bid(s.current, s.info.unwrap()),
    ensures
        bid_error(s, amount, url, now) is Some,
{
}

/// Starting an auction leaves exactly one open record, the current one, which
/// is active, under an id above every id issued before.
pub proof fn lemma_start_opens_fresh_auction(s: BlitzView, now: u64)
    requires
        s.wf(),
        s.info is Some,
        s.info.unwrap().auction_counter < u64::MAX,
        0 < now <= LATEST_TIME,
    ensures
        is_active(after_start(s, now).current, now),
        completed_records_closed(after_start(s, now)),
        after_start(s, now).current.auction_id == s.info.unwrap().auction_counter + 1,
        ids_up_to(s, (after_start(s, now).current.auction_id - 1) as u64),
{
    let s2 = after_start(s, now);
    assert forall|k: int| 0 <= k < s2.history.len() && (#[trigger] s2.history[k]) is Some implies s2.history[k].unwrap().is_ended by {
        if k == crate::blitz::history_slot(s.current.auction_id) && crate::blitz::needs_close(s) {
        } else {
            assert(s2.history[k] == s.history[k]);
        }
    }
}

/// Ending an auction before its end time has passed is refused with
/// `AuctionNotEnded`; `end_auction` then leaves the record as it was.
pub proof fn lemma_end_before_time_refused(s: BlitzView, now: u64)
    requires
        s.current.starting_time > 0,
        now <= s.current.ending_time,
    ensures
        end_error(s, now) == Some(Error::AuctionNotEnded),
{
}

/// Once an auction was ended, ending it again later is refused with `AlreadyEnded`.
pub proof fn lemma_end_twice_refused(s: BlitzView, now: u64, later: u64)
    requires
        end_error(s, now) is None,
        now <= later,
    ensures
        end_error(after_close(s, now), later) == Some(Error::AlreadyEnded),
{
}

/// After an auction with a winning URL closes at `close_time`, the winner's
/// URL is on display exactly until one display window has passed.
pub proof fn lemma_winner_url_window(s: BlitzView, close_time: u64, now: u64)
    requires
        close_time <= LATEST_TIME,
        s.current.preferred_url.len() > 0,
        close_time <= now,
    ensures
        now < close_time + URL_DISPLAY_DURATION ==> winner_url(after_close(s, close_time), now)
            == s.current.preferred_url,
        now >= close_time + URL_DISPLAY_DURATION ==> winner_url(after_close(s, close_time), now).len() == 0,
{
}

} // verus!
