use vstd::prelude::*;

verus! {

/// Why an operation of the auction contract was rejected.
///
/// A rejected operation changes nothing and moves no funds.
#[derive(Clone, Copy, Debug, PartialEq, Eq, Structural)]
pub enum Error {
    /// A bid arrived at or after the auction's end time.
    AuctionEnded,
    /// A bid arrived while no auction has been started.
    NoActiveAuction,
    /// A bid was below the minimum acceptable amount.
    BidTooLow,
    /// A bid carried an empty URL.
    EmptyUrl,
    /// `end_auction` was called while no auction has been started.
    NoAuctionToEnd,
    /// `end_auction` was called before the auction's end time had passed.
    AuctionNotEnded,
    /// `end_auction` was called on an auction that is already closed.
    AlreadyEnded,
    /// The caller is not the identity the operation is restricted to.
    Unauthorized,
    /// `initialize` was called on an already configured contract.
    AlreadyInitialized,
}

} // verus!
