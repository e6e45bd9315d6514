//! An ascending auction with escrow, as a verified state machine.
//!
//! One auction slot runs at a time. Bidders pay into escrow when they bid,
//! an outbid bidder is refunded, and the winning amount goes to the platform
//! wallet when the auction closes; the winner's URL is then displayed for a
//! day. [`Blitz`] holds the stored state; each transition takes the current
//! time and returns the [`Outcome`] (transfers, then notifications) that its
//! environment must carry out for the transition to take effect.

pub mod auction;
pub mod blitz;
pub mod effects;
pub mod error;
pub mod laws;
pub mod query;

pub use auction::Auction;
pub use blitz::{Blitz, ContractInfo};
pub use effects::{Notice, Outcome, Transfer};
pub use error::Error;
pub use query::{AuctionSummary, DisplayStatus, QRStatus};
