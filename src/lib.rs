//! An English auction: a bounded, rank-ordered bid ledger, the timing rules that
//! decide when an auction accepts bids, and the fixed binary layouts of the
//! records that the auction and its neighbouring programs keep.

pub mod accounts;
pub mod auction;
pub mod bytes;
pub mod error;
pub mod execution;
pub mod governance;
pub mod ledger;
pub mod record;
pub mod transaction;
pub mod vault;
