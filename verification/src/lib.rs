//! Coordination of cross-chain swap deposits: a retry gate over a ledger of
//! deposit stamps, and the dispatch of one encoded remote call per request.

pub mod abi;
pub mod contract;
pub mod error;
pub mod gate;
pub mod ledger;
pub mod msg;
pub mod response;
pub mod state;
pub mod time;
pub mod uint256;
