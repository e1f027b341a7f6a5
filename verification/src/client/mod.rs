//! The blockchain client: what to send to the auction contracts and how
//! to read what comes back. Sending and waiting are left to the caller.

pub mod auction_loader;
pub mod bidding;
pub mod config;
pub mod create_auction;
pub mod escrow;
pub mod registry;
pub mod transaction;
pub mod withdraw;
