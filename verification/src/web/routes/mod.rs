//! What each route checks and builds before the blockchain work, and the
//! answers it assembles after it.

pub mod auction;
pub mod auction_bid;
pub mod auction_create;
pub mod auction_list;
pub mod create_auction;
pub mod auction_query;
pub mod auction_withdraw;
pub mod bidding;
pub mod escrow_routes;
pub mod withdraw;

use vstd::prelude::*;
use crate::primitives::{Address, address_from_str, decode_hex_exact};
use crate::text::{trim, trim_str};
use crate::web::session::SessionError;

verus! {

/// Why a route refused a request before any blockchain work.
#[derive(Clone, Copy, Debug, PartialEq, Eq)]
pub enum RouteError {
    /// No usable signed-in session.
    Session(SessionError),
    InvalidAuctionAddress,
    InvalidBidAmount,
    InvalidStartingBid,
    BiddingTimeZero,
    StartingBidRequired,
    TitleRequired,
    DescriptionRequired,
}

impl RouteError {
    /// The text of the refusal.
    pub open spec fn message_spec(&self) -> Seq<char> {
        match self {
            RouteError::Session(e) => e.message_spec(),
            RouteError::InvalidAuctionAddress => "Invalid auction address"@,
            RouteError::InvalidBidAmount => "Invalid bid amount format"@,
            RouteError::InvalidStartingBid => "Invalid starting bid amount"@,
            RouteError::BiddingTimeZero => "bidding_time_seconds must be greater than 0"@,
            RouteError::StartingBidRequired => "starting_bid_wei is required"@,
            RouteError::TitleRequired => "title is required"@,
            RouteError::DescriptionRequired => "description is required"@,
        }
    }

    /// The text of the refusal.
    pub fn message(&self) -> (s: String)
        ensures
            s@ == self.message_spec(),
    {
        match self {
            RouteError::Session(e) => e.message(),
            RouteError::InvalidAuctionAddress => String::from_str("Invalid auction address"),
            RouteError::InvalidBidAmount => String::from_str("Invalid bid amount format"),
            RouteError::InvalidStartingBid => String::from_str("Invalid starting bid amount"),
            RouteError::BiddingTimeZero => String::from_str(
                "bidding_time_seconds must be greater than 0",
            ),
            RouteError::StartingBidRequired => String::from_str("starting_bid_wei is required"),
            RouteError::TitleRequired => String::from_str("title is required"),
            RouteError::DescriptionRequired => String::from_str("description is required"),
        }
    }
}

/// Reads an auction address given with surrounding white space.
pub fn parse_trimmed_address(raw: &str) -> (r: Result<Address, RouteError>)
    ensures
        match decode_hex_exact(trim(raw@), 20) {
            Some(a) => r matches Ok(x) && x@ == a,
            None => r == Err::<Address, RouteError>(RouteError::InvalidAuctionAddress),
        },
{
    let t = trim_str(raw);
    match address_from_str(t.as_str()) {
        Some(a) => Ok(a),
        None => Err(RouteError::InvalidAuctionAddress),
    }
}

} // verus!
