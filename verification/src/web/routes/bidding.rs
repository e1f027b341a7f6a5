//! The earlier form of the bid route: the auction address and the amount
//! are read as they stand, untrimmed, and the refusals are plain text.

use vstd::prelude::*;
use crate::abi::selector_of;
use crate::client::bidding::place_bid_request;
use crate::client::transaction::TransactionRequest;
use crate::primitives::{address_from_str, decode_hex_exact, parse_u256_decimal, u256_from_decimal_str};
use crate::web::auth::AuthState;
use crate::web::session::{SessionError, cookie_view, get_session_wallet, session_wallet};

verus! {

/// A bid: the auction's address and the amount in wei, both as text.
pub struct PlaceBidRequest {
    pub auction_address: String,
    pub bid_amount_wei: String,
}

/// The refusal text for a request without a usable session.
pub open spec fn bidder_session_refusal(e: SessionError) -> Seq<char> {
    match e {
        SessionError::NotAuthenticated => "Not authenticated \u{2013} please sign in first"@,
        SessionError::InvalidSession => "Invalid or expired session"@,
        SessionError::InvalidWallet => "Invalid bidder address in session"@,
    }
}

fn bidder_session_message(e: SessionError) -> (s: String)
    ensures
        s@ == bidder_session_refusal(e),
{
    match e {
        SessionError::NotAuthenticated => String::from_str("Not authenticated \u{2013} please sign in first"),
        SessionError::InvalidSession => String::from_str("Invalid or expired session"),
        SessionError::InvalidWallet => String::from_str("Invalid bidder address in session"),
    }
}

/// Checks a bid request, in order the session, the auction address and
/// the amount, and builds the `bid()` transaction from the session's wallet.
pub fn prepare_place_bid(
    state: &AuthState,
    session_cookie: Option<&String>,
    req: &PlaceBidRequest,
) -> (r: Result<TransactionRequest, String>)
    ensures
        match session_wallet(state.sessions@, cookie_view(session_cookie)) {
            Err(e) => r matches Err(m) && m@ == bidder_session_refusal(e),
            Ok(bidder) => match decode_hex_exact(req.auction_address@, 20) {
                None => r matches Err(m) && m@ == "Invalid auction address"@,
                Some(auction) => match parse_u256_decimal(req.bid_amount_wei@) {
                    None => r matches Err(m) && m@ == "Invalid bid amount format"@,
                    Some(amount) => {
                        &&& r matches Ok(tx)
                        &&& tx.from matches Some(b)
                        &&& b@ == bidder
                        &&& tx.to@ == auction
                        &&& tx.value matches Some(v)
                        &&& v@ == amount
                        &&& tx.input@ == selector_of("bid()"@)
                    },
                },
            },
        },
{
    let bidder = match get_session_wallet(state, session_cookie) {
        Ok(a) => a,
        Err(e) => return Err(bidder_session_message(e)),
    };
    let auction_address = match address_from_str(req.auction_address.as_str()) {
        Some(a) => a,
        None => return Err(String::from_str("Invalid auction address")),
    };
    let bid_amount = match u256_from_decimal_str(req.bid_amount_wei.as_str()) {
        Ok(v) => v,
        Err(_) => return Err(String::from_str("Invalid bid amount format")),
    };
    Ok(place_bid_request(auction_address, bidder, bid_amount))
}

} // verus!
