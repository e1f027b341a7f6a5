//! `POST /api/bid`: placing a bid as the signed-in wallet.

use vstd::prelude::*;
use crate::client::bidding::place_bid_request;
use crate::client::transaction::TransactionRequest;
use crate::primitives::{decode_hex_exact, parse_u256_decimal, u256_from_decimal_str};
use crate::abi::selector_of;
use crate::text::{trim, trim_str};
use crate::web::auth::AuthState;
use crate::web::routes::{RouteError, parse_trimmed_address};
use crate::web::session::{cookie_view, get_session_wallet, session_wallet};

verus! {

/// A bid: the auction's address and the amount in wei, both as text.
pub struct PlaceBidRequest {
    pub auction_address: String,
    pub bid_amount_wei: String,
}

/// Whether `r` is what a bid request comes to: the signed-in wallet, the
/// trimmed auction address and the trimmed decimal amount, checked in that
/// order, make the `bid()` transaction.
pub open spec fn bid_outcome(
    state: AuthState,
    session_cookie: Option<Seq<char>>,
    req: PlaceBidRequest,
    r: Result<TransactionRequest, RouteError>,
) -> bool {
    match session_wallet(state.sessions@, session_cookie) {
        Err(e) => r == Err::<TransactionRequest, RouteError>(RouteError::Session(e)),
        Ok(bidder) => match decode_hex_exact(trim(req.auction_address@), 20) {
            None => r == Err::<TransactionRequest, RouteError>(RouteError::InvalidAuctionAddress),
            Some(auction) => match parse_u256_decimal(trim(req.bid_amount_wei@)) {
                None => r == Err::<TransactionRequest, RouteError>(RouteError::InvalidBidAmount),
                Some(amount) => {
                    &&& r matches Ok(tx)
                    &&& tx.from matches Some(b)
                    &&& b@ == bidder
                    &&& tx.to@ == auction
                    &&& tx.value matches Some(v)
                    &&& v@ == amount
                    &&& tx.input@ == selector_of("bid()"@)
                },
            },
        },
    }
}

/// Checks a bid request and builds its transaction.
pub fn prepare_bid(state: &AuthState, session_cookie: Option<&String>, req: &PlaceBidRequest) -> (r:
    Result<TransactionRequest, RouteError>)
    ensures
        bid_outcome(*state, cookie_view(session_cookie), *req, r),
        session_wallet(state.sessions@, cookie_view(session_cookie)) is Ok && decode_hex_exact(
            trim(req.auction_address@),
            20,
        ) is Some ==> (parse_u256_decimal(trim(req.bid_amount_wei@)) matches Some(n) ==> (
        r matches Ok(tx) && tx.value matches Some(v) && v@ == n)),
{
    let bidder = match get_session_wallet(state, session_cookie) {
        Ok(a) => a,
        Err(e) => return Err(RouteError::Session(e)),
    };
    let auction_address = parse_trimmed_address(req.auction_address.as_str())?;
    let amount_text = trim_str(req.bid_amount_wei.as_str());
    let bid_amount = match u256_from_decimal_str(amount_text.as_str()) {
        Ok(v) => v,
        Err(_) => return Err(RouteError::InvalidBidAmount),
    };
    Ok(place_bid_request(auction_address, bidder, bid_amount))
}

} // verus!
