//! The earlier form of the auction-creation route: no checks of the
//! request's fields, the starting bid read as it stands, and plain-text
//! refusals.

use vstd::prelude::*;
use crate::abi::lemma_word_of;
use crate::client::create_auction::create_auction_with_default_confirmation_request;
use crate::client::transaction::TransactionRequest;
use crate::primitives::{Address, parse_u256_decimal, u256_from_decimal_str, u256_from_u64};
use crate::web::auth::AuthState;
use crate::web::routes::auction_create::default_create_input;
use crate::web::session::{SessionError, cookie_view, get_session_wallet, session_wallet};

verus! {

/// An auction to create: bidding time, starting bid in wei (as text),
/// title and description.
pub struct CreateAuctionRequest {
    pub bidding_time_seconds: u64,
    pub starting_bid_wei: String,
    pub title: String,
    pub description: String,
}

/// The refusal text for a request without a usable session.
pub open spec fn seller_session_refusal(e: SessionError) -> Seq<char> {
    match e {
        SessionError::NotAuthenticated => "Not authenticated \u{2013} please sign in first"@,
        SessionError::InvalidSession => "Invalid or expired session"@,
        SessionError::InvalidWallet => "Invalid seller address"@,
    }
}

fn seller_session_message(e: SessionError) -> (s: String)
    ensures
        s@ == seller_session_refusal(e),
{
    match e {
        SessionError::NotAuthenticated => String::from_str("Not authenticated \u{2013} please sign in first"),
        SessionError::InvalidSession => String::from_str("Invalid or expired session"),
        SessionError::InvalidWallet => String::from_str("Invalid seller address"),
    }
}

/// Checks the session and the starting bid, and builds the factory's
/// `createAuction` transaction with the default confirmation window.
pub fn prepare_create_auction(
    state: &AuthState,
    session_cookie: Option<&String>,
    factory_address: Address,
    req: &CreateAuctionRequest,
) -> (r: Result<TransactionRequest, String>)
    ensures
        match session_wallet(state.sessions@, cookie_view(session_cookie)) {
            Err(e) => r matches Err(m) && m@ == seller_session_refusal(e),
            Ok(seller) => match parse_u256_decimal(req.starting_bid_wei@) {
                None => r matches Err(m) && m@ == "Invalid starting bid amount"@,
                Some(starting_bid) => {
                    &&& r matches Ok(tx)
                    &&& tx.from matches Some(s)
                    &&& s@ == seller
                    &&& tx.to == factory_address
                    &&& tx.value is None
                    &&& tx.input@ == default_create_input(
                        req.bidding_time_seconds as nat,
                        starting_bid,
                        req.title@,
                        req.description@,
                    )
                },
            },
        },
{
    let seller = match get_session_wallet(state, session_cookie) {
        Ok(a) => a,
        Err(e) => return Err(seller_session_message(e)),
    };
    let starting_bid = match u256_from_decimal_str(req.starting_bid_wei.as_str()) {
        Ok(v) => v,
        Err(_) => return Err(String::from_str("Invalid starting bid amount")),
    };
    let bidding_time = u256_from_u64(req.bidding_time_seconds);
    proof {
        lemma_word_of(bidding_time.be@, req.bidding_time_seconds as nat);
        lemma_word_of(starting_bid.be@, starting_bid@);
    }
    Ok(
        create_auction_with_default_confirmation_request(
            factory_address,
            seller,
            bidding_time,
            starting_bid,
            req.title.as_str(),
            req.description.as_str(),
        ),
    )
}

} // verus!
