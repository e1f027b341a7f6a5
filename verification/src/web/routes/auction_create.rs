//! `POST /api/create-auction`: creating an auction as the signed-in wallet.

use vstd::prelude::*;
use vstd::utf8::encode_utf8;
use crate::abi::{is_word_of, lemma_word_of, selector_of, uint3_string2_args, word_at, word_of};
use crate::client::create_auction::{create_auction_signature, create_auction_with_default_confirmation_request};
use crate::client::transaction::TransactionRequest;
use crate::primitives::{Address, parse_u256_decimal, u256_from_decimal_str, u256_from_u64};
use crate::text::{trim, trim_str};
use crate::web::auth::AuthState;
use crate::web::routes::RouteError;
use crate::web::session::{cookie_view, get_session_wallet, session_wallet};

verus! {

/// An auction to create: bidding time, starting bid in wei (as text),
/// title and description.
pub struct CreateAuctionRequest {
    pub bidding_time_seconds: u64,
    pub starting_bid_wei: String,
    pub title: String,
    pub description: String,
}

/// The first thing wrong with a creation request, in the order checked.
pub open spec fn create_request_problem(req: CreateAuctionRequest) -> Option<RouteError> {
    if req.bidding_time_seconds == 0 {
        Some(RouteError::BiddingTimeZero)
    } else if trim(req.starting_bid_wei@).len() == 0 {
        Some(RouteError::StartingBidRequired)
    } else if trim(req.title@).len() == 0 {
        Some(RouteError::TitleRequired)
    } else if trim(req.description@).len() == 0 {
        Some(RouteError::DescriptionRequired)
    } else {
        None
    }
}

/// Checks that the bidding time is positive and that the starting bid,
/// title and description are not blank.
pub fn validate_create_request(req: &CreateAuctionRequest) -> (r: Result<(), RouteError>)
    ensures
        match create_request_problem(*req) {
            Some(e) => r == Err::<(), RouteError>(e),
            None => r is Ok,
        },
{
    if req.bidding_time_seconds == 0 {
        return Err(RouteError::BiddingTimeZero);
    }
    if trim_str(req.starting_bid_wei.as_str()).unicode_len() == 0 {
        return Err(RouteError::StartingBidRequired);
    }
    if trim_str(req.title.as_str()).unicode_len() == 0 {
        return Err(RouteError::TitleRequired);
    }
    if trim_str(req.description.as_str()).unicode_len() == 0 {
        return Err(RouteError::DescriptionRequired);
    }
    Ok(())
}

/// The calldata of creating an auction with the default confirmation
/// window, for the given bidding time, starting bid, title and description.
pub open spec fn default_create_input(
    bidding_time: nat,
    starting_bid: nat,
    title: Seq<char>,
    description: Seq<char>,
) -> Seq<u8> {
    selector_of(create_auction_signature()) + uint3_string2_args(
        word_of(bidding_time),
        word_of(starting_bid),
        word_of(259200),
        encode_utf8(title),
        encode_utf8(description),
    )
}

/// Whether `r` is what a creation request comes to: the request's checks,
/// then the signed-in wallet as seller, then the trimmed starting bid,
/// make the factory's `createAuction` transaction.
pub open spec fn create_outcome(
    state: AuthState,
    session_cookie: Option<Seq<char>>,
    factory_address: Address,
    req: CreateAuctionRequest,
    r: Result<TransactionRequest, RouteError>,
) -> bool {
    match create_request_problem(req) {
        Some(e) => r == Err::<TransactionRequest, RouteError>(e),
        None => match session_wallet(state.sessions@, session_cookie) {
            Err(e) => r == Err::<TransactionRequest, RouteError>(RouteError::Session(e)),
            Ok(seller) => match parse_u256_decimal(trim(req.starting_bid_wei@)) {
                None => r == Err::<TransactionRequest, RouteError>(RouteError::InvalidStartingBid),
                Some(starting_bid) => {
                    &&& r matches Ok(tx)
                    &&& tx.from matches Some(s)
                    &&& s@ == seller
                    &&& tx.to == factory_address
                    &&& tx.value is None
                    &&& tx.input@ == default_create_input(
                        req.bidding_time_seconds as nat,
                        starting_bid,
                        req.title@,
                        req.description@,
                    )
                },
            },
        },
    }
}

/// Checks a creation request and builds the factory transaction.
pub fn prepare_create_auction(
    state: &AuthState,
    session_cookie: Option<&String>,
    factory_address: Address,
    req: &CreateAuctionRequest,
) -> (r: Result<TransactionRequest, RouteError>)
    ensures
        create_outcome(*state, cookie_view(session_cookie), factory_address, *req, r),
        create_request_problem(*req) is None && session_wallet(
            state.sessions@,
            cookie_view(session_cookie),
        ) is Ok ==> (parse_u256_decimal(trim(req.starting_bid_wei@)) matches Some(n) ==> (
        r matches Ok(tx) && exists|args: Seq<u8>|
            tx.input@ == selector_of(create_auction_signature()) + args && #[trigger] is_word_of(
                word_at(args, 1),
                n,
            ))),
{
    validate_create_request(req)?;
    let seller = match get_session_wallet(state, session_cookie) {
        Ok(a) => a,
        Err(e) => return Err(RouteError::Session(e)),
    };
    let bid_text = trim_str(req.starting_bid_wei.as_str());
    let starting_bid = match u256_from_decimal_str(bid_text.as_str()) {
        Ok(v) => v,
        Err(_) => return Err(RouteError::InvalidStartingBid),
    };
    let bidding_time = u256_from_u64(req.bidding_time_seconds);
    let ghost args = uint3_string2_args(
        word_of(req.bidding_time_seconds as nat),
        word_of(starting_bid@),
        word_of(259200),
        encode_utf8(req.title@),
        encode_utf8(req.description@),
    );
    proof {
        lemma_word_of(bidding_time.be@, req.bidding_time_seconds as nat);
        lemma_word_of(starting_bid.be@, starting_bid@);
        assert(word_at(args, 1) =~= starting_bid.be@);
        assert(is_word_of(word_at(args, 1), starting_bid@));
    }
    Ok(
        create_auction_with_default_confirmation_request(
            factory_address,
            seller,
            bidding_time,
            starting_bid,
            req.title.as_str(),
            req.description.as_str(),
        ),
    )
}

} // verus!
