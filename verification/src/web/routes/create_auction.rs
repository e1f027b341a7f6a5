//! The cookie-based form of the auction-creation route: the seller is read
//! from a wallet cookie, refusals carry an HTTP status, and the answer
//! describes the created auction in full.

use vstd::prelude::*;
use crate::abi::lemma_word_of;
use crate::client::create_auction::{CreateAuctionResult, create_auction_with_default_confirmation_request};
use crate::client::transaction::TransactionRequest;
use crate::primitives::{
    Address, address_from_str, address_to_checksum, checksum_text, decimal, decode_hex_exact,
    parse_u256_decimal, u256_from_decimal_str, u256_from_u64, u256_to_string,
};
use crate::text::{trim, trim_str};
use crate::web::cookie::{cookie_lookup, cookie_value};
use crate::web::routes::auction_create::default_create_input;

verus! {

/// An auction to create: bidding time, starting bid in wei (as text),
/// title and description.
pub struct CreateAuctionRequest {
    pub bidding_time_seconds: u64,
    pub starting_bid_wei: String,
    pub title: String,
    pub description: String,
}

/// A created auction as text: the transaction hash, the addresses in
/// checksummed form and the numbers in decimal.
pub struct CreateAuctionResponse {
    pub tx_hash: String,
    pub auction_address: String,
    pub seller: String,
    pub bidding_time_seconds: String,
    pub end_time: String,
    pub starting_bid_wei: String,
    pub admin: String,
    pub confirmation_window: String,
}

/// A refusal: an HTTP status code and its text.
pub struct Refusal {
    pub status: u16,
    pub message: String,
}

/// Whether `r` is the refusal with `status` and `message`.
pub open spec fn is_refusal<T>(r: Result<T, Refusal>, status: u16, message: Seq<char>) -> bool {
    r matches Err(e) && e.status == status && e.message@ == message
}

fn refusal(status: u16, message: &str) -> (e: Refusal)
    ensures
        e.status == status,
        e.message@ == message@,
{
    Refusal { status, message: String::from_str(message) }
}

/// The first thing wrong with a creation request, in the order checked:
/// the bidding time, the title, the description, the starting bid.
pub open spec fn payload_problem(p: CreateAuctionRequest) -> Option<Seq<char>> {
    if p.bidding_time_seconds == 0 {
        Some("bidding_time_seconds must be greater than 0"@)
    } else if trim(p.title@).len() == 0 {
        Some("title is required"@)
    } else if trim(p.description@).len() == 0 {
        Some("description is required"@)
    } else if trim(p.starting_bid_wei@).len() == 0 {
        Some("starting_bid_wei is required"@)
    } else {
        None
    }
}

/// Checks that the bidding time is positive and that the title, the
/// description and the starting bid are not blank (400 otherwise).
pub fn validate_payload(payload: &CreateAuctionRequest) -> (r: Result<(), Refusal>)
    ensures
        match payload_problem(*payload) {
            Some(m) => is_refusal(r, 400, m),
            None => r is Ok,
        },
{
    if payload.bidding_time_seconds == 0 {
        return Err(refusal(400, "bidding_time_seconds must be greater than 0"));
    }
    if trim_str(payload.title.as_str()).unicode_len() == 0 {
        return Err(refusal(400, "title is required"));
    }
    if trim_str(payload.description.as_str()).unicode_len() == 0 {
        return Err(refusal(400, "description is required"));
    }
    if trim_str(payload.starting_bid_wei.as_str()).unicode_len() == 0 {
        return Err(refusal(400, "starting_bid_wei is required"));
    }
    Ok(())
}

/// The signed-in wallet's text in a `Cookie` header: the value of the first
/// of the cookies `wallet_address`, `address`, `siwe_address` and
/// `user_address` that is present.
pub open spec fn wallet_cookie(header: Seq<char>) -> Option<Seq<char>> {
    if cookie_lookup(header, "wallet_address"@) is Some {
        cookie_lookup(header, "wallet_address"@)
    } else if cookie_lookup(header, "address"@) is Some {
        cookie_lookup(header, "address"@)
    } else if cookie_lookup(header, "siwe_address"@) is Some {
        cookie_lookup(header, "siwe_address"@)
    } else {
        cookie_lookup(header, "user_address"@)
    }
}

/// Whether `r` is the seller that the cookies name (401 otherwise).
pub open spec fn seller_outcome(header: Seq<char>, r: Result<Address, Refusal>) -> bool {
    match wallet_cookie(header) {
        None => is_refusal(r, 401, "No signed-in wallet found. Please sign in first."@),
        Some(raw) => match decode_hex_exact(raw, 20) {
            None => is_refusal(r, 401, "Signed-in wallet address is invalid"@),
            Some(a) => r matches Ok(s) && s@ == a,
        },
    }
}

/// The signed-in seller named by the wallet cookies of a `Cookie` header.
pub fn get_seller_from_cookies(cookie_header: &str) -> (r: Result<Address, Refusal>)
    ensures
        seller_outcome(cookie_header@, r),
{
    let raw = match cookie_value(cookie_header, "wallet_address") {
        Some(v) => v,
        None => match cookie_value(cookie_header, "address") {
            Some(v) => v,
            None => match cookie_value(cookie_header, "siwe_address") {
                Some(v) => v,
                None => match cookie_value(cookie_header, "user_address") {
                    Some(v) => v,
                    None => return Err(refusal(401, "No signed-in wallet found. Please sign in first.")),
                },
            },
        },
    };
    match address_from_str(raw.as_str()) {
        Some(a) => Ok(a),
        None => Err(refusal(401, "Signed-in wallet address is invalid")),
    }
}

/// Checks a creation request and the seller's cookies, and builds the
/// factory's `createAuction` transaction with the default confirmation
/// window and the trimmed starting bid.
pub fn prepare_create_auction_from_request(
    cookie_header: &str,
    factory_address: Address,
    payload: &CreateAuctionRequest,
) -> (r: Result<TransactionRequest, Refusal>)
    ensures
        match payload_problem(*payload) {
            Some(m) => is_refusal(r, 400, m),
            None => match wallet_cookie(cookie_header@) {
                None => is_refusal(r, 401, "No signed-in wallet found. Please sign in first."@),
                Some(raw) => match decode_hex_exact(raw, 20) {
                    None => is_refusal(r, 401, "Signed-in wallet address is invalid"@),
                    Some(seller) => match parse_u256_decimal(trim(payload.starting_bid_wei@)) {
                        None => is_refusal(r, 400, "Invalid starting_bid_wei"@),
                        Some(starting_bid) => {
                            &&& r matches Ok(tx)
                            &&& tx.from matches Some(s)
                            &&& s@ == seller
                            &&& tx.to == factory_address
                            &&& tx.value is None
                            &&& tx.input@ == default_create_input(
                                payload.bidding_time_seconds as nat,
                                starting_bid,
                                payload.title@,
                                payload.description@,
                            )
                        },
                    },
                },
            },
        },
{
    validate_payload(payload)?;
    let seller = get_seller_from_cookies(cookie_header)?;
    let bid_text = trim_str(payload.starting_bid_wei.as_str());
    let starting_bid = match u256_from_decimal_str(bid_text.as_str()) {
        Ok(v) => v,
        Err(_) => return Err(refusal(400, "Invalid starting_bid_wei")),
    };
    let bidding_time = u256_from_u64(payload.bidding_time_seconds);
    proof {
        lemma_word_of(bidding_time.be@, payload.bidding_time_seconds as nat);
        lemma_word_of(starting_bid.be@, starting_bid@);
    }
    Ok(
        create_auction_with_default_confirmation_request(
            factory_address,
            seller,
            bidding_time,
            starting_bid,
            payload.title.as_str(),
            payload.description.as_str(),
        ),
    )
}

/// The answer describing a created auction.
pub fn create_auction_response(result: &CreateAuctionResult) -> (r: CreateAuctionResponse)
    ensures
        r.tx_hash@ == result.tx_hash@,
        r.auction_address@ == checksum_text(result.auction_address@),
        r.seller@ == checksum_text(result.seller@),
        r.bidding_time_seconds@ == decimal(result.bidding_time_seconds@),
        r.end_time@ == decimal(result.end_time@),
        r.starting_bid_wei@ == decimal(result.starting_bid_wei@),
        r.admin@ == checksum_text(result.admin@),
        r.confirmation_window@ == decimal(result.confirmation_window@),
{
    CreateAuctionResponse {
        tx_hash: result.tx_hash.clone(),
        auction_address: address_to_checksum(&result.auction_address),
        seller: address_to_checksum(&result.seller),
        bidding_time_seconds: u256_to_string(&result.bidding_time_seconds),
        end_time: u256_to_string(&result.end_time),
        starting_bid_wei: u256_to_string(&result.starting_bid_wei),
        admin: address_to_checksum(&result.admin),
        confirmation_window: u256_to_string(&result.confirmation_window),
    }
}

} // verus!
