//! The escrow routes: status of an auction's escrow for the signed-in
//! wallet, and the escrow actions (end, confirm, claim, refund).

use vstd::prelude::*;
use crate::abi::selector_of;
use crate::client::escrow::{
    EscrowStatus, claim_after_timeout_request, confirm_receipt_request, end_auction_request,
    flag_refund_request,
};
use crate::client::transaction::TransactionRequest;
use crate::primitives::{Address, address_from_str, decode_hex_exact};
use crate::text::trim;
use crate::web::auth::AuthState;
use crate::web::routes::{RouteError, parse_trimmed_address};
use crate::web::session::{cookie_view, get_session_wallet, session_wallet};

verus! {

/// The auction an escrow action is about, as text.
pub struct EscrowActionRequest {
    pub auction_address: String,
}

/// The escrow's status for the signed-in wallet.
pub struct EscrowStatusResponse {
    pub success: bool,
    pub status: String,
    pub time_remaining_seconds: u64,
    pub can_confirm_receipt: bool,
    pub can_claim_timeout: bool,
    pub can_flag_refund: bool,
}

/// The name of an escrow status.
pub open spec fn status_name(status: EscrowStatus) -> Seq<char> {
    match status {
        EscrowStatus::ActiveAuction => "ActiveAuction"@,
        EscrowStatus::AwaitingFinalization => "AwaitingFinalization"@,
        EscrowStatus::AwaitingBuyerConfirmation => "AwaitingBuyerConfirmation"@,
        EscrowStatus::Complete => "Complete"@,
        EscrowStatus::Refunded => "Refunded"@,
    }
}

/// The name of an escrow status, as the answer gives it.
pub fn status_to_string(status: EscrowStatus) -> (s: String)
    ensures
        s@ == status_name(status),
{
    match status {
        EscrowStatus::ActiveAuction => String::from_str("ActiveAuction"),
        EscrowStatus::AwaitingFinalization => String::from_str("AwaitingFinalization"),
        EscrowStatus::AwaitingBuyerConfirmation => String::from_str("AwaitingBuyerConfirmation"),
        EscrowStatus::Complete => String::from_str("Complete"),
        EscrowStatus::Refunded => String::from_str("Refunded"),
    }
}

/// Reads the auction address of an escrow action, trimmed.
pub fn parse_auction_address(raw: &str) -> (r: Result<Address, RouteError>)
    ensures
        match decode_hex_exact(trim(raw@), 20) {
            Some(a) => r matches Ok(x) && x@ == a,
            None => r == Err::<Address, RouteError>(RouteError::InvalidAuctionAddress),
        },
{
    parse_trimmed_address(raw)
}

/// Whether `r` gives the signed-in wallet and the trimmed auction address
/// of an escrow action, checked in that order.
pub open spec fn action_parties(
    state: AuthState,
    session_cookie: Option<Seq<char>>,
    raw_address: Seq<char>,
    r: Result<(Address, Address), RouteError>,
) -> bool {
    match session_wallet(state.sessions@, session_cookie) {
        Err(e) => r == Err::<(Address, Address), RouteError>(RouteError::Session(e)),
        Ok(caller) => match decode_hex_exact(trim(raw_address), 20) {
            None => r == Err::<(Address, Address), RouteError>(RouteError::InvalidAuctionAddress),
            Some(auction) => r matches Ok((c, a)) && c@ == caller && a@ == auction,
        },
    }
}

/// The signed-in wallet and the auction of an escrow action.
pub fn escrow_action_parties(
    state: &AuthState,
    session_cookie: Option<&String>,
    req: &EscrowActionRequest,
) -> (r: Result<(Address, Address), RouteError>)
    ensures
        action_parties(*state, cookie_view(session_cookie), req.auction_address@, r),
{
    let caller = match get_session_wallet(state, session_cookie) {
        Ok(a) => a,
        Err(e) => return Err(RouteError::Session(e)),
    };
    let auction = parse_auction_address(req.auction_address.as_str())?;
    Ok((caller, auction))
}

/// Whether `r` is the escrow transaction with the selector of `signature`
/// sent by the signed-in wallet to the auction of the request.
pub open spec fn action_outcome(
    state: AuthState,
    session_cookie: Option<Seq<char>>,
    req: EscrowActionRequest,
    signature: Seq<char>,
    r: Result<TransactionRequest, RouteError>,
) -> bool {
    match session_wallet(state.sessions@, session_cookie) {
        Err(e) => r == Err::<TransactionRequest, RouteError>(RouteError::Session(e)),
        Ok(caller) => match decode_hex_exact(trim(req.auction_address@), 20) {
            None => r == Err::<TransactionRequest, RouteError>(RouteError::InvalidAuctionAddress),
            Some(auction) => {
                &&& r matches Ok(tx)
                &&& tx.from matches Some(c)
                &&& c@ == caller
                &&& tx.to@ == auction
                &&& tx.value is None
                &&& tx.input@ == selector_of(signature)
            },
        },
    }
}

/// `POST /api/escrow/end`: the `endAuction()` transaction.
pub fn prepare_end_auction(
    state: &AuthState,
    session_cookie: Option<&String>,
    req: &EscrowActionRequest,
) -> (r: Result<TransactionRequest, RouteError>)
    ensures
        action_outcome(*state, cookie_view(session_cookie), *req, "endAuction()"@, r),
{
    let (caller, auction) = escrow_action_parties(state, session_cookie, req)?;
    Ok(end_auction_request(auction, caller))
}

/// `POST /api/escrow/confirm`: the `confirmReceipt()` transaction.
pub fn prepare_confirm_receipt(
    state: &AuthState,
    session_cookie: Option<&String>,
    req: &EscrowActionRequest,
) -> (r: Result<TransactionRequest, RouteError>)
    ensures
        action_outcome(*state, cookie_view(session_cookie), *req, "confirmReceipt()"@, r),
{
    let (caller, auction) = escrow_action_parties(state, session_cookie, req)?;
    Ok(confirm_receipt_request(auction, caller))
}

/// `POST /api/escrow/claim-timeout`: the `claimAfterTimeout()` transaction.
pub fn prepare_claim_timeout(
    state: &AuthState,
    session_cookie: Option<&String>,
    req: &EscrowActionRequest,
) -> (r: Result<TransactionRequest, RouteError>)
    ensures
        action_outcome(*state, cookie_view(session_cookie), *req, "claimAfterTimeout()"@, r),
{
    let (caller, auction) = escrow_action_parties(state, session_cookie, req)?;
    Ok(claim_after_timeout_request(auction, caller))
}

/// `POST /api/escrow/refund`: the `flagRefund()` transaction.
pub fn prepare_refund(
    state: &AuthState,
    session_cookie: Option<&String>,
    req: &EscrowActionRequest,
) -> (r: Result<TransactionRequest, RouteError>)
    ensures
        action_outcome(*state, cookie_view(session_cookie), *req, "flagRefund()"@, r),
{
    let (caller, auction) = escrow_action_parties(state, session_cookie, req)?;
    Ok(flag_refund_request(auction, caller))
}

/// `GET /api/escrow/status/{auction_address}`: the signed-in wallet and
/// the auction whose escrow to query; the address in the path is read as
/// it stands, untrimmed.
pub fn prepare_escrow_status(state: &AuthState, session_cookie: Option<&String>, path_address: &str) -> (r:
    Result<(Address, Address), RouteError>)
    ensures
        match session_wallet(state.sessions@, cookie_view(session_cookie)) {
            Err(e) => r == Err::<(Address, Address), RouteError>(RouteError::Session(e)),
            Ok(caller) => match decode_hex_exact(path_address@, 20) {
                None => r == Err::<(Address, Address), RouteError>(
                    RouteError::InvalidAuctionAddress,
                ),
                Some(auction) => r matches Ok((c, a)) && c@ == caller && a@ == auction,
            },
        },
{
    let caller = match get_session_wallet(state, session_cookie) {
        Ok(a) => a,
        Err(e) => return Err(RouteError::Session(e)),
    };
    match address_from_str(path_address) {
        Some(a) => Ok((caller, a)),
        None => Err(RouteError::InvalidAuctionAddress),
    }
}

/// The status answer: the status's name, and the remaining time and
/// permissions as read, where a failed read counts as zero or `false`.
pub fn escrow_status_response(
    status: EscrowStatus,
    time_remaining: Option<u64>,
    can_confirm: Option<bool>,
    can_claim: Option<bool>,
    can_refund: Option<bool>,
) -> (r: EscrowStatusResponse)
    ensures
        r.success,
        r.status@ == status_name(status),
        r.time_remaining_seconds == match time_remaining {
            Some(t) => t,
            None => 0,
        },
        r.can_confirm_receipt == (can_confirm == Some(true)),
        r.can_claim_timeout == (can_claim == Some(true)),
        r.can_flag_refund == (can_refund == Some(true)),
{
    EscrowStatusResponse {
        success: true,
        status: status_to_string(status),
        time_remaining_seconds: match time_remaining {
            Some(t) => t,
            None => 0,
        },
        can_confirm_receipt: match can_confirm {
            Some(b) => b,
            None => false,
        },
        can_claim_timeout: match can_claim {
            Some(b) => b,
            None => false,
        },
        can_flag_refund: match can_refund {
            Some(b) => b,
            None => false,
        },
    }
}

} // verus!
