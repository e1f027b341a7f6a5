//! The earlier form of the withdrawal route: the auction address is read
//! as it stands, untrimmed, and the refusals are plain text.

use vstd::prelude::*;
use crate::client::withdraw::{WithdrawAction, WithdrawFlow, is_pending_call};
use crate::primitives::{address_from_str, decode_hex_exact};
use crate::web::auth::AuthState;
use crate::web::session::{SessionError, cookie_view, get_session_wallet, session_wallet};

verus! {

/// The auction to withdraw from, as text.
pub struct WithdrawRequest {
    pub auction_address: String,
}

/// The refusal text for a request without a usable session.
pub open spec fn caller_session_refusal(e: SessionError) -> Seq<char> {
    match e {
        SessionError::NotAuthenticated => "Not authenticated \u{2014} please sign in first"@,
        SessionError::InvalidSession => "Invalid or expired session"@,
        SessionError::InvalidWallet => "Invalid caller address in session"@,
    }
}

fn caller_session_message(e: SessionError) -> (s: String)
    ensures
        s@ == caller_session_refusal(e),
{
    match e {
        SessionError::NotAuthenticated => String::from_str("Not authenticated \u{2014} please sign in first"),
        SessionError::InvalidSession => String::from_str("Invalid or expired session"),
        SessionError::InvalidWallet => String::from_str("Invalid caller address in session"),
    }
}

/// Checks a withdrawal request, the session and then the auction address,
/// and starts the withdrawal for the session's wallet.
pub fn prepare_withdraw(state: &AuthState, session_cookie: Option<&String>, req: &WithdrawRequest) -> (r:
    Result<(WithdrawFlow, WithdrawAction), String>)
    ensures
        match session_wallet(state.sessions@, cookie_view(session_cookie)) {
            Err(e) => r matches Err(m) && m@ == caller_session_refusal(e),
            Ok(caller) => match decode_hex_exact(req.auction_address@, 20) {
                None => r matches Err(m) && m@ == "Invalid auction address"@,
                Some(auction) => {
                    &&& r matches Ok((flow, action))
                    &&& flow.caller@ == caller
                    &&& flow.contract@ == auction
                    &&& flow.stage is AwaitPending
                    &&& flow.wf()
                    &&& action matches WithdrawAction::Call(call)
                    &&& is_pending_call(call, flow.contract, flow.caller)
                },
            },
        },
{
    let caller = match get_session_wallet(state, session_cookie) {
        Ok(a) => a,
        Err(e) => return Err(caller_session_message(e)),
    };
    let auction_address = match address_from_str(req.auction_address.as_str()) {
        Some(a) => a,
        None => return Err(String::from_str("Invalid auction address")),
    };
    Ok(WithdrawFlow::start(auction_address, caller))
}

} // verus!
