//! `POST /api/withdraw`: withdrawing the signed-in wallet's refundable bids.

use vstd::prelude::*;
use crate::client::withdraw::{WithdrawAction, WithdrawFlow, is_pending_call};
use crate::primitives::decode_hex_exact;
use crate::text::trim;
use crate::web::auth::AuthState;
use crate::web::routes::{RouteError, parse_trimmed_address};
use crate::web::session::{cookie_view, get_session_wallet, session_wallet};

verus! {

/// The auction to withdraw from, as text.
pub struct WithdrawRequest {
    pub auction_address: String,
}

/// Checks a withdrawal request and starts the withdrawal for the
/// signed-in wallet at the (trimmed) auction address.
pub fn prepare_withdraw(state: &AuthState, session_cookie: Option<&String>, req: &WithdrawRequest) -> (r:
    Result<(WithdrawFlow, WithdrawAction), RouteError>)
    ensures
        match session_wallet(state.sessions@, cookie_view(session_cookie)) {
            Err(e) => r matches Err(x) && x == RouteError::Session(e),
            Ok(caller) => match decode_hex_exact(trim(req.auction_address@), 20) {
                None => r matches Err(x) && x == RouteError::InvalidAuctionAddress,
                Some(auction) => {
                    &&& r matches Ok((flow, action))
                    &&& flow.caller@ == caller
                    &&& flow.contract@ == auction
                    &&& flow.stage is AwaitPending
                    &&& flow.wf()
                    &&& action matches WithdrawAction::Call(call)
                    &&& is_pending_call(call, flow.contract, flow.caller)
                },
            },
        },
{
    let caller = match get_session_wallet(state, session_cookie) {
        Ok(a) => a,
        Err(e) => return Err(RouteError::Session(e)),
    };
    let auction_address = parse_trimmed_address(req.auction_address.as_str())?;
    Ok(WithdrawFlow::start(auction_address, caller))
}

} // verus!
