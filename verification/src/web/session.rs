//! The wallet of the signed-in session that a request carries.

use vstd::prelude::*;
use crate::primitives::{Address, address_from_str, decode_hex_exact};
use crate::web::auth::AuthState;

verus! {

/// Why a request has no signed-in wallet.
#[derive(Clone, Copy, Debug, PartialEq, Eq)]
pub enum SessionError {
    /// The request carries no session cookie.
    NotAuthenticated,
    /// The session cookie names no open session.
    InvalidSession,
    /// The session's wallet text does not read as an address.
    InvalidWallet,
}

impl SessionError {
    /// The text of the error.
    pub open spec fn message_spec(&self) -> Seq<char> {
        match self {
            SessionError::NotAuthenticated => "Not authenticated \u{2014} please sign in first"@,
            SessionError::InvalidSession => "Invalid or expired session"@,
            SessionError::InvalidWallet => "Invalid wallet address in session"@,
        }
    }

    /// The text of the error.
    pub fn message(&self) -> (s: String)
        ensures
            s@ == self.message_spec(),
    {
        match self {
            SessionError::NotAuthenticated => String::from_str(
                "Not authenticated \u{2014} please sign in first",
            ),
            SessionError::InvalidSession => String::from_str("Invalid or expired session"),
            SessionError::InvalidWallet => String::from_str("Invalid wallet address in session"),
        }
    }
}

/// The wallet of the session that `session_cookie` names, among `sessions`.
pub open spec fn session_wallet(
    sessions: Map<Seq<char>, Seq<char>>,
    session_cookie: Option<Seq<char>>,
) -> Result<Seq<u8>, SessionError> {
    match session_cookie {
        None => Err(SessionError::NotAuthenticated),
        Some(id) => if !sessions.contains_key(id) {
            Err(SessionError::InvalidSession)
        } else {
            match decode_hex_exact(sessions[id], 20) {
                Some(a) => Ok(a),
                None => Err(SessionError::InvalidWallet),
            }
        },
    }
}

/// The optional cookie value as text.
pub open spec fn cookie_view(session_cookie: Option<&String>) -> Option<Seq<char>> {
    match session_cookie {
        Some(c) => Some(c@),
        None => None,
    }
}

/// The wallet of the signed-in session named by the session cookie.
pub fn get_session_wallet(state: &AuthState, session_cookie: Option<&String>) -> (r: Result<
    Address,
    SessionError,
>)
    ensures
        match r {
            Ok(a) => session_wallet(state.sessions@, cookie_view(session_cookie)) == Ok::<
                Seq<u8>,
                SessionError,
            >(a@),
            Err(e) => session_wallet(state.sessions@, cookie_view(session_cookie)) == Err::<
                Seq<u8>,
                SessionError,
            >(e),
        },
{
    let id = match session_cookie {
        Some(id) => id,
        None => return Err(SessionError::NotAuthenticated),
    };
    let wallet = match state.sessions.get(id) {
        Some(w) => w,
        None => return Err(SessionError::InvalidSession),
    };
    match address_from_str(wallet.as_str()) {
        Some(a) => Ok(a),
        None => Err(SessionError::InvalidWallet),
    }
}

} // verus!
