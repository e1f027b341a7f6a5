//! Sign-in with an Ethereum wallet: single-use nonces, verification of a
//! signed sign-in message, sessions, and logout.

use vstd::prelude::*;
use crate::primitives::{
    Address, address_eq, address_from_str, address_to_checksum, checksum_text, decode_hex_exact,
    law_checksum_text_reads_back,
    message_signer, recover_address_from_msg, signature_from_str, signature_of_text,
};
use crate::text::{
    trim_end, trim_start,
    chars_of, find_line_with_prefix, lemma_found_line_has_prefix, line_with_prefix, string_from_chars,
};
use crate::web::cookie::{cookie_lookup, law_session_cookie_reads_back, session_cookie_name};
use crate::web::session::{SessionError, cookie_view, session_wallet};
use crate::web::store::StringMap;

verus! {

/// A freshly issued sign-in nonce.
pub struct NonceResponse {
    pub nonce: String,
}

/// A signed sign-in message and its signature, as hexadecimal text.
pub struct VerifyRequest {
    pub message: String,
    pub signature: String,
}

/// The answer to a successful sign-in: the wallet, in checksummed text.
pub struct VerifyResponse {
    pub success: bool,
    pub wallet: String,
}

/// The answer to a logout.
pub struct LogoutResponse {
    pub success: bool,
}

/// The nonces issued and not yet used, and the open sessions (session id
/// to wallet text).
pub struct AuthState {
    pub nonces: StringMap,
    pub sessions: StringMap,
}

impl AuthState {
    /// No nonces and no sessions.
    pub fn new() -> (s: AuthState)
        ensures
            s.nonces@ == Map::<Seq<char>, Seq<char>>::empty(),
            s.sessions@ == Map::<Seq<char>, Seq<char>>::empty(),
    {
        AuthState { nonces: StringMap::new(), sessions: StringMap::new() }
    }
}

/// Whether `c` is a lower-case hexadecimal digit.
pub open spec fn is_lower_hex_digit(c: char) -> bool {
    ('0' <= c && c <= '9') || ('a' <= c && c <= 'f')
}

/// Whether `s` is the hyphenated lower-case text of a version 4 UUID:
/// 8-4-4-4-12 lower-case hex digits separated by `'-'`, the version digit
/// `'4'`, and a variant digit among `8`, `9`, `a`, `b`.
pub open spec fn is_uuid_v4_text(s: Seq<char>) -> bool {
    &&& s.len() == 36
    &&& forall|i: int|
        0 <= i < 36 ==> if i == 8 || i == 13 || i == 18 || i == 23 {
            #[trigger] s[i] == '-'
        } else {
            is_lower_hex_digit(s[i])
        }
    &&& s[14] == '4'
    &&& (s[19] == '8' || s[19] == '9' || s[19] == 'a' || s[19] == 'b')
}

/// `uuid::Uuid::new_v4` in its `Display` text. The value is random: what is
/// stated is the shape of every outcome (hyphenated lower-case hex, with
/// the version and variant digits that `new_v4` sets), not which one.
#[verifier::external_body]
fn new_uuid_v4() -> (s: String)
    ensures
        is_uuid_v4_text(s@),
{
    uuid::Uuid::new_v4().to_string()
}

/// What issuing a nonce does: the nonce, the text of a fresh random v4
/// UUID, is recorded as unused, and the sessions stay as they were.
pub open spec fn nonce_outcome(before: AuthState, after: AuthState, r: NonceResponse) -> bool {
    &&& is_uuid_v4_text(r.nonce@)
    &&& after.nonces@ == before.nonces@.insert(r.nonce@, r.nonce@)
    &&& after.sessions@ == before.sessions@
}

/// Issues a new nonce and records it as unused.
pub fn get_nonce(state: &mut AuthState) -> (r: NonceResponse)
    ensures
        nonce_outcome(*old(state), *final(state), r),
{
    let nonce = new_uuid_v4();
    state.nonces.insert(nonce.clone(), nonce.clone());
    NonceResponse { nonce }
}

/// Why a sign-in was refused.
#[derive(Clone, Copy, Debug, PartialEq, Eq)]
pub enum AuthError {
    NonceMissing,
    WalletMissing,
    InvalidWallet,
    InvalidNonce,
    InvalidSignatureFormat,
    RecoverFailed,
    SignatureMismatch,
}

impl AuthError {
    /// The text of the refusal.
    pub open spec fn message_spec(&self) -> Seq<char> {
        match self {
            AuthError::NonceMissing => "Nonce missing"@,
            AuthError::WalletMissing => "Wallet missing"@,
            AuthError::InvalidWallet => "Invalid wallet address"@,
            AuthError::InvalidNonce => "Invalid or expired nonce"@,
            AuthError::InvalidSignatureFormat => "Invalid signature format"@,
            AuthError::RecoverFailed => "Failed to recover signer"@,
            AuthError::SignatureMismatch => "Signature does not match claimed address"@,
        }
    }

    /// The text of the refusal.
    pub fn message(&self) -> (s: String)
        ensures
            s@ == self.message_spec(),
    {
        match self {
            AuthError::NonceMissing => String::from_str("Nonce missing"),
            AuthError::WalletMissing => String::from_str("Wallet missing"),
            AuthError::InvalidWallet => String::from_str("Invalid wallet address"),
            AuthError::InvalidNonce => String::from_str("Invalid or expired nonce"),
            AuthError::InvalidSignatureFormat => String::from_str("Invalid signature format"),
            AuthError::RecoverFailed => String::from_str("Failed to recover signer"),
            AuthError::SignatureMismatch => String::from_str(
                "Signature does not match claimed address",
            ),
        }
    }
}

/// A successful sign-in: the answer, and the id of the new session.
pub struct SiweLogin {
    pub response: VerifyResponse,
    pub session_id: String,
}

/// The nonce of a sign-in message: the rest of its first line that starts
/// with `"Nonce: "`.
pub open spec fn message_nonce(message: Seq<char>) -> Option<Seq<char>> {
    match find_line_with_prefix(message, "Nonce: "@) {
        Some(line) => Some(line.skip("Nonce: "@.len() as int)),
        None => None,
    }
}

/// The wallet line of a sign-in message: its first line that starts with `"0x"`.
pub open spec fn message_wallet_line(message: Seq<char>) -> Option<Seq<char>> {
    find_line_with_prefix(message, "0x"@)
}

/// Whether the state is as it was.
pub open spec fn unchanged(before: AuthState, after: AuthState) -> bool {
    after.nonces@ == before.nonces@ && after.sessions@ == before.sessions@
}

/// What verifying a sign-in does, from the state `before` to the state
/// `after`, with result `r`. In order: the message must name a nonce and a
/// wallet line that reads as an address; the nonce is then used up, whether
/// or not it was outstanding, and must have been; the signature must read
/// and recover to the claimed wallet. On success a session is opened for
/// the wallet under a new random id; a refusal opens none.
pub open spec fn siwe_outcome(
    before: AuthState,
    after: AuthState,
    payload: VerifyRequest,
    r: Result<SiweLogin, AuthError>,
) -> bool {
        match message_nonce(payload.message@) {
            None => r == Err::<SiweLogin, AuthError>(AuthError::NonceMissing) && unchanged(
                before,
                after,
            ),
            Some(nonce) => match message_wallet_line(payload.message@) {
                None => r == Err::<SiweLogin, AuthError>(AuthError::WalletMissing) && unchanged(
                    before,
                    after,
                ),
                Some(line) => match decode_hex_exact(line, 20) {
                    None => r == Err::<SiweLogin, AuthError>(AuthError::InvalidWallet) && unchanged(
                        before,
                        after,
                    ),
                    Some(claimed) => {
                        &&& after.nonces@ == before.nonces@.remove(nonce)
                        &&& if !before.nonces@.contains_key(nonce) {
                            r == Err::<SiweLogin, AuthError>(AuthError::InvalidNonce)
                                && after.sessions@ == before.sessions@
                        } else {
                            match signature_of_text(payload.signature@) {
                                None => r == Err::<SiweLogin, AuthError>(
                                    AuthError::InvalidSignatureFormat,
                                ) && after.sessions@ == before.sessions@,
                                Some((sr, ss, parity)) => match message_signer(
                                    sr,
                                    ss,
                                    parity,
                                    payload.message@,
                                ) {
                                    None => r == Err::<SiweLogin, AuthError>(
                                        AuthError::RecoverFailed,
                                    ) && after.sessions@ == before.sessions@,
                                    Some(signer) => if signer != claimed {
                                        r == Err::<SiweLogin, AuthError>(
                                            AuthError::SignatureMismatch,
                                        ) && after.sessions@ == before.sessions@
                                    } else {
                                        r matches Ok(login) && login.response.success
                                            && login.response.wallet@ == checksum_text(signer)
                                            && is_uuid_v4_text(login.session_id@)
                                            && after.sessions@ == before.sessions@.insert(
                                            login.session_id@,
                                            checksum_text(signer),
                                        )
                                    },
                                },
                            }
                        }
                    },
                },
            },
        }
}

/// Verifies a signed sign-in message (see `siwe_outcome`).
pub fn verify_siwe(state: &mut AuthState, payload: &VerifyRequest) -> (r: Result<SiweLogin, AuthError>)
    ensures
        siwe_outcome(*old(state), *final(state), *payload, r),
        final(state).nonces@ == old(state).nonces@ || (message_nonce(payload.message@) matches Some(
            n,
        ) && final(state).nonces@ == old(state).nonces@.remove(n)),
{
    let msg = chars_of(payload.message.as_str());
    let nonce_prefix = chars_of("Nonce: ");
    let nonce_line = match line_with_prefix(msg.as_slice(), nonce_prefix.as_slice()) {
        Some(l) => l,
        None => return Err(AuthError::NonceMissing),
    };
    proof {
        lemma_found_line_has_prefix(msg@, nonce_prefix@);
    }
    let mut nonce_chars: Vec<char> = Vec::new();
    let mut k: usize = nonce_prefix.len();
    assert(nonce_chars@ =~= nonce_line@.subrange(nonce_prefix@.len() as int, k as int));
    while k < nonce_line.len()
        invariant
            nonce_prefix@.len() <= k <= nonce_line@.len(),
            nonce_chars@ == nonce_line@.subrange(nonce_prefix@.len() as int, k as int),
        decreases nonce_line@.len() - k,
    {
        nonce_chars.push(nonce_line[k]);
        k = k + 1;
        assert(nonce_chars@ =~= nonce_line@.subrange(nonce_prefix@.len() as int, k as int));
    }
    assert(nonce_chars@ =~= nonce_line@.skip(nonce_prefix@.len() as int));
    let nonce = string_from_chars(nonce_chars.as_slice());
    let wallet_prefix = chars_of("0x");
    let wallet_line = match line_with_prefix(msg.as_slice(), wallet_prefix.as_slice()) {
        Some(l) => l,
        None => return Err(AuthError::WalletMissing),
    };
    let wallet_text = string_from_chars(wallet_line.as_slice());
    let claimed: Address = match address_from_str(wallet_text.as_str()) {
        Some(a) => a,
        None => return Err(AuthError::InvalidWallet),
    };
    let valid_nonce = state.nonces.remove(&nonce);
    if valid_nonce.is_none() {
        return Err(AuthError::InvalidNonce);
    }
    let sig = match signature_from_str(payload.signature.as_str()) {
        Some(sig) => sig,
        None => return Err(AuthError::InvalidSignatureFormat),
    };
    let recovered = match recover_address_from_msg(&sig, payload.message.as_str()) {
        Some(a) => a,
        None => return Err(AuthError::RecoverFailed),
    };
    if !address_eq(&recovered, &claimed) {
        return Err(AuthError::SignatureMismatch);
    }
    let session_id = new_uuid_v4();
    let wallet = address_to_checksum(&recovered);
    state.sessions.insert(session_id.clone(), wallet.clone());
    Ok(SiweLogin { response: VerifyResponse { success: true, wallet }, session_id })
}

/// What logging out does: the session that the cookie names, if any, is
/// closed, and nothing else changes.
pub open spec fn logout_outcome(
    before: AuthState,
    after: AuthState,
    session_cookie: Option<Seq<char>>,
) -> bool {
    &&& after.nonces@ == before.nonces@
    &&& match session_cookie {
        Some(id) => after.sessions@ == before.sessions@.remove(id),
        None => after.sessions@ == before.sessions@,
    }
}

/// Ends the session named by the session cookie, if there is one.
pub fn logout(state: &mut AuthState, session_cookie: Option<&String>) -> (r: LogoutResponse)
    ensures
        r.success,
        logout_outcome(*old(state), *final(state), cookie_view(session_cookie)),
{
    if let Some(id) = session_cookie {
        let _ = state.sessions.remove(id);
    }
    LogoutResponse { success: true }
}

/// Whether `payload` is a message naming `nonce`, with a wallet line for
/// `wallet`, signed by `wallet`.
pub open spec fn signed_by_wallet(payload: VerifyRequest, nonce: Seq<char>, wallet: Seq<u8>) -> bool {
    &&& message_nonce(payload.message@) == Some(nonce)
    &&& message_wallet_line(payload.message@) matches Some(line)
    &&& decode_hex_exact(line, 20) == Some(wallet)
    &&& signature_of_text(payload.signature@) matches Some((sr, ss, parity))
    &&& message_signer(sr, ss, parity, payload.message@) == Some(wallet)
}

/// A nonce just issued signs in the wallet that signs a message naming it:
/// the sign-in succeeds, opens a session for that wallet, and uses the
/// nonce up.
pub proof fn law_issued_nonce_signs_in(
    s0: AuthState,
    s1: AuthState,
    s2: AuthState,
    issued: NonceResponse,
    payload: VerifyRequest,
    wallet: Seq<u8>,
    r: Result<SiweLogin, AuthError>,
)
    requires
        nonce_outcome(s0, s1, issued),
        signed_by_wallet(payload, issued.nonce@, wallet),
        siwe_outcome(s1, s2, payload, r),
    ensures
        r matches Ok(login) && s2.sessions@ == s1.sessions@.insert(
            login.session_id@,
            checksum_text(wallet),
        ),
        !s2.nonces@.contains_key(issued.nonce@),
{
}

/// A sign-in uses up at most the nonce that its own message names,
/// whatever its outcome: every other outstanding nonce stays outstanding,
/// with what it was issued as.
pub proof fn law_sign_in_keeps_other_nonces(
    s0: AuthState,
    s1: AuthState,
    payload: VerifyRequest,
    r: Result<SiweLogin, AuthError>,
    other: Seq<char>,
)
    requires
        siwe_outcome(s0, s1, payload, r),
        s0.nonces@.contains_key(other),
        message_nonce(payload.message@) != Some(other),
    ensures
        s1.nonces@.contains_key(other),
        s1.nonces@[other] == s0.nonces@[other],
{
}

/// Two clients sign in at once: each is issued a nonce, then each signs a
/// message naming its own nonce. Both sign-ins succeed, whichever comes
/// first, and each opens a session for its own wallet.
pub proof fn law_interleaved_sign_ins(
    s0: AuthState,
    s1: AuthState,
    s2: AuthState,
    s3: AuthState,
    s4: AuthState,
    issued_a: NonceResponse,
    issued_b: NonceResponse,
    payload_a: VerifyRequest,
    wallet_a: Seq<u8>,
    r_a: Result<SiweLogin, AuthError>,
    payload_b: VerifyRequest,
    wallet_b: Seq<u8>,
    r_b: Result<SiweLogin, AuthError>,
)
    requires
        nonce_outcome(s0, s1, issued_a),
        nonce_outcome(s1, s2, issued_b),
        issued_a.nonce@ != issued_b.nonce@,
        signed_by_wallet(payload_a, issued_a.nonce@, wallet_a),
        siwe_outcome(s2, s3, payload_a, r_a),
        signed_by_wallet(payload_b, issued_b.nonce@, wallet_b),
        siwe_outcome(s3, s4, payload_b, r_b),
    ensures
        r_a matches Ok(login) && login.response.wallet@ == checksum_text(wallet_a)
            && s3.sessions@ == s2.sessions@.insert(login.session_id@, checksum_text(wallet_a)),
        r_b matches Ok(login) && login.response.wallet@ == checksum_text(wallet_b)
            && s4.sessions@ == s3.sessions@.insert(login.session_id@, checksum_text(wallet_b)),
        !s4.nonces@.contains_key(issued_a.nonce@),
        !s4.nonces@.contains_key(issued_b.nonce@),
{
    assert(s2.nonces@.contains_key(issued_a.nonce@));
    assert(s2.nonces@.contains_key(issued_b.nonce@));
    assert(s3.nonces@.contains_key(issued_b.nonce@));
}

/// A nonce signs in at most once: after a successful sign-in, another
/// sign-in whose message names the same nonce is refused.
pub proof fn law_nonce_single_use(
    s0: AuthState,
    s1: AuthState,
    s2: AuthState,
    first: VerifyRequest,
    r1: Result<SiweLogin, AuthError>,
    second: VerifyRequest,
    r2: Result<SiweLogin, AuthError>,
)
    requires
        siwe_outcome(s0, s1, first, r1),
        r1 is Ok,
        message_nonce(second.message@) == message_nonce(first.message@),
        siwe_outcome(s1, s2, second, r2),
    ensures
        r2 is Err,
{
}

/// A refused sign-in opens no session.
pub proof fn law_refused_sign_in_opens_no_session(
    s0: AuthState,
    s1: AuthState,
    payload: VerifyRequest,
    r: Result<SiweLogin, AuthError>,
)
    requires
        siwe_outcome(s0, s1, payload, r),
        r is Err,
    ensures
        s1.sessions@ == s0.sessions@,
{
}

/// The session that a successful sign-in opens gives back the signing
/// wallet.
pub proof fn law_sign_in_session_reads_back_wallet(
    s0: AuthState,
    s1: AuthState,
    payload: VerifyRequest,
    login: SiweLogin,
)
    requires
        siwe_outcome(s0, s1, payload, Ok::<SiweLogin, AuthError>(login)),
    ensures
        message_wallet_line(payload.message@) matches Some(line) && decode_hex_exact(line, 20)
            matches Some(wallet) && session_wallet(s1.sessions@, Some(login.session_id@))
            == Ok::<Seq<u8>, SessionError>(wallet),
{
    let line = message_wallet_line(payload.message@).unwrap();
    let wallet = decode_hex_exact(line, 20).unwrap();
    assert(wallet.len() == 20);
    law_checksum_text_reads_back(wallet);
}

/// After logout, the session named by the cookie gives no wallet, and every
/// other session gives what it gave before.
pub proof fn law_logout_ends_only_that_session(
    s0: AuthState,
    s1: AuthState,
    session_id: Seq<char>,
    other: Seq<char>,
)
    requires
        logout_outcome(s0, s1, Some(session_id)),
        other != session_id,
    ensures
        session_wallet(s1.sessions@, Some(session_id)) == Err::<Seq<u8>, SessionError>(
            SessionError::InvalidSession,
        ),
        session_wallet(s1.sessions@, Some(other)) == session_wallet(s0.sessions@, Some(other)),
{
    if s0.sessions@.contains_key(other) {
        assert(s1.sessions@[other] == s0.sessions@[other]);
    }
}

/// The session cookie that a successful sign-in sets is read back from the
/// `Cookie` header a browser returns with it.
pub proof fn law_sign_in_cookie_reads_back(
    s0: AuthState,
    s1: AuthState,
    payload: VerifyRequest,
    login: SiweLogin,
)
    requires
        siwe_outcome(s0, s1, payload, Ok::<SiweLogin, AuthError>(login)),
    ensures
        cookie_lookup("trust_session="@ + login.session_id@, session_cookie_name()) == Some(
            login.session_id@,
        ),
{
    let id = login.session_id@;
    assert(is_uuid_v4_text(id));
    assert forall|k: int| 0 <= k < id.len() implies id[k] != ';' by {
        if k == 8 || k == 13 || k == 18 || k == 23 {
            assert(id[k] == '-');
        } else {
            assert(is_lower_hex_digit(id[k]));
        }
    }
    assert(is_lower_hex_digit(id[0]));
    assert(is_lower_hex_digit(id[35]));
    assert(trim_start(id) == id);
    assert(id.last() == id[35]);
    assert(trim_end(id) == id);
    law_session_cookie_reads_back(id);
}

} // verus!
