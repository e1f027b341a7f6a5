use trust_rust::primitives::Address;
use trust_rust::web::auth::{get_nonce, logout, verify_siwe, AuthError, AuthState, VerifyRequest};
use trust_rust::web::cookie::{cookie_value, session_clear_cookie, session_cookie, session_set_cookie};
use trust_rust::web::session::{get_session_wallet, SessionError};
use trust_rust::web::store::StringMap;

const KEY: [u8; 32] = [0x42; 32];

fn address_to_checksum(a: &Address) -> String {
    alloy_primitives::Address::from(a.bytes).to_string()
}

fn signer_address(key: &[u8; 32]) -> Address {
    let sk = k256::ecdsa::SigningKey::from_slice(key).unwrap();
    Address { bytes: alloy_primitives::Address::from_private_key(&sk).into_array() }
}

fn sign(key: &[u8; 32], message: &str) -> String {
    let sk = k256::ecdsa::SigningKey::from_slice(key).unwrap();
    let hash = alloy_primitives::eip191_hash_message(message.as_bytes());
    let (sig, recid) = sk.sign_prehash_recoverable(hash.as_slice()).unwrap();
    let sig = alloy_primitives::Signature::from((sig, recid));
    let mut text = String::from("0x");
    for b in sig.as_bytes() {
        text.push_str(&format!("{:02x}", b));
    }
    text
}

fn message_for(wallet: &str, nonce: &str) -> String {
    format!(
        "localhost wants you to sign in with your Ethereum account:\n{}\n\nSign in to TRUST.\n\nURI: http://localhost:3000\nVersion: 1\nChain ID: 31337\nNonce: {}\nIssued At: 2024-01-01T00:00:00Z",
        wallet, nonce
    )
}

fn request(message: String, signature: String) -> VerifyRequest {
    VerifyRequest { message, signature }
}

#[test]
fn string_map_basics() {
    let mut m = StringMap::new();
    assert_eq!(m.get(&"a".to_string()), None);
    m.insert("a".to_string(), "1".to_string());
    m.insert("b".to_string(), "2".to_string());
    m.insert("a".to_string(), "3".to_string());
    assert_eq!(m.get(&"a".to_string()), Some("3".to_string()));
    assert_eq!(m.get(&"b".to_string()), Some("2".to_string()));
    assert_eq!(m.remove(&"a".to_string()), Some("3".to_string()));
    assert_eq!(m.get(&"a".to_string()), None);
    assert_eq!(m.remove(&"a".to_string()), None);
    assert_eq!(m.get(&"b".to_string()), Some("2".to_string()));
}

fn is_uuid_v4_text(s: &str) -> bool {
    let cs: Vec<char> = s.chars().collect();
    cs.len() == 36
        && cs.iter().enumerate().all(|(i, c)| {
            if [8, 13, 18, 23].contains(&i) {
                *c == '-'
            } else {
                c.is_ascii_digit() || ('a'..='f').contains(c)
            }
        })
        && cs[14] == '4'
        && ['8', '9', 'a', 'b'].contains(&cs[19])
}

#[test]
fn nonces_and_session_ids_are_v4_uuid_text() {
    let mut state = AuthState::new();
    for _ in 0..20 {
        let n = get_nonce(&mut state).nonce;
        assert!(is_uuid_v4_text(&n), "{n}");
    }
    let wallet_text = address_to_checksum(&signer_address(&KEY));
    let nonce = get_nonce(&mut state).nonce;
    let message = message_for(&wallet_text, &nonce);
    let signature = sign(&KEY, &message);
    let login = verify_siwe(&mut state, &request(message, signature)).ok().unwrap();
    assert!(is_uuid_v4_text(&login.session_id));
    let header = session_set_cookie(&login.session_id);
    let sent_back = header.split(';').next().unwrap().to_string();
    assert_eq!(session_cookie(&sent_back), Some(login.session_id.clone()));
}

#[test]
fn nonces_are_fresh_and_recorded() {
    let mut state = AuthState::new();
    let n1 = get_nonce(&mut state).nonce;
    let n2 = get_nonce(&mut state).nonce;
    assert_eq!(n1.len(), 36);
    assert_ne!(n1, n2);
    assert_eq!(state.nonces.get(&n1), Some(n1.clone()));
    assert_eq!(state.nonces.get(&n2), Some(n2.clone()));
}

#[test]
fn sign_in_opens_a_session_for_the_signer() {
    let mut state = AuthState::new();
    let wallet = signer_address(&KEY);
    let wallet_text = address_to_checksum(&wallet);
    let nonce = get_nonce(&mut state).nonce;
    let message = message_for(&wallet_text, &nonce);
    let signature = sign(&KEY, &message);
    let login = verify_siwe(&mut state, &request(message, signature)).ok().unwrap();
    assert!(login.response.success);
    assert_eq!(login.response.wallet, wallet_text);
    assert_eq!(login.session_id.len(), 36);
    assert_eq!(state.nonces.get(&nonce), None);
    assert_eq!(get_session_wallet(&state, Some(&login.session_id)), Ok(wallet));
}

#[test]
fn sign_in_accepts_lower_case_wallet_and_crlf_lines() {
    let mut state = AuthState::new();
    let wallet = signer_address(&KEY);
    let lower = address_to_checksum(&wallet).to_lowercase();
    let nonce = get_nonce(&mut state).nonce;
    let message = message_for(&lower, &nonce).replace('\n', "\r\n");
    let signature = sign(&KEY, &message);
    assert!(verify_siwe(&mut state, &request(message, signature)).is_ok());
}

#[test]
fn nonce_is_single_use() {
    let mut state = AuthState::new();
    let wallet_text = address_to_checksum(&signer_address(&KEY));
    let nonce = get_nonce(&mut state).nonce;
    let message = message_for(&wallet_text, &nonce);
    let signature = sign(&KEY, &message);
    assert!(verify_siwe(&mut state, &request(message.clone(), signature.clone())).is_ok());
    match verify_siwe(&mut state, &request(message, signature)) {
        Err(e) => assert_eq!(e, AuthError::InvalidNonce),
        Ok(_) => panic!("a nonce signed in twice"),
    }
}

#[test]
fn unknown_nonce_is_refused() {
    let mut state = AuthState::new();
    let wallet_text = address_to_checksum(&signer_address(&KEY));
    let message = message_for(&wallet_text, "not-issued");
    let signature = sign(&KEY, &message);
    match verify_siwe(&mut state, &request(message, signature)) {
        Err(e) => {
            assert_eq!(e, AuthError::InvalidNonce);
            assert_eq!(e.message(), "Invalid or expired nonce");
        }
        Ok(_) => panic!("expected a refusal"),
    }
}

#[test]
fn signature_of_another_wallet_is_refused() {
    let mut state = AuthState::new();
    let claimed = address_to_checksum(&Address { bytes: [0x11; 20] });
    let nonce = get_nonce(&mut state).nonce;
    let message = message_for(&claimed, &nonce);
    let signature = sign(&KEY, &message);
    match verify_siwe(&mut state, &request(message, signature)) {
        Err(e) => {
            assert_eq!(e, AuthError::SignatureMismatch);
            assert_eq!(e.message(), "Signature does not match claimed address");
        }
        Ok(_) => panic!("expected a refusal"),
    }
    // the nonce was used up all the same
    assert_eq!(state.nonces.get(&nonce), None);
}

#[test]
fn malformed_sign_in_messages() {
    let mut state = AuthState::new();
    let check = |state: &mut AuthState, message: &str, signature: &str, expected: AuthError| {
        match verify_siwe(state, &request(message.to_string(), signature.to_string())) {
            Err(e) => assert_eq!(e, expected),
            Ok(_) => panic!("expected {:?}", expected),
        }
    };
    check(&mut state, "hello\n0x1111111111111111111111111111111111111111", "0x", AuthError::NonceMissing);
    check(&mut state, "Nonce: abc\nno wallet here", "0x", AuthError::WalletMissing);
    check(&mut state, "Nonce: abc\n0x1234", "0x", AuthError::InvalidWallet);
    let nonce = get_nonce(&mut state).nonce;
    let message = message_for("0x1111111111111111111111111111111111111111", &nonce);
    check(&mut state, &message, "0x1234", AuthError::InvalidSignatureFormat);
    assert_eq!(AuthError::NonceMissing.message(), "Nonce missing");
    assert_eq!(AuthError::WalletMissing.message(), "Wallet missing");
    assert_eq!(AuthError::InvalidWallet.message(), "Invalid wallet address");
    assert_eq!(AuthError::InvalidSignatureFormat.message(), "Invalid signature format");
    assert_eq!(AuthError::RecoverFailed.message(), "Failed to recover signer");
}

#[test]
fn refused_sign_in_opens_no_session() {
    let mut state = AuthState::new();
    let nonce = get_nonce(&mut state).nonce;
    let message = message_for("0x1111111111111111111111111111111111111111", &nonce);
    let signature = sign(&KEY, &message);
    assert!(verify_siwe(&mut state, &request(message, signature)).is_err());
    assert_eq!(get_session_wallet(&state, Some(&"anything".to_string())), Err(SessionError::InvalidSession));
}

#[test]
fn logout_ends_only_that_session() {
    let mut state = AuthState::new();
    state.sessions.insert("s1".to_string(), "0x1111111111111111111111111111111111111111".to_string());
    state.sessions.insert("s2".to_string(), "0x2222222222222222222222222222222222222222".to_string());
    let r = logout(&mut state, Some(&"s1".to_string()));
    assert!(r.success);
    assert_eq!(get_session_wallet(&state, Some(&"s1".to_string())), Err(SessionError::InvalidSession));
    assert_eq!(
        get_session_wallet(&state, Some(&"s2".to_string())),
        Ok(Address { bytes: [0x22; 20] })
    );
    assert!(logout(&mut state, None).success);
}

#[test]
fn session_wallet_errors() {
    let mut state = AuthState::new();
    state.sessions.insert("bad".to_string(), "not an address".to_string());
    assert_eq!(get_session_wallet(&state, None), Err(SessionError::NotAuthenticated));
    assert_eq!(get_session_wallet(&state, Some(&"bad".to_string())), Err(SessionError::InvalidWallet));
    assert_eq!(SessionError::NotAuthenticated.message(), "Not authenticated \u{2014} please sign in first");
    assert_eq!(SessionError::InvalidSession.message(), "Invalid or expired session");
    assert_eq!(SessionError::InvalidWallet.message(), "Invalid wallet address in session");
}

#[test]
fn cookie_header_lookup() {
    assert_eq!(session_cookie("trust_session=abc"), Some("abc".to_string()));
    assert_eq!(session_cookie("a=1; trust_session=xyz; b=2"), Some("xyz".to_string()));
    assert_eq!(session_cookie("a=1;trust_session = spaced ;b=2"), Some("spaced".to_string()));
    assert_eq!(session_cookie("trust_session=first; trust_session=second"), Some("first".to_string()));
    assert_eq!(session_cookie("other=1; trust_sessionx=2"), None);
    assert_eq!(session_cookie(""), None);
    assert_eq!(session_cookie("novalue; trust_session=v"), Some("v".to_string()));
    assert_eq!(cookie_value("k=a=b", "k"), Some("a=b".to_string()));
}

#[test]
fn session_cookie_headers() {
    assert_eq!(session_set_cookie("abc"), "trust_session=abc; HttpOnly; Path=/");
    assert_eq!(session_clear_cookie(), "trust_session=; HttpOnly; Path=/; Max-Age=0");
}
