use trust_rust::client::config::{
    get_admin_address, get_auction_address, get_bidder_address, get_bidding_time_seconds,
    get_confirmation_window, get_factory_address, get_registry_page_limit, get_rpc_url,
    get_seller_address, get_starting_bid_wei, parse_u64, ConfigError, EnvVars, IntErrorKind,
};
use trust_rust::primitives::U256;

fn env(pairs: &[(&str, &str)]) -> EnvVars {
    EnvVars {
        entries: pairs
            .iter()
            .map(|(k, v)| (k.to_string(), v.to_string()))
            .collect(),
    }
}

#[test]
fn required_variables_are_read() {
    let e = env(&[
        ("RPC_URL", "http://127.0.0.1:8545"),
        ("FACTORY_ADDRESS", "0x5FbDB2315678afecb367f032d93F642f64180aa3"),
        ("SELLER_ADDRESS", "0x01"),
        ("BIDDER_ADDRESS", "0x02"),
        ("AUCTION_ADDRESS", "0x03"),
        ("ADMIN_ADDRESS", "0x04"),
    ]);
    assert_eq!(get_rpc_url(&e).ok(), Some("http://127.0.0.1:8545".to_string()));
    assert_eq!(
        get_factory_address(&e).ok(),
        Some("0x5FbDB2315678afecb367f032d93F642f64180aa3".to_string())
    );
    assert_eq!(get_seller_address(&e).ok(), Some("0x01".to_string()));
    assert_eq!(get_bidder_address(&e).ok(), Some("0x02".to_string()));
    assert_eq!(get_auction_address(&e).ok(), Some("0x03".to_string()));
    assert_eq!(get_admin_address(&e).ok(), Some("0x04".to_string()));
}

#[test]
fn missing_required_variable_is_named() {
    let e = env(&[]);
    match get_rpc_url(&e) {
        Err(err) => {
            assert!(matches!(&err, ConfigError::Missing { key } if key == "RPC_URL"));
            assert_eq!(err.message(), "Missing required environment variable: RPC_URL");
        }
        Ok(_) => panic!("expected an error"),
    }
}

#[test]
fn first_entry_wins() {
    let e = env(&[("RPC_URL", "a"), ("RPC_URL", "b")]);
    assert_eq!(e.var("RPC_URL"), Some("a".to_string()));
    assert_eq!(e.var("rpc_url"), None);
}

#[test]
fn numeric_defaults() {
    let e = env(&[]);
    assert_eq!(get_bidding_time_seconds(&e).ok(), Some(3600));
    assert_eq!(get_confirmation_window(&e).ok(), Some(259200));
    assert_eq!(get_registry_page_limit(&e).ok(), Some(20));
}

#[test]
fn numeric_values_override_defaults() {
    let e = env(&[
        ("BIDDING_TIME_SECONDS", "60"),
        ("CONFIRMATION_WINDOW", "+10"),
        ("REGISTRY_PAGE_LIMIT", "0"),
    ]);
    assert_eq!(get_bidding_time_seconds(&e).ok(), Some(60));
    assert_eq!(get_confirmation_window(&e).ok(), Some(10));
    assert_eq!(get_registry_page_limit(&e).ok(), Some(0));
}

#[test]
fn invalid_numeric_value_is_reported() {
    let e = env(&[("BIDDING_TIME_SECONDS", "soon")]);
    match get_bidding_time_seconds(&e) {
        Err(err) => assert_eq!(
            err.message(),
            "Invalid BIDDING_TIME_SECONDS value 'soon': invalid digit found in string"
        ),
        Ok(_) => panic!("expected an error"),
    }
    let e = env(&[("REGISTRY_PAGE_LIMIT", "")]);
    match get_registry_page_limit(&e) {
        Err(err) => assert_eq!(
            err.message(),
            "Invalid REGISTRY_PAGE_LIMIT value '': cannot parse integer from empty string"
        ),
        Ok(_) => panic!("expected an error"),
    }
}

#[test]
fn u64_parsing_matches_std() {
    for text in ["0", "42", "+7", "-0", "-", "+", "", " 1", "1 ", "18446744073709551615",
                 "18446744073709551616", "99999999999999999999", "0018", "1_000", "١"] {
        let expected = text.parse::<u64>().map_err(|e| match e.kind() {
            std::num::IntErrorKind::Empty => IntErrorKind::Empty,
            std::num::IntErrorKind::InvalidDigit => IntErrorKind::InvalidDigit,
            std::num::IntErrorKind::PosOverflow => IntErrorKind::PosOverflow,
            _ => panic!("unexpected kind"),
        });
        assert_eq!(parse_u64(text), expected, "text {:?}", text);
    }
}

#[test]
fn int_error_messages_match_std() {
    assert_eq!(IntErrorKind::Empty.message(), "".parse::<u64>().unwrap_err().to_string());
    assert_eq!(IntErrorKind::InvalidDigit.message(), "x".parse::<u64>().unwrap_err().to_string());
    assert_eq!(
        IntErrorKind::PosOverflow.message(),
        "99999999999999999999".parse::<u64>().unwrap_err().to_string()
    );
}

#[test]
fn starting_bid_overflow_is_reported() {
    let over = "115792089237316195423570985008687907853269984665640564039457584007913129639936";
    match get_starting_bid_wei(&env(&[("STARTING_BID_WEI", over)])) {
        Err(err) => assert_eq!(
            err.message(),
            format!("Invalid STARTING_BID_WEI value '{over}': the value is too large to fit the target type")
        ),
        Ok(_) => panic!("expected an error"),
    }
}

#[test]
fn starting_bid_default_is_one_ether() {
    let v = get_starting_bid_wei(&env(&[])).ok().unwrap();
    let mut be = [0u8; 32];
    be[24..].copy_from_slice(&1_000_000_000_000_000_000u64.to_be_bytes());
    assert_eq!(v, U256 { be });
}

#[test]
fn starting_bid_from_environment() {
    let v = get_starting_bid_wei(&env(&[("STARTING_BID_WEI", "5")])).ok().unwrap();
    let mut be = [0u8; 32];
    be[31] = 5;
    assert_eq!(v, U256 { be });
    match get_starting_bid_wei(&env(&[("STARTING_BID_WEI", "five")])) {
        Err(err) => {
            assert!(matches!(&err, ConfigError::InvalidStartingBid { raw, .. } if raw == "five"));
            assert_eq!(err.message(), "Invalid STARTING_BID_WEI value 'five': invalid digit: f");
        }
        Ok(_) => panic!("expected an error"),
    }
}
