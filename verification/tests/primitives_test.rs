use trust_rust::abi::push_usize_word;
use trust_rust::client::auction_loader::parse_address;
use trust_rust::client::config::{get_starting_bid_wei, EnvVars};
use trust_rust::client::create_auction::CreateAuctionResult;
use trust_rust::client::escrow::{decode_time_remaining, end_auction_outcome};
use trust_rust::client::transaction::TxReceipt;
use trust_rust::client::withdraw::wei_to_eth_string;
use trust_rust::primitives::{Address, B256, U256};
use trust_rust::web::routes::create_auction::create_auction_response;

fn u256_of(n: u128) -> U256 {
    let mut be = [0u8; 32];
    be[16..].copy_from_slice(&n.to_be_bytes());
    U256 { be }
}

fn starting_bid(text: &str) -> Option<U256> {
    let env = EnvVars { entries: vec![("STARTING_BID_WEI".to_string(), text.to_string())] };
    get_starting_bid_wei(&env).ok()
}

fn texts_of(a: Address, n: U256) -> (String, String) {
    let result = CreateAuctionResult {
        tx_hash: String::new(),
        auction_address: a,
        seller: a,
        bidding_time_seconds: n,
        end_time: n,
        starting_bid_wei: n,
        admin: a,
        confirmation_window: n,
    };
    let r = create_auction_response(&result);
    (r.auction_address, r.end_time)
}

#[test]
fn usize_word_is_big_endian() {
    let mut out = vec![0xee];
    push_usize_word(&mut out, 0x0102);
    let mut expected = vec![0xee];
    expected.extend([0u8; 30]);
    expected.extend([1, 2]);
    assert_eq!(out, expected);
}

#[test]
fn decimal_parse_accepts_digits_and_underscores() {
    assert_eq!(starting_bid("1000"), Some(u256_of(1000)));
    assert_eq!(starting_bid("1_000"), Some(u256_of(1000)));
    assert_eq!(starting_bid(""), Some(u256_of(0)));
    assert_eq!(starting_bid("1000000000000000000"), Some(u256_of(1_000_000_000_000_000_000)));
}

#[test]
fn decimal_parse_rejects_bad_text() {
    assert_eq!(starting_bid("12a"), None);
    assert_eq!(starting_bid(" 12"), None);
    assert_eq!(starting_bid("-1"), None);
    assert_eq!(starting_bid("0x10"), None);
}

#[test]
fn decimal_parse_bounds() {
    let max = "115792089237316195423570985008687907853269984665640564039457584007913129639935";
    assert_eq!(starting_bid(max).unwrap().be, [0xffu8; 32]);
    let over = "115792089237316195423570985008687907853269984665640564039457584007913129639936";
    assert_eq!(starting_bid(over), None);
}

#[test]
fn u256_text_and_narrowing() {
    let zero = Address { bytes: [0; 20] };
    assert_eq!(texts_of(zero, u256_of(0)).1, "0");
    assert_eq!(texts_of(zero, u256_of(1234567890123456789)).1, "1234567890123456789");
    assert_eq!(
        texts_of(zero, U256 { be: [0xff; 32] }).1,
        "115792089237316195423570985008687907853269984665640564039457584007913129639935"
    );
    assert_eq!(decode_time_remaining(&u256_of(42).be), Ok(42));
    assert_eq!(decode_time_remaining(&u256_of(u64::MAX as u128).be), Ok(u64::MAX));
    assert_eq!(decode_time_remaining(&u256_of(u64::MAX as u128 + 1).be), Ok(0));
}

#[test]
fn address_parsing() {
    let a = parse_address("0xd8dA6BF26964aF9D7eEd9e03E53415D37aA96045").ok().unwrap();
    assert_eq!(a.bytes[0], 0xd8);
    assert_eq!(a.bytes[19], 0x45);
    let b = parse_address("d8da6bf26964af9d7eed9e03e53415d37aa96045").ok().unwrap();
    assert_eq!(a, b);
    let c = parse_address("0XD8DA6BF26964AF9D7EED9E03E53415D37AA96045").ok().unwrap();
    assert_eq!(a, c);
    assert!(parse_address("0xd8dA6BF26964aF9D7eEd9e03E53415D37aA9604").is_err());
    assert!(parse_address("0xd8dA6BF26964aF9D7eEd9e03E53415D37aA9604g").is_err());
    assert!(parse_address("").is_err());
}

#[test]
fn address_checksum_text() {
    let a = parse_address("0xd8da6bf26964af9d7eed9e03e53415d37aa96045").ok().unwrap();
    assert_eq!(texts_of(a, u256_of(0)).0, "0xd8dA6BF26964aF9D7eEd9e03E53415D37aA96045");
    let zero = Address { bytes: [0u8; 20] };
    assert_eq!(texts_of(zero, u256_of(0)).0, "0x0000000000000000000000000000000000000000");
}

#[test]
fn checksum_text_reads_back() {
    let a = Address { bytes: [0xab; 20] };
    let text = texts_of(a, u256_of(0)).0;
    assert_eq!(parse_address(&text).ok(), Some(a));
}

#[test]
fn hash_text_is_lower_case_hex() {
    let mut bytes = [0u8; 32];
    bytes[0] = 0xab;
    bytes[31] = 0x0f;
    let receipt = TxReceipt { transaction_hash: B256 { bytes }, status: true, logs: vec![] };
    assert_eq!(
        end_auction_outcome(&receipt),
        "0xab0000000000000000000000000000000000000000000000000000000000000f"
    );
}

#[test]
fn wei_to_eth_whole_and_fraction() {
    assert_eq!(wei_to_eth_string(u256_of(1_500_000_000_000_000_000)), "1.5000");
    assert_eq!(wei_to_eth_string(u256_of(0)), "0.0000");
    assert_eq!(wei_to_eth_string(u256_of(123_456_789)), "0.0000");
    assert_eq!(wei_to_eth_string(u256_of(2_000_100_000_000_000_000)), "2.0001");
    assert_eq!(wei_to_eth_string(u256_of(1_999_999_999_999_999_999)), "1.9999");
    assert_eq!(wei_to_eth_string(u256_of(25_000_000_000_000_000_000)), "25.0000");
}
