use alloy::sol_types::SolValue;
use trust_rust::client::registry::{
    auction_by_index_call, auction_count_call, auction_registry_item_call, auctions_by_seller_call,
    auctions_paginated_call, decode_auction_addresses, decode_auction_count, decode_is_registered,
    decode_registry_auction, decode_registry_auctions, get_auctions_call, is_registered_auction_call,
    map_registry_item, AuctionRegistryItem,
};
use trust_rust::abi::selector;
use trust_rust::primitives::{Address, U256};

fn word(n: u64) -> Vec<u8> {
    let mut w = vec![0u8; 32];
    w[24..].copy_from_slice(&n.to_be_bytes());
    w
}

fn address_word(a: [u8; 20]) -> Vec<u8> {
    let mut w = vec![0u8; 12];
    w.extend_from_slice(&a);
    w
}

fn u256(n: u64) -> U256 {
    let mut be = [0u8; 32];
    be[24..].copy_from_slice(&n.to_be_bytes());
    U256 { be }
}

fn tail(s: &[u8]) -> Vec<u8> {
    let mut t = word(s.len() as u64);
    let mut b = s.to_vec();
    let padded = (s.len() + 31) / 32 * 32;
    b.resize(padded, 0);
    t.extend(b);
    t
}

/// The ABI encoding of one registry record (head and tails).
fn record(seed: u8, title: &str, description: &str, image: &str) -> Vec<u8> {
    let mut head = Vec::new();
    head.extend(address_word([seed; 20]));
    head.extend(address_word([seed + 1; 20]));
    head.extend(word(3600));
    head.extend(word(1_700_000_000));
    head.extend(word(1000));
    head.extend(address_word([seed + 2; 20]));
    head.extend(word(2500));
    head.extend(word(3));
    head.extend(address_word([seed + 3; 20]));
    head.extend(word(259200));
    head.extend(word(1_699_996_400));
    head.extend(word(1));
    let t1 = tail(title.as_bytes());
    let t2 = tail(description.as_bytes());
    let t3 = tail(image.as_bytes());
    let first = 15 * 32;
    head.extend(word(first as u64));
    head.extend(word((first + t1.len()) as u64));
    head.extend(word((first + t1.len() + t2.len()) as u64));
    head.extend(t1);
    head.extend(t2);
    head.extend(t3);
    head
}

#[test]
fn registry_record_decodes() {
    let mut data = word(32);
    data.extend(record(0x10, "Vintage lamp", "Brass, 1950s", ""));
    let a = decode_registry_auction(&data).ok().unwrap();
    assert_eq!(a.auction_address, Address { bytes: [0x10; 20] });
    assert_eq!(a.seller, Address { bytes: [0x11; 20] });
    assert_eq!(a.bidding_time_seconds, u256(3600));
    assert_eq!(a.end_time, u256(1_700_000_000));
    assert_eq!(a.starting_bid_wei, u256(1000));
    assert_eq!(a.highest_bidder, Address { bytes: [0x12; 20] });
    assert_eq!(a.highest_bid_wei, u256(2500));
    assert_eq!(a.bid_count, u256(3));
    assert_eq!(a.admin, Address { bytes: [0x13; 20] });
    assert_eq!(a.confirmation_window, u256(259200));
    assert_eq!(a.created_at, u256(1_699_996_400));
    assert!(a.exists);
    assert_eq!(a.title, "Vintage lamp");
    assert_eq!(a.description, "Brass, 1950s");
    assert_eq!(a.image_placeholder, "");
}

#[test]
fn registry_record_lossy_strings() {
    let mut data = word(32);
    let mut rec = record(0x10, "ab", "", "");
    // replace the title bytes "ab" with an ill-formed sequence
    let at = 15 * 32 + 32;
    rec[at] = 0xff;
    data.extend(rec);
    let a = decode_registry_auction(&data).ok().unwrap();
    assert_eq!(a.title, "\u{fffd}b");
}

#[test]
fn registry_record_errors() {
    assert!(decode_registry_auction(&[]).is_err());
    let mut truncated = word(32);
    let rec = record(0x10, "Lamp", "Desc", "img");
    truncated.extend(&rec[..rec.len() - 40]);
    assert!(decode_registry_auction(&truncated).is_err());
    let mut bad_offset = word(32);
    let mut rec2 = record(0x10, "Lamp", "Desc", "img");
    rec2[12 * 32..13 * 32].copy_from_slice(&word(100_000));
    bad_offset.extend(rec2);
    assert!(decode_registry_auction(&bad_offset).is_err());
}

#[test]
fn registry_records_decode_in_order() {
    let r1 = record(0x20, "One", "first", "i1");
    let r2 = record(0x30, "Two", "second", "i2");
    let mut data = word(32);
    data.extend(word(2));
    data.extend(word(64));
    data.extend(word((64 + r1.len()) as u64));
    data.extend(r1);
    data.extend(r2);
    let v = decode_registry_auctions(&data).ok().unwrap();
    assert_eq!(v.len(), 2);
    assert_eq!(v[0].auction_address, Address { bytes: [0x20; 20] });
    assert_eq!(v[0].title, "One");
    assert_eq!(v[1].auction_address, Address { bytes: [0x30; 20] });
    assert_eq!(v[1].description, "second");
    assert_eq!(v[1].image_placeholder, "i2");
}

#[test]
fn registry_records_empty_and_short() {
    let mut empty = word(32);
    empty.extend(word(0));
    assert_eq!(decode_registry_auctions(&empty).ok().unwrap().len(), 0);
    let mut short = word(32);
    short.extend(word(1));
    assert!(decode_registry_auctions(&short).is_err());
}

#[test]
fn registry_item_maps_every_field() {
    let item = AuctionRegistryItem {
        auction_address: Address { bytes: [1; 20] },
        seller: Address { bytes: [2; 20] },
        bidding_time_seconds: u256(1),
        end_time: u256(2),
        starting_bid: u256(3),
        highest_bidder: Address { bytes: [4; 20] },
        highest_bid: u256(5),
        bid_count: u256(6),
        admin: Address { bytes: [7; 20] },
        confirmation_window: u256(8),
        created_at: u256(9),
        exists: true,
        title: "t".to_string(),
        description: "d".to_string(),
        image_placeholder: "i".to_string(),
    };
    let a = map_registry_item(item);
    assert_eq!(a.starting_bid_wei, u256(3));
    assert_eq!(a.highest_bid_wei, u256(5));
    assert_eq!(a.admin, Address { bytes: [7; 20] });
    assert_eq!(a.title, "t");
}

#[test]
fn registry_calls() {
    let factory = Address { bytes: [0xfa; 20] };
    let a = Address { bytes: [0xaa; 20] };
    assert_eq!(auction_count_call(factory).input, selector("auctionCount()"));
    assert_eq!(auction_count_call(factory).to, factory);
    assert_eq!(get_auctions_call(factory).input, selector("getAuctions()"));
    let mut expected = selector("getAuctionRegistryItem(address)");
    expected.extend(address_word([0xaa; 20]));
    assert_eq!(auction_registry_item_call(factory, a).input, expected);
    let mut by_index = selector("getAuctionByIndex(uint256)");
    by_index.extend(word(4));
    assert_eq!(auction_by_index_call(factory, u256(4)).input, by_index);
    let mut page = selector("getAuctionsPaginated(uint256,uint256)");
    page.extend(word(0));
    page.extend(word(20));
    assert_eq!(auctions_paginated_call(factory, u256(0), u256(20)).input, page);
    assert_eq!(auctions_by_seller_call(factory, a).input.len(), 36);
    assert_eq!(is_registered_auction_call(factory, a).input[..4].to_vec(), selector("isRegisteredAuction(address)"));
}

#[test]
fn registry_replies() {
    assert_eq!(decode_auction_count(&word(12)).ok(), Some(u256(12)));
    assert_eq!(decode_is_registered(&word(1)).ok(), Some(true));
    assert_eq!(decode_is_registered(&word(0)).ok(), Some(false));
    let mut list = word(32);
    list.extend(word(1));
    list.extend(address_word([9; 20]));
    assert_eq!(decode_auction_addresses(&list).ok(), Some(vec![Address { bytes: [9; 20] }]));
}

type Rec = (
    alloy_primitives::Address,
    alloy_primitives::Address,
    alloy_primitives::U256,
    alloy_primitives::U256,
    alloy_primitives::U256,
    alloy_primitives::Address,
    alloy_primitives::U256,
    alloy_primitives::U256,
    alloy_primitives::Address,
    alloy_primitives::U256,
    alloy_primitives::U256,
    bool,
    String,
    String,
    String,
);

fn alloy_record_error(data: &[u8]) -> String {
    match <Rec as SolValue>::abi_decode(data) {
        Err(e) => e.to_string(),
        Ok(_) => panic!("alloy decoded it"),
    }
}

fn alloy_records_error(data: &[u8]) -> String {
    match <Vec<Rec> as SolValue>::abi_decode(data) {
        Err(e) => e.to_string(),
        Ok(_) => panic!("alloy decoded it"),
    }
}

#[test]
fn registry_record_errors_match_alloy() {
    let cases: Vec<Vec<u8>> = {
        let mut v = vec![vec![], word(32), word(64)];
        let rec = record(0x10, "Lamp", "Desc", "img");
        let mut truncated = word(32);
        truncated.extend(&rec[..rec.len() - 40]);
        v.push(truncated);
        let mut short_head = word(32);
        short_head.extend(&rec[..400]);
        v.push(short_head);
        let mut bad_offset = word(32);
        let mut rec2 = rec.clone();
        rec2[13 * 32..14 * 32].copy_from_slice(&[0xee; 32]);
        bad_offset.extend(rec2);
        v.push(bad_offset);
        let mut bad_len = word(32);
        let mut rec3 = rec.clone();
        rec3[15 * 32] = 0x01;
        bad_len.extend(rec3);
        v.push(bad_len);
        v
    };
    for data in cases {
        let ours = match decode_registry_auction(&data) {
            Err(e) => e.message(),
            Ok(_) => panic!("expected a refusal"),
        };
        assert_eq!(ours, alloy_record_error(&data));
    }
}

#[test]
fn registry_records_errors_match_alloy() {
    let r1 = record(0x20, "One", "first", "i1");
    let mut cases: Vec<Vec<u8>> = vec![vec![], word(32)];
    // two elements claimed, one offset word present
    let mut short = word(32);
    short.extend(word(2));
    short.extend(word(64));
    cases.push(short);
    // an element offset past the end
    let mut far = word(32);
    far.extend(word(1));
    far.extend(word(4096));
    cases.push(far);
    // a bad string inside the second element
    let mut r2 = record(0x30, "Two", "second", "i2");
    r2[12 * 32..13 * 32].copy_from_slice(&[0xcc; 32]);
    let mut bad = word(32);
    bad.extend(word(2));
    bad.extend(word(64));
    bad.extend(word((64 + r1.len()) as u64));
    bad.extend(r1.clone());
    bad.extend(r2);
    cases.push(bad);
    // more elements than the decoder's memory limit allows
    let n: u64 = 2_485_514;
    let mut huge = word(32);
    huge.extend(word(n));
    huge.extend(vec![0u8; 32 * n as usize]);
    cases.push(huge);
    for data in cases {
        let ours = match decode_registry_auctions(&data) {
            Err(e) => e.message(),
            Ok(_) => panic!("expected a refusal"),
        };
        assert_eq!(ours, alloy_records_error(&data));
    }
}
