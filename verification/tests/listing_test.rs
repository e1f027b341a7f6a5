use trust_rust::abi::selector;
use trust_rust::primitives::Address;
use trust_rust::web::routes::auction_query::{
    auction_list_response, AuctionListing, ListingAction, ListingError, ListingStage,
};

fn word(n: u64) -> Vec<u8> {
    let mut w = vec![0u8; 32];
    w[24..].copy_from_slice(&n.to_be_bytes());
    w
}

fn address_word(a: [u8; 20]) -> Vec<u8> {
    let mut w = vec![0u8; 12];
    w.extend_from_slice(&a);
    w
}

fn tail(s: &[u8]) -> Vec<u8> {
    let mut t = word(s.len() as u64);
    let mut b = s.to_vec();
    b.resize((s.len() + 31) / 32 * 32, 0);
    t.extend(b);
    t
}

fn record_reply(auction: [u8; 20], title: &str) -> Vec<u8> {
    let mut rec = Vec::new();
    rec.extend(address_word(auction));
    rec.extend(address_word([0x5e; 20]));
    for n in [3600u64, 1_700_000_000, 1000] {
        rec.extend(word(n));
    }
    rec.extend(address_word([0; 20]));
    for n in [0u64, 0] {
        rec.extend(word(n));
    }
    rec.extend(address_word([0xad; 20]));
    for n in [259200u64, 1_699_996_400, 1] {
        rec.extend(word(n));
    }
    let t = tail(title.as_bytes());
    let empty = tail(b"");
    rec.extend(word(480));
    rec.extend(word((480 + t.len()) as u64));
    rec.extend(word((480 + t.len() + empty.len()) as u64));
    rec.extend(t);
    rec.extend(empty.clone());
    rec.extend(empty);
    let mut data = word(32);
    data.extend(rec);
    data
}

fn addresses_reply(list: &[[u8; 20]]) -> Vec<u8> {
    let mut data = word(32);
    data.extend(word(list.len() as u64));
    for a in list {
        data.extend(address_word(*a));
    }
    data
}

fn record_call_input(a: [u8; 20]) -> Vec<u8> {
    let mut v = selector("getAuctionRegistryItem(address)");
    v.extend(address_word(a));
    v
}

#[test]
fn listing_reads_each_record_in_order() {
    let factory = Address { bytes: [0xfa; 20] };
    let (mut listing, first) = AuctionListing::start(factory);
    match first {
        ListingAction::Call(req) => {
            assert_eq!(req.input, selector("getAuctions()"));
            assert_eq!(req.to, factory);
        }
        _ => panic!("expected the address list call"),
    }
    match listing.on_reply(&addresses_reply(&[[1; 20], [2; 20]])) {
        ListingAction::Call(req) => assert_eq!(req.input, record_call_input([1; 20])),
        _ => panic!("expected the first record call"),
    }
    match listing.on_reply(&record_reply([1; 20], "First")) {
        ListingAction::Call(req) => assert_eq!(req.input, record_call_input([2; 20])),
        _ => panic!("expected the second record call"),
    }
    match listing.on_reply(&record_reply([2; 20], "Second")) {
        ListingAction::Finish(Ok(resp)) => {
            assert!(resp.success);
            assert_eq!(resp.count, 2);
            assert_eq!(resp.auctions[0].title, "First");
            assert_eq!(resp.auctions[1].title, "Second");
            assert_eq!(resp.auctions[1].auction_address, Address { bytes: [2; 20] });
        }
        _ => panic!("expected the answer"),
    }
    assert!(matches!(listing.stage, ListingStage::Finished));
}

#[test]
fn listing_with_no_auctions() {
    let (mut listing, _) = AuctionListing::start(Address { bytes: [0xfa; 20] });
    match listing.on_reply(&addresses_reply(&[])) {
        ListingAction::Finish(Ok(resp)) => {
            assert!(resp.success);
            assert_eq!(resp.count, 0);
            assert!(resp.auctions.is_empty());
        }
        _ => panic!("expected an empty answer"),
    }
}

#[test]
fn listing_stops_at_a_bad_reply() {
    let (mut listing, _) = AuctionListing::start(Address { bytes: [0xfa; 20] });
    match listing.on_reply(&[]) {
        ListingAction::Finish(Err(ListingError::Addresses(e))) => {
            assert_eq!(e.message(), "ABI decoding failed: buffer overrun while deserializing")
        }
        _ => panic!("expected an address-list error"),
    }
    let (mut listing, _) = AuctionListing::start(Address { bytes: [0xfa; 20] });
    listing.on_reply(&addresses_reply(&[[7; 20]]));
    match listing.on_reply(&word(32)) {
        ListingAction::Finish(Err(ListingError::Record(a, e))) => {
            assert_eq!(a, Address { bytes: [7; 20] });
            assert_eq!(e.message(), "ABI decoding failed: buffer overrun while deserializing");
        }
        _ => panic!("expected a record error"),
    }
}

#[test]
fn list_response_counts() {
    let r = auction_list_response(vec![]);
    assert!(r.success);
    assert_eq!(r.count, 0);
}
