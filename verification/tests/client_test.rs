use trust_rust::abi::selector;
use trust_rust::client::bidding::{decode_highest_bid, highest_bid_call, place_bid_outcome, place_bid_request};
use trust_rust::client::create_auction::{
    create_auction_outcome, create_auction_request, create_auction_with_default_confirmation_request,
    CreateAuctionError, DEFAULT_CONFIRMATION_WINDOW_SECONDS,
};
use trust_rust::client::escrow::{
    can_claim_timeout_call, can_confirm_receipt_call, can_flag_refund_call, claim_after_timeout_outcome,
    claim_after_timeout_request, confirm_receipt_outcome, confirm_receipt_request, decode_escrow_status,
    decode_permission, decode_time_remaining, end_auction_outcome, end_auction_request, escrow_status_call,
    flag_refund_outcome, flag_refund_request, time_remaining_call, EscrowStatus,
};
use trust_rust::client::auction_loader::parse_address;
use trust_rust::client::transaction::{LogEntry, TxReceipt};
use trust_rust::primitives::{Address, B256, U256};

fn word(n: u64) -> Vec<u8> {
    let mut w = vec![0u8; 32];
    w[24..].copy_from_slice(&n.to_be_bytes());
    w
}

fn u256(n: u64) -> U256 {
    let mut be = [0u8; 32];
    be[24..].copy_from_slice(&n.to_be_bytes());
    U256 { be }
}

fn address_topic(a: [u8; 20]) -> B256 {
    let mut bytes = [0u8; 32];
    bytes[12..].copy_from_slice(&a);
    B256 { bytes }
}

fn receipt(logs: Vec<LogEntry>) -> TxReceipt {
    TxReceipt { transaction_hash: B256 { bytes: [0x5a; 32] }, status: true, logs }
}

const HASH_TEXT: &str = "0x5a5a5a5a5a5a5a5a5a5a5a5a5a5a5a5a5a5a5a5a5a5a5a5a5a5a5a5a5a5a5a5a";

fn created_topic() -> B256 {
    B256 {
        bytes: alloy_primitives::keccak256(
            b"AuctionCreated(address,address,uint256,uint256,uint256,address,uint256)",
        )
        .0,
    }
}

fn created_log(auction: [u8; 20], seller: [u8; 20]) -> LogEntry {
    let mut data = word(3600);
    data.extend(word(1_700_003_600));
    data.extend(word(1000));
    let mut admin = vec![0u8; 12];
    admin.extend_from_slice(&[0xad; 20]);
    data.extend(admin);
    data.extend(word(259200));
    LogEntry { topics: vec![created_topic(), address_topic(auction), address_topic(seller)], data }
}

#[test]
fn escrow_status_codes() {
    assert_eq!(EscrowStatus::from_u8(0), EscrowStatus::ActiveAuction);
    assert_eq!(EscrowStatus::from_u8(1), EscrowStatus::AwaitingFinalization);
    assert_eq!(EscrowStatus::from_u8(2), EscrowStatus::AwaitingBuyerConfirmation);
    assert_eq!(EscrowStatus::from_u8(3), EscrowStatus::Complete);
    assert_eq!(EscrowStatus::from_u8(4), EscrowStatus::Refunded);
    assert_eq!(EscrowStatus::from_u8(5), EscrowStatus::ActiveAuction);
    assert_eq!(EscrowStatus::from_u8(255), EscrowStatus::ActiveAuction);
}

#[test]
fn escrow_status_reply() {
    assert_eq!(decode_escrow_status(&word(2)), Ok(EscrowStatus::AwaitingBuyerConfirmation));
    assert_eq!(decode_escrow_status(&word(260)), Ok(EscrowStatus::Refunded));
    assert!(decode_escrow_status(&[0u8; 8]).is_err());
}

#[test]
fn time_remaining_reply() {
    assert_eq!(decode_time_remaining(&word(86400)), Ok(86400));
    let mut huge = word(0);
    huge[0] = 1;
    assert_eq!(decode_time_remaining(&huge), Ok(0));
    assert!(decode_time_remaining(&[]).is_err());
}

#[test]
fn permission_reply() {
    assert_eq!(decode_permission(&word(1)), Ok(true));
    assert_eq!(decode_permission(&word(0)), Ok(false));
    assert!(decode_permission(&[1u8]).is_err());
}

#[test]
fn escrow_transactions() {
    let auction = Address { bytes: [0xaa; 20] };
    let who = Address { bytes: [0xbb; 20] };
    let tx = confirm_receipt_request(auction, who);
    assert_eq!(tx.from, Some(who));
    assert_eq!(tx.to, auction);
    assert_eq!(tx.value, None);
    assert_eq!(tx.input, selector("confirmReceipt()"));
    assert_eq!(claim_after_timeout_request(auction, who).input, selector("claimAfterTimeout()"));
    assert_eq!(flag_refund_request(auction, who).input, selector("flagRefund()"));
    assert_eq!(end_auction_request(auction, who).input, selector("endAuction()"));
}

#[test]
fn escrow_queries() {
    let auction = Address { bytes: [0xaa; 20] };
    let who = Address { bytes: [0xbb; 20] };
    assert_eq!(time_remaining_call(auction).input, selector("timeRemainingForConfirmation()"));
    assert_eq!(time_remaining_call(auction).from, None);
    assert_eq!(escrow_status_call(auction).input, selector("getEscrowStatus()"));
    let mut expected = selector("canConfirmReceipt(address)");
    expected.extend([0u8; 12]);
    expected.extend([0xbb; 20]);
    assert_eq!(can_confirm_receipt_call(auction, who).input, expected);
    assert_eq!(can_claim_timeout_call(auction, who).input[..4].to_vec(), selector("canClaimTimeout(address)"));
    assert_eq!(can_flag_refund_call(auction, who).input[..4].to_vec(), selector("canFlagRefund(address)"));
}

#[test]
fn escrow_outcomes() {
    let r = receipt(vec![]);
    let c = confirm_receipt_outcome(&r);
    assert_eq!(c.tx_hash, HASH_TEXT);
    assert!(c.escrow_settled);
    let t = claim_after_timeout_outcome(&r);
    assert_eq!(t.tx_hash, HASH_TEXT);
    assert!(t.escrow_settled);
    let f = flag_refund_outcome(&r);
    assert_eq!(f.tx_hash, HASH_TEXT);
    assert!(f.refund_flagged);
    assert_eq!(end_auction_outcome(&r), HASH_TEXT);
}

#[test]
fn bid_transaction_carries_the_amount() {
    let auction = Address { bytes: [0xaa; 20] };
    let bidder = Address { bytes: [0xbb; 20] };
    let tx = place_bid_request(auction, bidder, u256(2_000_000));
    assert_eq!(tx.from, Some(bidder));
    assert_eq!(tx.to, auction);
    assert_eq!(tx.value, Some(u256(2_000_000)));
    assert_eq!(tx.input, vec![0x19, 0x98, 0xae, 0xef]);
    assert_eq!(highest_bid_call(auction).input, selector("highestBid()"));
    assert_eq!(decode_highest_bid(&word(77)), Ok(u256(77)));
    let outcome = place_bid_outcome(&receipt(vec![]), u256(77));
    assert_eq!(outcome.tx_hash, HASH_TEXT);
    assert_eq!(outcome.highest_bid_wei, u256(77));
}

#[test]
fn create_auction_default_window() {
    assert_eq!(DEFAULT_CONFIRMATION_WINDOW_SECONDS, 259200);
    let factory = Address { bytes: [0xfa; 20] };
    let seller = Address { bytes: [0x5e; 20] };
    let a = create_auction_with_default_confirmation_request(factory, seller, u256(3600), u256(1000), "Lamp", "Old");
    let b = create_auction_request(factory, seller, u256(3600), u256(1000), u256(259200), "Lamp", "Old");
    assert_eq!(a.input, b.input);
    assert_eq!(a.from, Some(seller));
    assert_eq!(a.to, factory);
    assert_eq!(a.value, None);
    assert_eq!(a.input[..4].to_vec(), selector("createAuction(uint256,uint256,uint256,string,string)"));
}

#[test]
fn create_auction_reads_the_created_event() {
    let mut other = created_log([1; 20], [2; 20]);
    other.topics[0] = B256 { bytes: [0x99; 32] };
    let r = receipt(vec![other, created_log([0xa1; 20], [0x5e; 20]), created_log([0xa2; 20], [0x5e; 20])]);
    let res = create_auction_outcome(&r).ok().unwrap();
    assert_eq!(res.tx_hash, HASH_TEXT);
    assert_eq!(res.auction_address, Address { bytes: [0xa1; 20] });
    assert_eq!(res.seller, Address { bytes: [0x5e; 20] });
    assert_eq!(res.bidding_time_seconds, u256(3600));
    assert_eq!(res.end_time, u256(1_700_003_600));
    assert_eq!(res.starting_bid_wei, u256(1000));
    assert_eq!(res.admin, Address { bytes: [0xad; 20] });
    assert_eq!(res.confirmation_window, u256(259200));
}

#[test]
fn create_auction_without_event_fails() {
    let mut short = created_log([1; 20], [2; 20]);
    short.data.truncate(159);
    let mut missing_topic = created_log([1; 20], [2; 20]);
    missing_topic.topics.pop();
    let r = receipt(vec![short, missing_topic]);
    match create_auction_outcome(&r) {
        Err(e) => {
            assert_eq!(e, CreateAuctionError::EventNotFound);
            assert_eq!(e.message(), "AuctionCreated event not found in transaction receipt");
        }
        Ok(_) => panic!("expected no event"),
    }
}

#[test]
fn loader_parses_addresses() {
    assert_eq!(
        parse_address("0x5FbDB2315678afecb367f032d93F642f64180aa3").ok().unwrap().bytes[0],
        0x5f
    );
    assert!(parse_address("0x5FbDB2315678afecb367f032d93F642f64180aa").is_err());
}
