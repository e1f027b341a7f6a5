use trust_rust::abi::selector;
use trust_rust::client::create_auction::CreateAuctionResult;
use trust_rust::client::escrow::EscrowStatus;
use trust_rust::client::transaction::TxReceipt;
use trust_rust::client::withdraw::{WithdrawAction, WithdrawError, WithdrawStage};
use trust_rust::primitives::{Address, B256, U256};
use trust_rust::web::auth::AuthState;
use trust_rust::web::routes::auction_bid::{prepare_bid, PlaceBidRequest};
use trust_rust::web::routes::auction_create::{prepare_create_auction, validate_create_request, CreateAuctionRequest};
use trust_rust::web::routes::create_auction::create_auction_response;
use trust_rust::web::routes::auction_withdraw::{prepare_withdraw, WithdrawRequest};
use trust_rust::web::routes::escrow_routes::{
    escrow_status_response, parse_auction_address, prepare_claim_timeout, prepare_confirm_receipt,
    prepare_end_auction, prepare_escrow_status, prepare_refund, status_to_string, EscrowActionRequest,
};
use trust_rust::web::routes::RouteError;
use trust_rust::web::session::SessionError;

const WALLET: &str = "0x70997970C51812dc3A010C7d01b50e0d17dc79C8";
const AUCTION: &str = "0x5FbDB2315678afecb367f032d93F642f64180aa3";

fn signed_in() -> (AuthState, String) {
    let mut state = AuthState::new();
    state.sessions.insert("sid".to_string(), WALLET.to_string());
    (state, "sid".to_string())
}

fn addr(text: &str) -> Address {
    trust_rust::client::auction_loader::parse_address(text).ok().unwrap()
}

fn u256(n: u64) -> U256 {
    let mut be = [0u8; 32];
    be[24..].copy_from_slice(&n.to_be_bytes());
    U256 { be }
}

fn word(n: u64) -> Vec<u8> {
    u256(n).be.to_vec()
}

#[test]
fn bid_route_builds_the_bid() {
    let (state, sid) = signed_in();
    let req = PlaceBidRequest {
        auction_address: format!("  {}\n", AUCTION),
        bid_amount_wei: " 1500 ".to_string(),
    };
    let tx = prepare_bid(&state, Some(&sid), &req).ok().unwrap();
    assert_eq!(tx.from, Some(addr(WALLET)));
    assert_eq!(tx.to, addr(AUCTION));
    assert_eq!(tx.value, Some(u256(1500)));
    assert_eq!(tx.input, selector("bid()"));
}

#[test]
fn bid_route_checks_in_order() {
    let (state, sid) = signed_in();
    let bad_both = PlaceBidRequest { auction_address: "nope".to_string(), bid_amount_wei: "x".to_string() };
    assert!(matches!(
        prepare_bid(&state, None, &bad_both),
        Err(RouteError::Session(SessionError::NotAuthenticated))
    ));
    assert!(matches!(
        prepare_bid(&state, Some(&"other".to_string()), &bad_both),
        Err(RouteError::Session(SessionError::InvalidSession))
    ));
    assert!(matches!(prepare_bid(&state, Some(&sid), &bad_both), Err(RouteError::InvalidAuctionAddress)));
    let bad_amount = PlaceBidRequest { auction_address: AUCTION.to_string(), bid_amount_wei: "1.5".to_string() };
    match prepare_bid(&state, Some(&sid), &bad_amount) {
        Err(e) => {
            assert_eq!(e, RouteError::InvalidBidAmount);
            assert_eq!(e.message(), "Invalid bid amount format");
        }
        Ok(_) => panic!("expected a refusal"),
    }
}

fn create_req(time: u64, bid: &str, title: &str, description: &str) -> CreateAuctionRequest {
    CreateAuctionRequest {
        bidding_time_seconds: time,
        starting_bid_wei: bid.to_string(),
        title: title.to_string(),
        description: description.to_string(),
    }
}

#[test]
fn create_request_validation_order() {
    let check = |req: CreateAuctionRequest, e: RouteError, text: &str| {
        assert_eq!(validate_create_request(&req), Err(e));
        assert_eq!(e.message(), text);
    };
    check(create_req(0, "", "", ""), RouteError::BiddingTimeZero, "bidding_time_seconds must be greater than 0");
    check(create_req(60, "  ", "", ""), RouteError::StartingBidRequired, "starting_bid_wei is required");
    check(create_req(60, "1", " \t", ""), RouteError::TitleRequired, "title is required");
    check(create_req(60, "1", "Lamp", "\n"), RouteError::DescriptionRequired, "description is required");
    assert_eq!(validate_create_request(&create_req(60, "1", "Lamp", "Old")), Ok(()));
}

#[test]
fn create_route_builds_the_factory_call() {
    let (state, sid) = signed_in();
    let factory = addr(AUCTION);
    let tx = prepare_create_auction(&state, Some(&sid), factory, &create_req(3600, " 1000 ", "Lamp", "Old")).ok().unwrap();
    assert_eq!(tx.from, Some(addr(WALLET)));
    assert_eq!(tx.to, factory);
    assert_eq!(tx.value, None);
    let expected = trust_rust::client::create_auction::create_auction_request(
        factory, addr(WALLET), u256(3600), u256(1000), u256(259200), "Lamp", "Old",
    );
    assert_eq!(tx.input, expected.input);
}

#[test]
fn create_route_refusals() {
    let (state, sid) = signed_in();
    let factory = addr(AUCTION);
    // the request is checked before the session
    assert_eq!(
        prepare_create_auction(&state, None, factory, &create_req(0, "1", "t", "d")).err(),
        Some(RouteError::BiddingTimeZero)
    );
    assert_eq!(
        prepare_create_auction(&state, None, factory, &create_req(5, "1", "t", "d")).err(),
        Some(RouteError::Session(SessionError::NotAuthenticated))
    );
    let e = prepare_create_auction(&state, Some(&sid), factory, &create_req(5, "ten", "t", "d")).err().unwrap();
    assert_eq!(e, RouteError::InvalidStartingBid);
    assert_eq!(e.message(), "Invalid starting bid amount");
}

#[test]
fn create_response_texts() {
    let result = CreateAuctionResult {
        tx_hash: "0xabc".to_string(),
        auction_address: addr("0xd8da6bf26964af9d7eed9e03e53415d37aa96045"),
        seller: addr(WALLET),
        bidding_time_seconds: u256(3600),
        end_time: u256(1_700_000_000),
        starting_bid_wei: u256(1000),
        admin: Address { bytes: [0; 20] },
        confirmation_window: u256(259200),
    };
    let r = create_auction_response(&result);
    assert_eq!(r.tx_hash, "0xabc");
    assert_eq!(r.auction_address, "0xd8dA6BF26964aF9D7eEd9e03E53415D37aA96045");
    assert_eq!(r.seller, WALLET);
    assert_eq!(r.bidding_time_seconds, "3600");
    assert_eq!(r.end_time, "1700000000");
    assert_eq!(r.starting_bid_wei, "1000");
    assert_eq!(r.admin, "0x0000000000000000000000000000000000000000");
    assert_eq!(r.confirmation_window, "259200");
}

#[test]
fn withdraw_route_starts_the_flow() {
    let (state, sid) = signed_in();
    let (flow, action) = prepare_withdraw(&state, Some(&sid), &WithdrawRequest { auction_address: AUCTION.to_string() })
        .ok()
        .unwrap();
    assert_eq!(flow.caller, addr(WALLET));
    assert_eq!(flow.contract, addr(AUCTION));
    assert!(matches!(flow.stage, WithdrawStage::AwaitPending));
    match action {
        WithdrawAction::Call(req) => {
            let mut expected = selector("pendingReturns(address)");
            expected.extend([0u8; 12]);
            expected.extend(addr(WALLET).bytes);
            assert_eq!(req.input, expected);
            assert_eq!(req.to, addr(AUCTION));
        }
        _ => panic!("expected a call"),
    }
    assert!(matches!(
        prepare_withdraw(&state, Some(&sid), &WithdrawRequest { auction_address: "0x12".to_string() }),
        Err(RouteError::InvalidAuctionAddress)
    ));
}

#[test]
fn withdraw_flow_completes() {
    let (state, sid) = signed_in();
    let (mut flow, _) = prepare_withdraw(&state, Some(&sid), &WithdrawRequest { auction_address: AUCTION.to_string() })
        .ok()
        .unwrap();
    let a = flow.on_pending_returns(&word(2_500_000_000_000_000_000));
    match a {
        WithdrawAction::Send(req) => {
            assert_eq!(req.from, Some(addr(WALLET)));
            assert_eq!(req.input, selector("withdraw()"));
        }
        _ => panic!("expected the withdraw transaction"),
    }
    let receipt = TxReceipt { transaction_hash: B256 { bytes: [0x01; 32] }, status: true, logs: vec![] };
    assert!(matches!(flow.on_receipt(&receipt), WithdrawAction::Call(_)));
    match flow.on_pending_returns(&word(0)) {
        WithdrawAction::Finish(Ok(res)) => {
            assert_eq!(res.amount_withdrawn_wei, u256(2_500_000_000_000_000_000));
            assert_eq!(res.amount_withdrawn_eth, "2.5000");
            assert_eq!(res.tx_hash, format!("0x{}", "01".repeat(32)));
        }
        _ => panic!("expected completion"),
    }
    assert!(matches!(flow.stage, WithdrawStage::Finished));
}

#[test]
fn withdraw_flow_stops() {
    let (state, sid) = signed_in();
    let start = || prepare_withdraw(&state, Some(&sid), &WithdrawRequest { auction_address: AUCTION.to_string() }).ok().unwrap().0;
    let mut f = start();
    match f.on_pending_returns(&word(0)) {
        WithdrawAction::Finish(Err(e)) => {
            assert_eq!(e, WithdrawError::NoPendingFunds);
            assert_eq!(e.message(), "No pending funds available for withdrawal");
        }
        _ => panic!("expected no pending funds"),
    }
    let mut f = start();
    assert!(matches!(f.on_pending_returns(&[0u8; 3]), WithdrawAction::Finish(Err(WithdrawError::Decode(_)))));
    let mut f = start();
    f.on_pending_returns(&word(5));
    let reverted = TxReceipt { transaction_hash: B256 { bytes: [0; 32] }, status: false, logs: vec![] };
    match f.on_receipt(&reverted) {
        WithdrawAction::Finish(Err(e)) => assert_eq!(e.message(), "Withdraw transaction reverted"),
        _ => panic!("expected a revert"),
    }
    let mut f = start();
    f.on_pending_returns(&word(5));
    let ok = TxReceipt { transaction_hash: B256 { bytes: [0; 32] }, status: true, logs: vec![] };
    f.on_receipt(&ok);
    match f.on_pending_returns(&word(5)) {
        WithdrawAction::Finish(Err(e)) => assert_eq!(
            e.message(),
            "Withdrawal transaction completed but pending balance still exists"
        ),
        _ => panic!("expected funds to remain"),
    }
}

#[test]
fn escrow_routes_build_actions() {
    let (state, sid) = signed_in();
    let req = EscrowActionRequest { auction_address: format!(" {} ", AUCTION) };
    let end = prepare_end_auction(&state, Some(&sid), &req).ok().unwrap();
    assert_eq!(end.input, selector("endAuction()"));
    assert_eq!(end.from, Some(addr(WALLET)));
    assert_eq!(end.to, addr(AUCTION));
    assert_eq!(prepare_confirm_receipt(&state, Some(&sid), &req).ok().unwrap().input, selector("confirmReceipt()"));
    assert_eq!(prepare_claim_timeout(&state, Some(&sid), &req).ok().unwrap().input, selector("claimAfterTimeout()"));
    assert_eq!(prepare_refund(&state, Some(&sid), &req).ok().unwrap().input, selector("flagRefund()"));
    let bad = EscrowActionRequest { auction_address: "0xzz".to_string() };
    assert_eq!(prepare_refund(&state, Some(&sid), &bad).err(), Some(RouteError::InvalidAuctionAddress));
    assert_eq!(
        prepare_refund(&state, None, &bad).err(),
        Some(RouteError::Session(SessionError::NotAuthenticated))
    );
}

#[test]
fn escrow_status_route() {
    let (state, sid) = signed_in();
    let (caller, auction) = prepare_escrow_status(&state, Some(&sid), AUCTION).ok().unwrap();
    assert_eq!(caller, addr(WALLET));
    assert_eq!(auction, addr(AUCTION));
    // the path address is read as it stands
    assert_eq!(
        prepare_escrow_status(&state, Some(&sid), &format!(" {}", AUCTION)).err(),
        Some(RouteError::InvalidAuctionAddress)
    );
    assert_eq!(parse_auction_address(&format!(" {} ", AUCTION)).ok(), Some(addr(AUCTION)));
}

#[test]
fn escrow_status_answer() {
    assert_eq!(status_to_string(EscrowStatus::ActiveAuction), "ActiveAuction");
    assert_eq!(status_to_string(EscrowStatus::AwaitingFinalization), "AwaitingFinalization");
    assert_eq!(status_to_string(EscrowStatus::AwaitingBuyerConfirmation), "AwaitingBuyerConfirmation");
    assert_eq!(status_to_string(EscrowStatus::Complete), "Complete");
    assert_eq!(status_to_string(EscrowStatus::Refunded), "Refunded");
    let r = escrow_status_response(EscrowStatus::Complete, None, Some(true), None, Some(false));
    assert!(r.success);
    assert_eq!(r.status, "Complete");
    assert_eq!(r.time_remaining_seconds, 0);
    assert!(r.can_confirm_receipt);
    assert!(!r.can_claim_timeout);
    assert!(!r.can_flag_refund);
    let r = escrow_status_response(EscrowStatus::AwaitingBuyerConfirmation, Some(600), None, Some(true), None);
    assert_eq!(r.time_remaining_seconds, 600);
    assert!(r.can_claim_timeout);
}
