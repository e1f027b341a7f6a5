//! Creating an auction through the factory, and reading the
//! `AuctionCreated` event that the factory emits.

use vstd::prelude::*;
use vstd::string::StringSliceAdditionalSpecFns;
use vstd::utf8::encode_utf8;
use crate::abi::{
    address_of_word, encode_call_uint3_string2, is_word_of, lemma_word_of, read_word, selector_of,
    uint3_string2_args, word_address, word_at, word_of,
};
use crate::client::transaction::{LogEntry, TransactionRequest, TxReceipt, send_request, tx_hash_text};
use crate::primitives::{Address, B256, U256, hex_prefixed, keccak256, keccak256_of, u256_from_u64};

verus! {

/// What a created auction is, as its creation event reports it.
pub struct CreateAuctionResult {
    pub tx_hash: String,
    pub auction_address: Address,
    pub seller: Address,
    pub bidding_time_seconds: U256,
    pub end_time: U256,
    pub starting_bid_wei: U256,
    pub admin: Address,
    pub confirmation_window: U256,
}

/// Why a creation did not yield an auction.
#[derive(Clone, Copy, Debug, PartialEq, Eq)]
pub enum CreateAuctionError {
    /// No log of the receipt is an `AuctionCreated` event.
    EventNotFound,
}

impl CreateAuctionError {
    /// The text of the error.
    pub fn message(&self) -> (s: String)
        ensures
            s@ == "AuctionCreated event not found in transaction receipt"@,
    {
        String::from_str("AuctionCreated event not found in transaction receipt")
    }
}

/// The buyer-confirmation window, in seconds, that an auction gets when
/// none is given: 72 hours.
pub const DEFAULT_CONFIRMATION_WINDOW_SECONDS: u64 = 259200;

/// The canonical signature of the factory's creation function.
pub open spec fn create_auction_signature() -> Seq<char> {
    "createAuction(uint256,uint256,uint256,string,string)"@
}

/// The `createAuction` transaction from `seller` to the factory.
pub fn create_auction_request(
    factory_address: Address,
    seller: Address,
    bidding_time_seconds: U256,
    starting_bid_wei: U256,
    confirmation_window: U256,
    title: &str,
    description: &str,
) -> (r: TransactionRequest)
    ensures
        r.from == Some(seller),
        r.to == factory_address,
        r.value is None,
        r.input@ == selector_of(create_auction_signature()) + uint3_string2_args(
            bidding_time_seconds.be@,
            starting_bid_wei.be@,
            confirmation_window.be@,
            title.spec_bytes(),
            description.spec_bytes(),
        ),
{
    let input = encode_call_uint3_string2(
        "createAuction(uint256,uint256,uint256,string,string)",
        &bidding_time_seconds,
        &starting_bid_wei,
        &confirmation_window,
        title,
        description,
    );
    send_request(seller, factory_address, input)
}

/// The `createAuction` transaction with the default confirmation window
/// of 259200 seconds.
pub fn create_auction_with_default_confirmation_request(
    factory_address: Address,
    seller: Address,
    bidding_time_seconds: U256,
    starting_bid_wei: U256,
    title: &str,
    description: &str,
) -> (r: TransactionRequest)
    ensures
        r.from == Some(seller),
        r.to == factory_address,
        r.value is None,
        r.input@ == selector_of(create_auction_signature()) + uint3_string2_args(
            bidding_time_seconds.be@,
            starting_bid_wei.be@,
            word_of(259200),
            title.spec_bytes(),
            description.spec_bytes(),
        ),
{
    let window = u256_from_u64(DEFAULT_CONFIRMATION_WINDOW_SECONDS);
    proof {
        lemma_word_of(window.be@, 259200);
    }
    create_auction_request(
        factory_address,
        seller,
        bidding_time_seconds,
        starting_bid_wei,
        window,
        title,
        description,
    )
}

/// The canonical signature of the factory's creation event.
pub open spec fn auction_created_signature() -> Seq<char> {
    "AuctionCreated(address,address,uint256,uint256,uint256,address,uint256)"@
}

/// Whether a log decodes as `AuctionCreated`: exactly three topics, the
/// first being the event's signature hash, and data holding the five
/// non-indexed words.
pub open spec fn is_auction_created(log: LogEntry) -> bool {
    &&& log.topics@.len() == 3
    &&& log.topics@[0]@ == keccak256_of(encode_utf8(auction_created_signature()))
    &&& log.data@.len() >= 160
}

/// Whether `r` carries the fields of the `AuctionCreated` event `log`: the
/// indexed auction address and seller from the topics, the rest from the
/// data words.
pub open spec fn fields_from_log(log: LogEntry, r: CreateAuctionResult) -> bool {
    &&& r.auction_address@ == word_address(log.topics@[1]@)
    &&& r.seller@ == word_address(log.topics@[2]@)
    &&& r.bidding_time_seconds.be@ == word_at(log.data@, 0)
    &&& r.end_time.be@ == word_at(log.data@, 1)
    &&& r.starting_bid_wei.be@ == word_at(log.data@, 2)
    &&& r.admin@ == word_address(word_at(log.data@, 3))
    &&& r.confirmation_window.be@ == word_at(log.data@, 4)
}

fn same_word(a: &[u8; 32], b: &[u8; 32]) -> (r: bool)
    ensures
        r == (a@ == b@),
{
    let mut i: usize = 0;
    while i < 32
        invariant
            i <= 32,
            a@.len() == 32,
            b@.len() == 32,
            forall|k: int| 0 <= k < i ==> a@[k] == b@[k],
        decreases 32 - i,
    {
        if a[i] != b[i] {
            return false;
        }
        i = i + 1;
    }
    assert(a@ =~= b@);
    true
}

/// The auction that a mined creation transaction made: read from the
/// first of its logs that is an `AuctionCreated` event.
pub fn create_auction_outcome(receipt: &TxReceipt) -> (r: Result<
    CreateAuctionResult,
    CreateAuctionError,
>)
    ensures
        match r {
            Ok(res) => exists|i: int|
                0 <= i < receipt.logs@.len() && #[trigger] is_auction_created(receipt.logs@[i]) && (
                forall|j: int| 0 <= j < i ==> !is_auction_created(receipt.logs@[j]))
                    && fields_from_log(receipt.logs@[i], res) && res.tx_hash@ == hex_prefixed(
                    receipt.transaction_hash@,
                ),
            Err(_) => forall|i: int|
                0 <= i < receipt.logs@.len() ==> !is_auction_created(#[trigger] receipt.logs@[i]),
        },
{
    let signature_hash: B256 = keccak256(
        "AuctionCreated(address,address,uint256,uint256,uint256,address,uint256)".as_bytes(),
    );
    let n = receipt.logs.len();
    let mut i: usize = 0;
    while i < n
        invariant
            i <= n,
            n == receipt.logs@.len(),
            signature_hash@ == keccak256_of(encode_utf8(auction_created_signature())),
            forall|j: int| 0 <= j < i ==> !is_auction_created(#[trigger] receipt.logs@[j]),
        decreases n - i,
    {
        let log = &receipt.logs[i];
        if log.topics.len() == 3 && same_word(&log.topics[0].bytes, &signature_hash.bytes)
            && log.data.len() >= 160 {
            let data = log.data.as_slice();
            let admin_word = read_word(data, 96);
            let res = CreateAuctionResult {
                tx_hash: tx_hash_text(receipt),
                auction_address: address_of_word(&log.topics[1].bytes),
                seller: address_of_word(&log.topics[2].bytes),
                bidding_time_seconds: U256 { be: read_word(data, 0) },
                end_time: U256 { be: read_word(data, 32) },
                starting_bid_wei: U256 { be: read_word(data, 64) },
                admin: address_of_word(&admin_word),
                confirmation_window: U256 { be: read_word(data, 128) },
            };
            assert(is_auction_created(receipt.logs@[i as int]));
            return Ok(res);
        }
        i = i + 1;
    }
    Err(CreateAuctionError::EventNotFound)
}

} // verus!
