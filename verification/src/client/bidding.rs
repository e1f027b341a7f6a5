//! Bidding: the payable `bid()` transaction and the `highestBid()` read.

use vstd::prelude::*;
use crate::abi::{AbiError, decode_uint256_return, encode_call, selector_of, uint256_return};
use crate::client::transaction::{TransactionRequest, TxReceipt, call_request, tx_hash_text};
use crate::primitives::{Address, U256, hex_prefixed};

verus! {

/// Result of a mined bid: its transaction hash and the highest bid read
/// back from the contract afterwards.
pub struct BidResult {
    pub tx_hash: String,
    pub highest_bid_wei: U256,
}

/// The `bid()` transaction from `bidder`, carrying `bid_amount_wei`.
pub fn place_bid_request(contract_address: Address, bidder: Address, bid_amount_wei: U256) -> (r:
    TransactionRequest)
    ensures
        r.from == Some(bidder),
        r.to == contract_address,
        r.value == Some(bid_amount_wei),
        r.input@ == selector_of("bid()"@),
{
    TransactionRequest {
        from: Some(bidder),
        to: contract_address,
        value: Some(bid_amount_wei),
        input: encode_call("bid()"),
    }
}

/// The result of a mined bid, given the highest bid read after it.
pub fn place_bid_outcome(receipt: &TxReceipt, highest_bid: U256) -> (r: BidResult)
    ensures
        r.tx_hash@ == hex_prefixed(receipt.transaction_hash@),
        r.highest_bid_wei == highest_bid,
{
    BidResult { tx_hash: tx_hash_text(receipt), highest_bid_wei: highest_bid }
}

/// The `highestBid()` call.
pub fn highest_bid_call(contract_address: Address) -> (r: TransactionRequest)
    ensures
        r.from is None,
        r.to == contract_address,
        r.value is None,
        r.input@ == selector_of("highestBid()"@),
{
    call_request(contract_address, encode_call("highestBid()"))
}

/// The highest bid, in wei, read from the call's return data.
pub fn decode_highest_bid(data: &[u8]) -> (r: Result<U256, AbiError>)
    ensures
        match r {
            Ok(v) => uint256_return(data@) == Some(v.be@),
            Err(e) => uint256_return(data@) is None && e == AbiError::Overrun,
        },
{
    decode_uint256_return(data)
}

} // verus!
