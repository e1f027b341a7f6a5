//! Transactions and calls as plain values, and the parts of a receipt
//! that the client reads.

use vstd::prelude::*;
use crate::primitives::{Address, B256, U256, b256_to_hex, hex_prefixed};

verus! {

/// A transaction to send, or a read-only call to make: the sender (none
/// for a call), the contract, the ether value attached (none when the
/// default), and the calldata.
pub struct TransactionRequest {
    pub from: Option<Address>,
    pub to: Address,
    pub value: Option<U256>,
    pub input: Vec<u8>,
}

/// One event log of a receipt: its topics and its data.
pub struct LogEntry {
    pub topics: Vec<B256>,
    pub data: Vec<u8>,
}

/// The receipt of a mined transaction: its hash, whether it succeeded,
/// and its logs.
pub struct TxReceipt {
    pub transaction_hash: B256,
    pub status: bool,
    pub logs: Vec<LogEntry>,
}

/// A read-only call of `to` with the calldata `input`.
pub fn call_request(to: Address, input: Vec<u8>) -> (r: TransactionRequest)
    ensures
        r.from is None,
        r.to == to,
        r.value is None,
        r.input@ == input@,
{
    TransactionRequest { from: None, to, value: None, input }
}

/// A transaction from `from` to `to` carrying the calldata `input`.
pub fn send_request(from: Address, to: Address, input: Vec<u8>) -> (r: TransactionRequest)
    ensures
        r.from == Some(from),
        r.to == to,
        r.value is None,
        r.input@ == input@,
{
    TransactionRequest { from: Some(from), to, value: None, input }
}

/// The transaction hash of a receipt as text: `0x` and lower-case hex.
pub fn tx_hash_text(receipt: &TxReceipt) -> (s: String)
    ensures
        s@ == hex_prefixed(receipt.transaction_hash@),
{
    b256_to_hex(&receipt.transaction_hash)
}

} // verus!
