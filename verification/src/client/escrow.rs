//! The escrow that follows an auction: confirming receipt, claiming after
//! the confirmation window, refunds, ending the auction, and the status
//! and permission queries.

use vstd::prelude::*;
use crate::abi::{
    AbiError, address_word, bool_return, decode_bool_return, decode_uint256_return,
    decode_uint8_return, encode_call, encode_call_address, selector_of, uint256_return,
    uint8_return,
};
use crate::client::transaction::{TransactionRequest, TxReceipt, call_request, send_request, tx_hash_text};
use crate::primitives::{Address, U256, be_value, hex_prefixed, u256_to_u64};

verus! {

/// Result of confirming receipt of an auctioned item.
pub struct ConfirmReceiptResult {
    pub tx_hash: String,
    pub escrow_settled: bool,
}

/// Result of claiming the escrow after the confirmation window expired.
pub struct ClaimAfterTimeoutResult {
    pub tx_hash: String,
    pub escrow_settled: bool,
}

/// Result of flagging an escrow refund.
pub struct FlagRefundResult {
    pub tx_hash: String,
    pub refund_flagged: bool,
}

/// The stage of an auction's escrow.
#[derive(Clone, Copy, Debug, PartialEq, Eq)]
pub enum EscrowStatus {
    ActiveAuction,
    AwaitingFinalization,
    AwaitingBuyerConfirmation,
    Complete,
    Refunded,
}

/// The status that the contract's numeric code stands for; codes past
/// the last status read as `ActiveAuction`.
pub open spec fn status_of_code(value: u8) -> EscrowStatus {
    if value == 1 {
        EscrowStatus::AwaitingFinalization
    } else if value == 2 {
        EscrowStatus::AwaitingBuyerConfirmation
    } else if value == 3 {
        EscrowStatus::Complete
    } else if value == 4 {
        EscrowStatus::Refunded
    } else {
        EscrowStatus::ActiveAuction
    }
}

impl EscrowStatus {
    /// Converts the contract's raw status code; unknown codes give
    /// `ActiveAuction`.
    pub fn from_u8(value: u8) -> (s: Self)
        ensures
            s == status_of_code(value),
    {
        match value {
            0 => EscrowStatus::ActiveAuction,
            1 => EscrowStatus::AwaitingFinalization,
            2 => EscrowStatus::AwaitingBuyerConfirmation,
            3 => EscrowStatus::Complete,
            4 => EscrowStatus::Refunded,
            _ => EscrowStatus::ActiveAuction,
        }
    }
}

// ---------------------------------------------------------------------
// Transactions
// ---------------------------------------------------------------------

/// The `confirmReceipt()` transaction, sent by the winning bidder.
pub fn confirm_receipt_request(contract_address: Address, bidder: Address) -> (r:
    TransactionRequest)
    ensures
        r.from == Some(bidder),
        r.to == contract_address,
        r.value is None,
        r.input@ == selector_of("confirmReceipt()"@),
{
    send_request(bidder, contract_address, encode_call("confirmReceipt()"))
}

/// The result of a mined `confirmReceipt()` transaction.
pub fn confirm_receipt_outcome(receipt: &TxReceipt) -> (r: ConfirmReceiptResult)
    ensures
        r.tx_hash@ == hex_prefixed(receipt.transaction_hash@),
        r.escrow_settled,
{
    ConfirmReceiptResult { tx_hash: tx_hash_text(receipt), escrow_settled: true }
}

/// The `claimAfterTimeout()` transaction, sent by the seller.
pub fn claim_after_timeout_request(contract_address: Address, seller: Address) -> (r:
    TransactionRequest)
    ensures
        r.from == Some(seller),
        r.to == contract_address,
        r.value is None,
        r.input@ == selector_of("claimAfterTimeout()"@),
{
    send_request(seller, contract_address, encode_call("claimAfterTimeout()"))
}

/// The result of a mined `claimAfterTimeout()` transaction.
pub fn claim_after_timeout_outcome(receipt: &TxReceipt) -> (r: ClaimAfterTimeoutResult)
    ensures
        r.tx_hash@ == hex_prefixed(receipt.transaction_hash@),
        r.escrow_settled,
{
    ClaimAfterTimeoutResult { tx_hash: tx_hash_text(receipt), escrow_settled: true }
}

/// The `flagRefund()` transaction, sent by the administrator.
pub fn flag_refund_request(contract_address: Address, admin: Address) -> (r: TransactionRequest)
    ensures
        r.from == Some(admin),
        r.to == contract_address,
        r.value is None,
        r.input@ == selector_of("flagRefund()"@),
{
    send_request(admin, contract_address, encode_call("flagRefund()"))
}

/// The result of a mined `flagRefund()` transaction.
pub fn flag_refund_outcome(receipt: &TxReceipt) -> (r: FlagRefundResult)
    ensures
        r.tx_hash@ == hex_prefixed(receipt.transaction_hash@),
        r.refund_flagged,
{
    FlagRefundResult { tx_hash: tx_hash_text(receipt), refund_flagged: true }
}

/// The `endAuction()` transaction.
pub fn end_auction_request(contract_address: Address, caller: Address) -> (r: TransactionRequest)
    ensures
        r.from == Some(caller),
        r.to == contract_address,
        r.value is None,
        r.input@ == selector_of("endAuction()"@),
{
    send_request(caller, contract_address, encode_call("endAuction()"))
}

/// What ending an auction yields: the transaction hash as text.
pub fn end_auction_outcome(receipt: &TxReceipt) -> (s: String)
    ensures
        s@ == hex_prefixed(receipt.transaction_hash@),
{
    tx_hash_text(receipt)
}

// ---------------------------------------------------------------------
// Queries
// ---------------------------------------------------------------------

/// The `timeRemainingForConfirmation()` call.
pub fn time_remaining_call(contract_address: Address) -> (r: TransactionRequest)
    ensures
        r.from is None,
        r.to == contract_address,
        r.value is None,
        r.input@ == selector_of("timeRemainingForConfirmation()"@),
{
    call_request(contract_address, encode_call("timeRemainingForConfirmation()"))
}

/// The seconds left in the confirmation window, read from the call's
/// return data; a count that does not fit in 64 bits reads as zero.
pub fn decode_time_remaining(data: &[u8]) -> (r: Result<u64, AbiError>)
    ensures
        match r {
            Ok(v) => uint256_return(data@) matches Some(w) && v == (if be_value(w) <= u64::MAX {
                be_value(w)
            } else {
                0
            }),
            Err(e) => uint256_return(data@) is None && e == AbiError::Overrun,
        },
{
    let seconds: U256 = decode_uint256_return(data)?;
    match u256_to_u64(&seconds) {
        Some(v) => Ok(v),
        None => Ok(0),
    }
}

/// The `getEscrowStatus()` call.
pub fn escrow_status_call(contract_address: Address) -> (r: TransactionRequest)
    ensures
        r.from is None,
        r.to == contract_address,
        r.value is None,
        r.input@ == selector_of("getEscrowStatus()"@),
{
    call_request(contract_address, encode_call("getEscrowStatus()"))
}

/// The escrow status in the call's return data.
pub fn decode_escrow_status(data: &[u8]) -> (r: Result<EscrowStatus, AbiError>)
    ensures
        match r {
            Ok(s) => uint8_return(data@) matches Some(code) && s == status_of_code(code),
            Err(e) => uint8_return(data@) is None && e == AbiError::Overrun,
        },
{
    let raw: u8 = decode_uint8_return(data)?;
    Ok(EscrowStatus::from_u8(raw))
}

/// The `canConfirmReceipt(address)` call for `caller`.
pub fn can_confirm_receipt_call(contract_address: Address, caller: Address) -> (r:
    TransactionRequest)
    ensures
        r.from is None,
        r.to == contract_address,
        r.value is None,
        r.input@ == selector_of("canConfirmReceipt(address)"@) + address_word(caller@),
{
    call_request(contract_address, encode_call_address("canConfirmReceipt(address)", &caller))
}

/// The `canClaimTimeout(address)` call for `caller`.
pub fn can_claim_timeout_call(contract_address: Address, caller: Address) -> (r:
    TransactionRequest)
    ensures
        r.from is None,
        r.to == contract_address,
        r.value is None,
        r.input@ == selector_of("canClaimTimeout(address)"@) + address_word(caller@),
{
    call_request(contract_address, encode_call_address("canClaimTimeout(address)", &caller))
}

/// The `canFlagRefund(address)` call for `caller`.
pub fn can_flag_refund_call(contract_address: Address, caller: Address) -> (r: TransactionRequest)
    ensures
        r.from is None,
        r.to == contract_address,
        r.value is None,
        r.input@ == selector_of("canFlagRefund(address)"@) + address_word(caller@),
{
    call_request(contract_address, encode_call_address("canFlagRefund(address)", &caller))
}

/// The permission that one of the `can…` calls returns.
pub fn decode_permission(data: &[u8]) -> (r: Result<bool, AbiError>)
    ensures
        match r {
            Ok(b) => bool_return(data@) == Some(b),
            Err(e) => bool_return(data@) is None && e == AbiError::Overrun,
        },
{
    decode_bool_return(data)
}

} // verus!
