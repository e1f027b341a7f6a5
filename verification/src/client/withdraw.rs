//! Withdrawing refundable bids: the pending-returns read, the
//! `withdraw()` transaction, and the checks that a withdrawal takes
//! before and after it, as a step-by-step flow; and the ether text of a
//! wei amount.

use vstd::prelude::*;
use crate::abi::{AbiError, address_word, decode_uint256_return, encode_call, encode_call_address, selector_of, uint256_return};
use crate::client::transaction::{TransactionRequest, TxReceipt, call_request, send_request, tx_hash_text};
use crate::primitives::{
    Address, U256, be_value, decimal, hex_prefixed, u256_div, u256_from_u64, u256_is_zero,
    u256_rem, u256_to_string, u256_to_string_padded, zero_pad,
};

verus! {

/// Result of a completed withdrawal.
pub struct WithdrawResult {
    pub tx_hash: String,
    pub amount_withdrawn_wei: U256,
    pub amount_withdrawn_eth: String,
}

/// Why a withdrawal did not complete.
#[derive(Clone, Copy, Debug, PartialEq, Eq)]
pub enum WithdrawError {
    /// Nothing was pending for the caller.
    NoPendingFunds,
    /// The `withdraw()` transaction reverted.
    Reverted,
    /// The transaction succeeded but funds are still pending.
    PendingRemains,
    /// A pending-returns reply could not be decoded.
    Decode(AbiError),
}

impl WithdrawError {
    /// The text of the error.
    pub open spec fn message_spec(&self) -> Seq<char> {
        match self {
            WithdrawError::NoPendingFunds => "No pending funds available for withdrawal"@,
            WithdrawError::Reverted => "Withdraw transaction reverted"@,
            WithdrawError::PendingRemains =>
                "Withdrawal transaction completed but pending balance still exists"@,
            WithdrawError::Decode(e) => e.message_spec(),
        }
    }

    /// The text of the error.
    pub fn message(&self) -> (s: String)
        ensures
            s@ == self.message_spec(),
    {
        match self {
            WithdrawError::NoPendingFunds => String::from_str(
                "No pending funds available for withdrawal",
            ),
            WithdrawError::Reverted => String::from_str("Withdraw transaction reverted"),
            WithdrawError::PendingRemains => String::from_str(
                "Withdrawal transaction completed but pending balance still exists",
            ),
            WithdrawError::Decode(e) => e.message(),
        }
    }
}

/// Wei in one ether.
pub open spec fn wei_per_eth() -> nat {
    1000000000000000000nat
}

/// The ether text of `wei`: the whole ethers, a dot, and the first four of
/// the eighteen zero-padded decimals of the remainder (truncated).
pub open spec fn eth_text(wei: nat) -> Seq<char> {
    decimal(wei / wei_per_eth()) + seq!['.'] + zero_pad(decimal(wei % wei_per_eth()), 18).take(4)
}

/// Formats a wei amount as ether with four decimals, truncating.
pub fn wei_to_eth_string(value: U256) -> (s: String)
    ensures
        s@ == eth_text(value@),
{
    let wei_per_eth_value = u256_from_u64(1000000000000000000u64);
    let whole = u256_div(&value, &wei_per_eth_value);
    let fraction = u256_rem(&value, &wei_per_eth_value);
    let fraction_text = u256_to_string_padded(&fraction, 18);
    assert(fraction_text@.len() >= 18);
    let fraction_str = fraction_text.as_str().substring_char(0, 4);
    let dot = ".";
    proof {
        reveal_strlit(".");
    }
    let s = u256_to_string(&whole).concat(dot).concat(fraction_str);
    assert(s@ =~= eth_text(value@));
    s
}

/// The `pendingReturns(address)` call for `account`.
pub fn pending_returns_call(contract_address: Address, account: Address) -> (r: TransactionRequest)
    ensures
        r.from is None,
        r.to == contract_address,
        r.value is None,
        r.input@ == selector_of("pendingReturns(address)"@) + address_word(account@),
{
    call_request(contract_address, encode_call_address("pendingReturns(address)", &account))
}

/// The pending amount, in wei, read from the call's return data.
pub fn decode_pending_returns(data: &[u8]) -> (r: Result<U256, AbiError>)
    ensures
        match r {
            Ok(v) => uint256_return(data@) == Some(v.be@),
            Err(e) => uint256_return(data@) is None && e == AbiError::Overrun,
        },
{
    decode_uint256_return(data)
}

/// The `withdraw()` transaction from `caller`.
pub fn withdraw_request(contract_address: Address, caller: Address) -> (r: TransactionRequest)
    ensures
        r.from == Some(caller),
        r.to == contract_address,
        r.value is None,
        r.input@ == selector_of("withdraw()"@),
{
    send_request(caller, contract_address, encode_call("withdraw()"))
}

/// Where a withdrawal stands.
pub enum WithdrawStage {
    /// Waiting for the pending amount before the transaction.
    AwaitPending,
    /// Waiting for the receipt of the `withdraw()` transaction.
    AwaitReceipt { pending: U256 },
    /// Waiting for the pending amount after the transaction.
    AwaitRemaining { pending: U256, tx_hash: String },
    /// Done.
    Finished,
}

/// What the caller is to do next for a withdrawal.
pub enum WithdrawAction {
    /// Make this read-only call and hand its return data to
    /// `on_pending_returns`.
    Call(TransactionRequest),
    /// Send this transaction and hand its receipt to `on_receipt`.
    Send(TransactionRequest),
    /// The withdrawal is over, with this outcome.
    Finish(Result<WithdrawResult, WithdrawError>),
}

/// A withdrawal of the funds pending for `caller` at `contract`.
pub struct WithdrawFlow {
    pub contract: Address,
    pub caller: Address,
    pub stage: WithdrawStage,
}

/// Whether `r` is the pending-returns call for `caller` at `contract`.
pub open spec fn is_pending_call(r: TransactionRequest, contract: Address, caller: Address) -> bool {
    &&& r.from is None
    &&& r.to == contract
    &&& r.value is None
    &&& r.input@ == selector_of("pendingReturns(address)"@) + address_word(caller@)
}

/// What handing the return data of a pending-returns call to a flow does
/// (see `WithdrawFlow::on_pending_returns`), from `before` to `after`.
pub open spec fn pending_step(
    before: WithdrawFlow,
    data: Seq<u8>,
    after: WithdrawFlow,
    a: WithdrawAction,
) -> bool {
    &&& after.contract == before.contract
    &&& after.caller == before.caller
    &&& after.wf()
    &&& match before.stage {
        WithdrawStage::AwaitPending => match uint256_return(data) {
            None => after.stage is Finished && a matches WithdrawAction::Finish(
                Err(WithdrawError::Decode(AbiError::Overrun)),
            ),
            Some(w) => if be_value(w) == 0 {
                after.stage is Finished && a matches WithdrawAction::Finish(
                    Err(WithdrawError::NoPendingFunds),
                )
            } else {
                &&& after.stage matches WithdrawStage::AwaitReceipt { pending }
                    && pending.be@ == w
                &&& a matches WithdrawAction::Send(req) && req.from == Some(before.caller)
                    && req.to == before.contract && req.value is None && req.input@
                    == selector_of("withdraw()"@)
            },
        },
        WithdrawStage::AwaitRemaining { pending, tx_hash } => {
            &&& after.stage is Finished
            &&& match uint256_return(data) {
                None => a matches WithdrawAction::Finish(Err(WithdrawError::Decode(AbiError::Overrun))),
                Some(w) => if be_value(w) != 0 {
                    a matches WithdrawAction::Finish(Err(WithdrawError::PendingRemains))
                } else {
                    a matches WithdrawAction::Finish(Ok(res)) && res.tx_hash@ == tx_hash@
                        && res.amount_withdrawn_wei == pending && res.amount_withdrawn_eth@
                        == eth_text(pending@) && pending@ > 0
                },
            }
        },
        _ => false,
    }
}

/// What handing the receipt of the `withdraw()` transaction to a flow does
/// (see `WithdrawFlow::on_receipt`), from `before` to `after`.
pub open spec fn receipt_step(
    before: WithdrawFlow,
    receipt: TxReceipt,
    after: WithdrawFlow,
    a: WithdrawAction,
) -> bool {
    &&& after.contract == before.contract
    &&& after.caller == before.caller
    &&& after.wf()
    &&& match before.stage {
        WithdrawStage::AwaitReceipt { pending } => if !receipt.status {
            after.stage is Finished && a matches WithdrawAction::Finish(
                Err(WithdrawError::Reverted),
            )
        } else {
            &&& after.stage matches WithdrawStage::AwaitRemaining { pending: p, tx_hash }
                && p == pending && tx_hash@ == hex_prefixed(receipt.transaction_hash@)
            &&& a matches WithdrawAction::Call(req) && is_pending_call(
                req,
                before.contract,
                before.caller,
            )
        },
        _ => false,
    }
}

impl WithdrawFlow {
    /// A stage that holds an amount holds one above zero.
    pub open spec fn wf(&self) -> bool {
        match self.stage {
            WithdrawStage::AwaitReceipt { pending } => pending@ > 0,
            WithdrawStage::AwaitRemaining { pending, .. } => pending@ > 0,
            _ => true,
        }
    }

    /// Starts a withdrawal: first read what is pending for the caller.
    pub fn start(contract_address: Address, caller: Address) -> (r: (WithdrawFlow, WithdrawAction))
        ensures
            r.0.contract == contract_address,
            r.0.caller == caller,
            r.0.stage is AwaitPending,
            r.0.wf(),
            r.1 matches WithdrawAction::Call(req) && is_pending_call(req, contract_address, caller),
    {
        let flow = WithdrawFlow { contract: contract_address, caller, stage: WithdrawStage::AwaitPending };
        (flow, WithdrawAction::Call(pending_returns_call(contract_address, caller)))
    }

    /// Takes the return data of a pending-returns call. Before the
    /// transaction, nothing pending ends the withdrawal, else the
    /// transaction follows; after it, anything still pending ends it in
    /// error, else it is complete and reports the amount first read.
    pub fn on_pending_returns(&mut self, data: &[u8]) -> (a: WithdrawAction)
        requires
            old(self).wf(),
            old(self).stage is AwaitPending || old(self).stage is AwaitRemaining,
        ensures
            pending_step(*old(self), data@, *final(self), a),
    {
        let decoded = decode_uint256_return(data);
        let mut stage = WithdrawStage::Finished;
        std::mem::swap(&mut stage, &mut self.stage);
        match stage {
            WithdrawStage::AwaitPending => {
                match decoded {
                    Err(e) => WithdrawAction::Finish(Err(WithdrawError::Decode(e))),
                    Ok(pending) => {
                        if u256_is_zero(&pending) {
                            WithdrawAction::Finish(Err(WithdrawError::NoPendingFunds))
                        } else {
                            self.stage = WithdrawStage::AwaitReceipt { pending };
                            WithdrawAction::Send(withdraw_request(self.contract, self.caller))
                        }
                    },
                }
            },
            WithdrawStage::AwaitRemaining { pending, tx_hash } => {
                match decoded {
                    Err(e) => WithdrawAction::Finish(Err(WithdrawError::Decode(e))),
                    Ok(remaining) => {
                        if !u256_is_zero(&remaining) {
                            WithdrawAction::Finish(Err(WithdrawError::PendingRemains))
                        } else {
                            let eth = wei_to_eth_string(pending);
                            WithdrawAction::Finish(
                                Ok(
                                    WithdrawResult {
                                        tx_hash,
                                        amount_withdrawn_wei: pending,
                                        amount_withdrawn_eth: eth,
                                    },
                                ),
                            )
                        }
                    },
                }
            },
            _ => WithdrawAction::Finish(Err(WithdrawError::Reverted)),
        }
    }

    /// Takes the receipt of the `withdraw()` transaction: a reverted one
    /// ends the withdrawal, else the pending amount is read again.
    pub fn on_receipt(&mut self, receipt: &TxReceipt) -> (a: WithdrawAction)
        requires
            old(self).wf(),
            old(self).stage is AwaitReceipt,
        ensures
            receipt_step(*old(self), *receipt, *final(self), a),
    {
        let mut stage = WithdrawStage::Finished;
        std::mem::swap(&mut stage, &mut self.stage);
        match stage {
            WithdrawStage::AwaitReceipt { pending } => {
                if !receipt.status {
                    WithdrawAction::Finish(Err(WithdrawError::Reverted))
                } else {
                    self.stage = WithdrawStage::AwaitRemaining { pending, tx_hash: tx_hash_text(receipt) };
                    WithdrawAction::Call(pending_returns_call(self.contract, self.caller))
                }
            },
            _ => WithdrawAction::Finish(Err(WithdrawError::Reverted)),
        }
    }
}

/// A withdrawal that completes reports exactly the amount that was pending
/// before the transaction, which was above zero; it completes only after a
/// successful `withdraw()` transaction, whose hash it reports, and when
/// nothing remained pending after it.
pub proof fn law_completed_withdrawal_reports_pending(
    f0: WithdrawFlow,
    first: Seq<u8>,
    f1: WithdrawFlow,
    a1: WithdrawAction,
    receipt: TxReceipt,
    f2: WithdrawFlow,
    a2: WithdrawAction,
    second: Seq<u8>,
    f3: WithdrawFlow,
    res: WithdrawResult,
)
    requires
        f0.stage is AwaitPending,
        pending_step(f0, first, f1, a1),
        receipt_step(f1, receipt, f2, a2),
        pending_step(f2, second, f3, WithdrawAction::Finish(Ok(res))),
    ensures
        uint256_return(first) matches Some(w) && res.amount_withdrawn_wei.be@ == w
            && be_value(w) > 0,
        receipt.status,
        res.tx_hash@ == hex_prefixed(receipt.transaction_hash@),
        uint256_return(second) matches Some(w) && be_value(w) == 0,
        res.amount_withdrawn_eth@ == eth_text(res.amount_withdrawn_wei@),
{
}

/// A withdrawal with nothing pending ends at once, with no transaction.
pub proof fn law_nothing_pending_sends_nothing(
    f0: WithdrawFlow,
    data: Seq<u8>,
    f1: WithdrawFlow,
    a: WithdrawAction,
)
    requires
        f0.stage is AwaitPending,
        uint256_return(data) matches Some(w) && be_value(w) == 0,
        pending_step(f0, data, f1, a),
    ensures
        f1.stage is Finished,
        a == WithdrawAction::Finish(Err(WithdrawError::NoPendingFunds)),
{
}

} // verus!
