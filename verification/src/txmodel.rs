//! Data model of the semi-structured transaction entries the scanners
//! consume.
//!
//! A historical-transaction entry arrives as a JSON tree; the caller
//! flattens the paths the scanners read into these plain records.  A
//! field holds `None` where the corresponding node is missing from the
//! tree, and otherwise the text of the node as the JSON renders it
//! (string nodes keep their surrounding quotes), except where noted.

use crate::dec::Dec;
use vstd::prelude::*;

verus! {

/// One attribute of an event, both sides as raw rendered text.
pub struct Attr {
    pub key: Option<String>,
    pub value: Option<String>,
}

/// One event of a transaction log: its `type` (the inner string, when
/// the node is a string) and its attribute list.
pub struct Event {
    pub etype: Option<String>,
    pub attributes: Option<Vec<Attr>>,
}

/// One entry of a transaction's `logs` array.
pub struct LogEntry {
    pub events: Option<Vec<Event>>,
}

/// One execute message of a transaction: the target contract address
/// (the inner string, when the node is a string), which direct action
/// fields the `execute_msg` object carries, and the raw text of a
/// `send`-wrapped inner message when one is present.
pub struct TxMsg {
    pub contract: Option<String>,
    pub execute: Option<ExecMsg>,
}

pub struct ExecMsg {
    pub has_claim_rewards: bool,
    pub has_deposit_stable: bool,
    pub has_repay_stable: bool,
    pub has_borrow_stable: bool,
    pub send_msg: Option<String>,
}

/// One fee coin, both fields as raw rendered text.
pub struct FeeCoin {
    pub denom: Option<String>,
    pub amount: Option<String>,
}

/// One historical-transaction entry, flattened to the paths the fee
/// scanner reads.
pub struct TxEntry {
    pub msgs: Option<Vec<TxMsg>>,
    pub logs: Option<Vec<LogEntry>>,
    pub fee_coins: Option<Vec<FeeCoin>>,
    pub gas_wanted: Option<String>,
    pub gas_used: Option<String>,
    pub height: Option<String>,
    pub timestamp: Option<String>,
    pub raw_log: Option<String>,
}

/// One mined fee record.
#[derive(Debug)]
pub struct TxLog {
    pub height: u64,
    pub timestamp: i64,
    pub gas_wanted: Dec,
    pub gas_used: Dec,
    pub amount: Dec,
    pub fee_denom: String,
    pub fee_amount: Dec,
    pub raw_log: String,
}

/// The mathematical content of a [`TxLog`].
#[verifier::ext_equal]
pub struct TxLogV {
    pub height: u64,
    pub timestamp: i64,
    pub gas_wanted: Dec,
    pub gas_used: Dec,
    pub amount: Dec,
    pub fee_denom: Seq<char>,
    pub fee_amount: Dec,
    pub raw_log: Seq<char>,
}

impl View for TxLog {
    type V = TxLogV;

    open spec fn view(&self) -> TxLogV {
        TxLogV {
            height: self.height,
            timestamp: self.timestamp,
            gas_wanted: self.gas_wanted,
            gas_used: self.gas_used,
            amount: self.amount,
            fee_denom: self.fee_denom@,
            fee_amount: self.fee_amount,
            raw_log: self.raw_log@,
        }
    }
}

impl TxLog {
    /// Every decimal field stays within the fixed-point representation.
    pub open spec fn wf(self) -> bool {
        self.gas_wanted.wf() && self.gas_used.wf() && self.amount.wf() && self.fee_amount.wf()
    }
}

/// One typed attribute of a decoded `wasm` event.
pub struct WasmAttr {
    pub key: String,
    pub value: String,
}

/// One typed event of a decoded transaction log.
pub struct WasmEvent {
    pub etype: String,
    pub attributes: Vec<WasmAttr>,
}

/// One transaction of a block, flattened to what the block-indexed
/// deposit scanner reads: its raw log text, the decoded events of its
/// first log entry (`None` when the logs are absent or undecodable),
/// and its timestamp in epoch seconds.
pub struct BlockTx {
    pub raw_log: String,
    pub events: Option<Vec<WasmEvent>>,
    pub timestamp: i64,
}

/// One mined stablecoin-deposit record.
#[derive(Debug)]
pub struct DepositStableLog {
    pub height: u64,
    pub timestamp: i64,
    pub mint_amount: Dec,
    pub deposit_amount: Dec,
    pub exchange_rate: Dec,
}

/// The mathematical content of a [`DepositStableLog`].
#[verifier::ext_equal]
pub struct DepositLogV {
    pub height: u64,
    pub timestamp: i64,
    pub mint_amount: Dec,
    pub deposit_amount: Dec,
    pub exchange_rate: Dec,
}

impl View for DepositStableLog {
    type V = DepositLogV;

    open spec fn view(&self) -> DepositLogV {
        DepositLogV {
            height: self.height,
            timestamp: self.timestamp,
            mint_amount: self.mint_amount,
            deposit_amount: self.deposit_amount,
            exchange_rate: self.exchange_rate,
        }
    }
}

impl DepositStableLog {
    pub open spec fn wf(self) -> bool {
        self.mint_amount.wf() && self.deposit_amount.wf() && self.exchange_rate.wf()
    }
}

/// A derived artifact together with the chain height it was computed
/// at, for traceability.
#[derive(Debug)]
pub struct Response<T> {
    pub height: String,
    pub result: T,
}

} // verus!
