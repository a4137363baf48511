//! Classification and extraction of fee records from historical
//! transactions.
//!
//! A transaction qualifies when its single execute message targets the
//! expected contract with the requested action; the requested numeric
//! attribute is then mined out of the first `wasm` event of the first
//! log entry, together with the fee, gas and height fields.  A
//! malformed or non-matching entry is rejected as a whole and skipped
//! by the scan.

use crate::dec::{dec_of_str, dec_parse};
use crate::error::BotError;
use crate::text::{
    all_digits, digits_val, lemma_strip_digits_all_digits, parse_digits_u64, str_eq, strip_digits,
    strip_non_digits, strip_quote_chars, strip_quotes,
};
use crate::time::{parse_rfc3339_secs, rfc3339_secs};
use crate::txmodel::{Attr, Event, ExecMsg, Response, TxEntry, TxLog, TxLogV};
use vstd::prelude::*;
use vstd::string::*;

verus! {

/// The contract actions the fee scanner can classify.
///
/// The first four are recognized by a direct field of the execute
/// message; the other two arrive wrapped in a `send` message whose
/// inner payload must equal a known base64 literal, compared at the
/// encoded-string level.
#[derive(Clone, Copy, Debug, PartialEq, Eq, Structural)]
pub enum ActionKind {
    ClaimRewards,
    DepositStable,
    RepayStable,
    BorrowStable,
    Staking,
    RedeemStable,
}

/// Whether an execute message carries the requested action.
pub open spec fn spec_action_matches(m: ExecMsg, kind: ActionKind) -> bool {
    match kind {
        ActionKind::ClaimRewards => m.has_claim_rewards,
        ActionKind::DepositStable => m.has_deposit_stable,
        ActionKind::RepayStable => m.has_repay_stable,
        ActionKind::BorrowStable => m.has_borrow_stable,
        ActionKind::Staking => m.send_msg is Some && strip_quotes(m.send_msg->0@)
            == "eyJzdGFrZV92b3RpbmdfdG9rZW5zIjp7fX0="@,
        ActionKind::RedeemStable => m.send_msg is Some && strip_quotes(m.send_msg->0@)
            == "eyJyZWRlZW1fc3RhYmxlIjp7fX0="@,
    }
}

/// Whether the entry's message list is a single execute message with
/// the requested action, addressed to the expected contract.
pub open spec fn spec_msg_match(entry: TxEntry, account: Seq<char>, kind: ActionKind) -> bool {
    &&& entry.msgs is Some
    &&& entry.msgs->0@.len() == 1
    &&& entry.msgs->0@[0].execute is Some
    &&& spec_action_matches(entry.msgs->0@[0].execute->0, kind)
    &&& entry.msgs->0@[0].contract is Some
    &&& entry.msgs->0@[0].contract->0@ == account
}

/// Walk one attribute list: the carried value is replaced by each
/// attribute whose key text, quotes stripped, equals the requested
/// field name, so the last match wins; an attribute with a missing
/// key, or a matching one with a missing value, rejects the entry
/// (`None`).
pub open spec fn spec_scan_attrs(attrs: Seq<Attr>, field: Seq<char>, cur: Seq<char>) -> Option<
    Seq<char>,
>
    decreases attrs.len(),
{
    if attrs.len() == 0 {
        Some(cur)
    } else {
        let a = attrs[0];
        if a.key is None {
            None
        } else if strip_quotes(a.key->0@) == field {
            if a.value is None {
                None
            } else {
                spec_scan_attrs(attrs.drop_first(), field, a.value->0@)
            }
        } else {
            spec_scan_attrs(attrs.drop_first(), field, cur)
        }
    }
}

/// The first event whose type is `wasm`: `None` when an event before
/// it is missing its type (the entry is rejected), `Some(None)` when
/// no event is a `wasm` event.
pub open spec fn spec_first_wasm(events: Seq<Event>) -> Option<Option<Event>>
    decreases events.len(),
{
    if events.len() == 0 {
        Some(None)
    } else {
        let e = events[0];
        if e.etype is None {
            None
        } else if e.etype->0@ == "wasm"@ {
            Some(Some(e))
        } else {
            spec_first_wasm(events.drop_first())
        }
    }
}

/// The raw amount text mined from an event list: the requested
/// attribute of the first `wasm` event, `"0"` when no event is a
/// `wasm` event or no attribute matches; a first `wasm` event without
/// an attribute list rejects the entry.
pub open spec fn spec_event_amount(events: Seq<Event>, field: Seq<char>) -> Option<Seq<char>> {
    match spec_first_wasm(events) {
        Option::None => None,
        Option::Some(Option::None) => Some("0"@),
        Option::Some(Option::Some(e)) => if e.attributes is None {
            None
        } else {
            spec_scan_attrs(e.attributes->0@, field, "0"@)
        },
    }
}

/// The record mined from one transaction entry, when the entry
/// matches, its single fee coin is denominated exactly in the
/// stablecoin, and every read field is present and parses; `None`
/// when the entry is skipped.
pub open spec fn spec_scan_tx(
    entry: TxEntry,
    account: Seq<char>,
    kind: ActionKind,
    field: Seq<char>,
) -> Option<TxLogV> {
    if !spec_msg_match(entry, account, kind) {
        None
    } else if entry.gas_wanted is None || entry.gas_used is None {
        None
    } else if entry.logs is None || entry.logs->0@.len() == 0 || entry.logs->0@[0].events is None {
        None
    } else {
        match spec_event_amount(entry.logs->0@[0].events->0@, field) {
            Option::None => None,
            Option::Some(amount_raw) => {
                if entry.fee_coins is None || entry.fee_coins->0@.len() != 1 {
                    None
                } else if entry.fee_coins->0@[0].denom is None || strip_quotes(
                    entry.fee_coins->0@[0].denom->0@,
                ) != "uusd"@ {
                    None
                } else if entry.fee_coins->0@[0].amount is None {
                    None
                } else if entry.height is None || entry.timestamp is None
                    || entry.raw_log is None {
                    None
                } else {
                    let height_digits = strip_digits(entry.height->0@);
                    let ts = rfc3339_secs(strip_quotes(entry.timestamp->0@));
                    let gw = dec_of_str(strip_digits(entry.gas_wanted->0@));
                    let gu = dec_of_str(strip_digits(entry.gas_used->0@));
                    let amt = dec_of_str(strip_digits(amount_raw));
                    let fee = dec_of_str(strip_digits(entry.fee_coins->0@[0].amount->0@));
                    if height_digits.len() == 0 || digits_val(height_digits) > u64::MAX || ts
                        is None || gw is None || gu is None || amt is None || fee is None {
                        None
                    } else {
                        Some(
                            (TxLogV {
                                height: digits_val(height_digits) as u64,
                                timestamp: ts->0,
                                gas_wanted: gw->0,
                                gas_used: gu->0,
                                amount: amt->0,
                                fee_denom: "uusd"@,
                                fee_amount: fee->0,
                                raw_log: entry.raw_log->0@,
                            }),
                        )
                    }
                }
            },
        }
    }
}

/// The action a transaction-mining requirement key requests.
pub open spec fn spec_action_of_key(k: Seq<char>) -> Option<ActionKind> {
    if k == "claim_rewards"@ {
        Some(ActionKind::ClaimRewards)
    } else if k == "staking"@ {
        Some(ActionKind::Staking)
    } else if k == "redeem_stable"@ {
        Some(ActionKind::RedeemStable)
    } else if k == "deposit_stable"@ {
        Some(ActionKind::DepositStable)
    } else if k == "repay_stable"@ {
        Some(ActionKind::RepayStable)
    } else if k == "borrow_stable"@ {
        Some(ActionKind::BorrowStable)
    } else {
        None
    }
}

/// The protocol and contract name whose resolved address the scan for
/// this action filters on.
pub open spec fn spec_scan_contract(kind: ActionKind) -> (Seq<char>, Seq<char>) {
    match kind {
        ActionKind::ClaimRewards => ("anchorprotocol"@, "mmMarket"@),
        ActionKind::Staking => ("anchorprotocol"@, "ANC"@),
        ActionKind::RedeemStable => ("anchorprotocol"@, "aTerra"@),
        ActionKind::DepositStable => ("anchorprotocol"@, "mmMarket"@),
        ActionKind::RepayStable => ("anchorprotocol"@, "mmMarket"@),
        ActionKind::BorrowStable => ("anchorprotocol"@, "mmMarket"@),
    }
}

/// The event attribute that carries this action's amount.
pub open spec fn spec_amount_field(kind: ActionKind) -> Seq<char> {
    match kind {
        ActionKind::ClaimRewards => "claim_amount"@,
        ActionKind::Staking => "amount"@,
        ActionKind::RedeemStable => "redeem_amount"@,
        ActionKind::DepositStable => "deposit_amount"@,
        ActionKind::RepayStable => "repay_amount"@,
        ActionKind::BorrowStable => "borrow_amount"@,
    }
}

impl ActionKind {
    /// The action a transaction-mining requirement key requests, if
    /// the key names one.
    pub fn from_key(key: &str) -> (r: Option<ActionKind>)
        ensures
            r == spec_action_of_key(key@),
    {
        if str_eq(key, "claim_rewards") {
            Some(ActionKind::ClaimRewards)
        } else if str_eq(key, "staking") {
            Some(ActionKind::Staking)
        } else if str_eq(key, "redeem_stable") {
            Some(ActionKind::RedeemStable)
        } else if str_eq(key, "deposit_stable") {
            Some(ActionKind::DepositStable)
        } else if str_eq(key, "repay_stable") {
            Some(ActionKind::RepayStable)
        } else if str_eq(key, "borrow_stable") {
            Some(ActionKind::BorrowStable)
        } else {
            None
        }
    }

    /// The protocol and contract name to resolve into the scan's
    /// expected contract address.
    pub fn contract_names(&self) -> (r: (String, String))
        ensures
            r.0@ == spec_scan_contract(*self).0,
            r.1@ == spec_scan_contract(*self).1,
    {
        match self {
            ActionKind::ClaimRewards => (
                String::from_str("anchorprotocol"),
                String::from_str("mmMarket"),
            ),
            ActionKind::Staking => (String::from_str("anchorprotocol"), String::from_str("ANC")),
            ActionKind::RedeemStable => (
                String::from_str("anchorprotocol"),
                String::from_str("aTerra"),
            ),
            ActionKind::DepositStable => (
                String::from_str("anchorprotocol"),
                String::from_str("mmMarket"),
            ),
            ActionKind::RepayStable => (
                String::from_str("anchorprotocol"),
                String::from_str("mmMarket"),
            ),
            ActionKind::BorrowStable => (
                String::from_str("anchorprotocol"),
                String::from_str("mmMarket"),
            ),
        }
    }

    /// The event attribute that carries this action's amount.
    pub fn amount_field(&self) -> (r: String)
        ensures
            r@ == spec_amount_field(*self),
    {
        match self {
            ActionKind::ClaimRewards => String::from_str("claim_amount"),
            ActionKind::Staking => String::from_str("amount"),
            ActionKind::RedeemStable => String::from_str("redeem_amount"),
            ActionKind::DepositStable => String::from_str("deposit_amount"),
            ActionKind::RepayStable => String::from_str("repay_amount"),
            ActionKind::BorrowStable => String::from_str("borrow_amount"),
        }
    }
}

/// Whether an execute message carries the requested action.
pub fn action_matches(m: &ExecMsg, kind: ActionKind) -> (r: bool)
    ensures
        r == spec_action_matches(*m, kind),
{
    match kind {
        ActionKind::ClaimRewards => m.has_claim_rewards,
        ActionKind::DepositStable => m.has_deposit_stable,
        ActionKind::RepayStable => m.has_repay_stable,
        ActionKind::BorrowStable => m.has_borrow_stable,
        ActionKind::Staking => match &m.send_msg {
            Option::Some(s) => {
                let inner = strip_quote_chars(s.as_str());
                str_eq(inner.as_str(), "eyJzdGFrZV92b3RpbmdfdG9rZW5zIjp7fX0=")
            },
            Option::None => false,
        },
        ActionKind::RedeemStable => match &m.send_msg {
            Option::Some(s) => {
                let inner = strip_quote_chars(s.as_str());
                str_eq(inner.as_str(), "eyJyZWRlZW1fc3RhYmxlIjp7fX0=")
            },
            Option::None => false,
        },
    }
}

/// Whether the entry's message list matches the requested action and
/// contract.
pub fn msg_matches(entry: &TxEntry, account: &str, kind: ActionKind) -> (r: bool)
    ensures
        r == spec_msg_match(*entry, account@, kind),
{
    let msgs = match &entry.msgs {
        Option::Some(m) => m,
        Option::None => {
            return false;
        },
    };
    if msgs.len() != 1 {
        return false;
    }
    let exec = match &msgs[0].execute {
        Option::Some(e) => e,
        Option::None => {
            return false;
        },
    };
    if !action_matches(exec, kind) {
        return false;
    }
    match &msgs[0].contract {
        Option::Some(c) => str_eq(c.as_str(), account),
        Option::None => false,
    }
}

/// Walk one attribute list, as [`spec_scan_attrs`] describes.
fn scan_attrs(attrs: &Vec<Attr>, field: &str, cur: String) -> (r: Option<String>)
    ensures
        r is Some <==> spec_scan_attrs(attrs@, field@, cur@) is Some,
        r is Some ==> r->0@ == spec_scan_attrs(attrs@, field@, cur@)->0,
{
    let ghost orig = cur@;
    let n = attrs.len();
    let mut acc = cur;
    let mut i: usize = 0;
    proof {
        assert(attrs@.subrange(0, n as int) =~= attrs@);
    }
    while i < n
        invariant
            i <= n,
            n == attrs@.len(),
            orig == cur@,
            spec_scan_attrs(attrs@, field@, orig) == spec_scan_attrs(
                attrs@.subrange(i as int, n as int),
                field@,
                acc@,
            ),
        decreases n - i,
    {
        proof {
            assert(attrs@.subrange(i as int, n as int).drop_first() =~= attrs@.subrange(
                i + 1,
                n as int,
            ));
            assert(attrs@.subrange(i as int, n as int)[0] == attrs@[i as int]);
        }
        let key = match &attrs[i].key {
            Option::Some(k) => k,
            Option::None => {
                return None;
            },
        };
        let key_name = strip_quote_chars(key.as_str());
        if str_eq(key_name.as_str(), field) {
            match &attrs[i].value {
                Option::Some(v) => {
                    acc = v.clone();
                },
                Option::None => {
                    return None;
                },
            }
        }
        i = i + 1;
    }
    proof {
        assert(attrs@.subrange(n as int, n as int) =~= Seq::<Attr>::empty());
    }
    Some(acc)
}

/// Mine the amount text, as [`spec_event_amount`] describes: find the
/// first `wasm` event and scan its attributes.
fn scan_events(events: &Vec<Event>, field: &str) -> (r: Option<String>)
    ensures
        r is Some <==> spec_event_amount(events@, field@) is Some,
        r is Some ==> r->0@ == spec_event_amount(events@, field@)->0,
{
    let n = events.len();
    let mut i: usize = 0;
    proof {
        assert(events@.subrange(0, n as int) =~= events@);
    }
    while i < n
        invariant
            i <= n,
            n == events@.len(),
            spec_first_wasm(events@) == spec_first_wasm(events@.subrange(i as int, n as int)),
        decreases n - i,
    {
        proof {
            assert(events@.subrange(i as int, n as int).drop_first() =~= events@.subrange(
                i + 1,
                n as int,
            ));
            assert(events@.subrange(i as int, n as int)[0] == events@[i as int]);
        }
        let etype = match &events[i].etype {
            Option::Some(t) => t,
            Option::None => {
                return None;
            },
        };
        if str_eq(etype.as_str(), "wasm") {
            let attrs = match &events[i].attributes {
                Option::Some(a) => a,
                Option::None => {
                    return None;
                },
            };
            return scan_attrs(attrs, field, String::from_str("0"));
        }
        i = i + 1;
    }
    proof {
        assert(events@.subrange(n as int, n as int) =~= Seq::<Event>::empty());
    }
    Some(String::from_str("0"))
}

/// Mine one fee record out of one transaction entry.
///
/// Succeeds exactly on the entries [`spec_scan_tx`] accepts, with
/// exactly the record it describes; every other entry is rejected as
/// malformed and skipped by the caller.  The mined monetary fields are
/// losslessly parsed non-negative integers: digit-stripped text, so a
/// non-negative mantissa at scale zero.
pub fn tx_log_from_entry(entry: &TxEntry, account: &str, kind: ActionKind, amount_field: &str) -> (r:
    Result<TxLog, BotError>)
    ensures
        r is Ok <==> spec_scan_tx(*entry, account@, kind, amount_field@) is Some,
        r is Ok ==> r->Ok_0@ == spec_scan_tx(*entry, account@, kind, amount_field@)->0,
        r is Ok ==> r->Ok_0.wf(),
        r is Ok ==> r->Ok_0.amount.mantissa >= 0 && r->Ok_0.amount.scale == 0,
        r is Ok ==> r->Ok_0.fee_amount.mantissa >= 0 && r->Ok_0.fee_amount.scale == 0,
        r is Ok ==> r->Ok_0.gas_wanted.mantissa >= 0 && r->Ok_0.gas_wanted.scale == 0,
        r is Ok ==> r->Ok_0.gas_used.mantissa >= 0 && r->Ok_0.gas_used.scale == 0,
        r is Err ==> r->Err_0 == BotError::MalformedResponse,
{
    if !msg_matches(entry, account, kind) {
        return Err(BotError::MalformedResponse);
    }
    let gas_wanted_raw = match &entry.gas_wanted {
        Option::Some(s) => s,
        Option::None => {
            return Err(BotError::MalformedResponse);
        },
    };
    let gas_used_raw = match &entry.gas_used {
        Option::Some(s) => s,
        Option::None => {
            return Err(BotError::MalformedResponse);
        },
    };
    let logs = match &entry.logs {
        Option::Some(l) => l,
        Option::None => {
            return Err(BotError::MalformedResponse);
        },
    };
    if logs.len() == 0 {
        return Err(BotError::MalformedResponse);
    }
    let events = match &logs[0].events {
        Option::Some(e) => e,
        Option::None => {
            return Err(BotError::MalformedResponse);
        },
    };
    let amount_raw = match scan_events(events, amount_field) {
        Option::Some(a) => a,
        Option::None => {
            return Err(BotError::MalformedResponse);
        },
    };
    let coins = match &entry.fee_coins {
        Option::Some(c) => c,
        Option::None => {
            return Err(BotError::MalformedResponse);
        },
    };
    if coins.len() != 1 {
        return Err(BotError::MalformedResponse);
    }
    let denom = match &coins[0].denom {
        Option::Some(d) => d,
        Option::None => {
            return Err(BotError::MalformedResponse);
        },
    };
    let denom_name = strip_quote_chars(denom.as_str());
    if !str_eq(denom_name.as_str(), "uusd") {
        return Err(BotError::MalformedResponse);
    }
    let fee_raw = match &coins[0].amount {
        Option::Some(a) => a,
        Option::None => {
            return Err(BotError::MalformedResponse);
        },
    };
    let height_raw = match &entry.height {
        Option::Some(h) => h,
        Option::None => {
            return Err(BotError::MalformedResponse);
        },
    };
    let ts_raw = match &entry.timestamp {
        Option::Some(t) => t,
        Option::None => {
            return Err(BotError::MalformedResponse);
        },
    };
    let raw_log = match &entry.raw_log {
        Option::Some(l) => l,
        Option::None => {
            return Err(BotError::MalformedResponse);
        },
    };
    let height_digits = strip_non_digits(height_raw.as_str());
    let height = match parse_digits_u64(height_digits.as_str()) {
        Option::Some(h) => h,
        Option::None => {
            return Err(BotError::MalformedResponse);
        },
    };
    let ts_unquoted = strip_quote_chars(ts_raw.as_str());
    let timestamp = match parse_rfc3339_secs(ts_unquoted.as_str()) {
        Option::Some(t) => t,
        Option::None => {
            return Err(BotError::MalformedResponse);
        },
    };
    let gw_digits = strip_non_digits(gas_wanted_raw.as_str());
    let gas_wanted = match dec_parse(gw_digits.as_str()) {
        Option::Some(d) => d,
        Option::None => {
            return Err(BotError::MalformedResponse);
        },
    };
    let gu_digits = strip_non_digits(gas_used_raw.as_str());
    let gas_used = match dec_parse(gu_digits.as_str()) {
        Option::Some(d) => d,
        Option::None => {
            return Err(BotError::MalformedResponse);
        },
    };
    let amt_digits = strip_non_digits(amount_raw.as_str());
    let amount = match dec_parse(amt_digits.as_str()) {
        Option::Some(d) => d,
        Option::None => {
            return Err(BotError::MalformedResponse);
        },
    };
    let fee_digits = strip_non_digits(fee_raw.as_str());
    let fee_amount = match dec_parse(fee_digits.as_str()) {
        Option::Some(d) => d,
        Option::None => {
            return Err(BotError::MalformedResponse);
        },
    };
    let log = TxLog {
        height,
        timestamp,
        gas_wanted,
        gas_used,
        amount,
        fee_denom: String::from_str("uusd"),
        fee_amount,
        raw_log: raw_log.clone(),
    };
    proof {
        assert(log@ =~= spec_scan_tx(*entry, account@, kind, amount_field@)->0);
        lemma_strip_digits_all_digits(gas_wanted_raw@);
        lemma_strip_digits_all_digits(gas_used_raw@);
        lemma_strip_digits_all_digits(amount_raw@);
        lemma_strip_digits_all_digits(fee_raw@);
    }
    Ok(log)
}

/// A scan's policy: how many records to collect, the wall-clock budget,
/// and how many consecutive page failures it tolerates.
#[derive(Clone, Copy, Debug, PartialEq, Eq, Structural)]
pub struct ScanLimits {
    pub target_records: usize,
    pub budget_secs: u64,
    pub max_page_failures: u32,
}

impl ScanLimits {
    /// A scan must ask for at least one record.
    pub open spec fn wf(self) -> bool {
        self.target_records >= 1
    }

    /// The default policy: 10 records, a 180-second budget, 2
    /// consecutive page failures.
    pub fn standard() -> (r: ScanLimits)
        ensures
            r == (ScanLimits { target_records: 10usize, budget_secs: 180u64, max_page_failures: 2u32 }),
    {
        ScanLimits { target_records: 10, budget_secs: 180, max_page_failures: 2 }
    }
}

/// What the driver of a scan must do next: fetch the page at the given
/// cursor, or stop and call `finish`.
pub enum ScanStep {
    Fetch(String),
    Done,
}

pub open spec fn logs_view(s: Seq<TxLog>) -> Seq<TxLogV> {
    s.map_values(|l: TxLog| l@)
}

/// The records mined from one page of entries, in page order.
pub open spec fn spec_page_logs(
    entries: Seq<TxEntry>,
    account: Seq<char>,
    kind: ActionKind,
    field: Seq<char>,
) -> Seq<TxLogV>
    decreases entries.len(),
{
    if entries.len() == 0 {
        Seq::empty()
    } else {
        let front = spec_page_logs(entries.drop_last(), account, kind, field);
        match spec_scan_tx(entries.last(), account, kind, field) {
            Option::Some(l) => front.push(l),
            Option::None => front,
        }
    }
}

/// One page-scan step: extending a page prefix by one entry extends
/// its mined records exactly when the entry qualifies.
proof fn lemma_page_logs_step(
    entries: Seq<TxEntry>,
    i: int,
    account: Seq<char>,
    kind: ActionKind,
    field: Seq<char>,
)
    requires
        0 <= i < entries.len(),
    ensures
        spec_page_logs(entries.subrange(0, i + 1), account, kind, field) == (match spec_scan_tx(
            entries[i],
            account,
            kind,
            field,
        ) {
            Option::Some(l) => spec_page_logs(entries.subrange(0, i), account, kind, field).push(l),
            Option::None => spec_page_logs(entries.subrange(0, i), account, kind, field),
        }),
{
    let cur = entries.subrange(0, i + 1);
    assert(cur.drop_last() =~= entries.subrange(0, i));
    assert(cur.last() == entries[i]);
}

/// One paginated fee scan over an account's transaction history.
///
/// The scan itself is a state machine: the driver asks [`next_step`]
/// what to do, performs the page fetch, and hands the outcome back
/// through [`on_page`] or [`on_page_failure`]; [`finish`] renders the
/// verdict.  Wall-clock time enters only through the `elapsed_secs`
/// arguments.
///
/// [`next_step`]: FeeScan::next_step
/// [`on_page`]: FeeScan::on_page
/// [`on_page_failure`]: FeeScan::on_page_failure
/// [`finish`]: FeeScan::finish
pub struct FeeScan {
    pub account: String,
    pub kind: ActionKind,
    pub amount_field: String,
    pub limits: ScanLimits,
    pub records: Vec<TxLog>,
    pub offset: String,
    pub failures: u32,
}

impl FeeScan {
    pub fn new(account: String, kind: ActionKind, amount_field: String, limits: ScanLimits) -> (s:
        FeeScan)
        requires
            limits.wf(),
        ensures
            s.account@ == account@,
            s.kind == kind,
            s.amount_field@ == amount_field@,
            s.limits == limits,
            s.records@.len() == 0,
            s.offset@ == "0"@,
            s.failures == 0,
    {
        FeeScan {
            account,
            kind,
            amount_field,
            limits,
            records: Vec::new(),
            offset: String::from_str("0"),
            failures: 0,
        }
    }

    /// The scan continues while it is short of its target, within its
    /// budget, and below the failure threshold.
    pub open spec fn active(self, elapsed_secs: u64) -> bool {
        self.records.len() < self.limits.target_records && elapsed_secs < self.limits.budget_secs
            && self.failures < self.limits.max_page_failures
    }

    /// Decide whether to fetch another page (at the current cursor) or
    /// stop.
    pub fn next_step(&self, elapsed_secs: u64) -> (r: ScanStep)
        ensures
            self.active(elapsed_secs) ==> (r matches ScanStep::Fetch(o) && o@ == self.offset@),
            !self.active(elapsed_secs) ==> r is Done,
    {
        if self.records.len() < self.limits.target_records && elapsed_secs
            < self.limits.budget_secs && self.failures < self.limits.max_page_failures {
            ScanStep::Fetch(self.offset.clone())
        } else {
            ScanStep::Done
        }
    }

    /// Absorb one fetched page: mine every entry in order, then advance
    /// the cursor from the raw text of the page's `next` field.  A page
    /// whose `next` field is missing keeps its records but counts as a
    /// page failure; a cursor counts as a success and resets the
    /// failure streak.
    pub fn on_page(&mut self, entries: &Vec<TxEntry>, next_raw: Option<&String>)
        requires
            old(self).failures < u32::MAX,
        ensures
            logs_view(final(self).records@) == logs_view(old(self).records@) + spec_page_logs(
                entries@,
                old(self).account@,
                old(self).kind,
                old(self).amount_field@,
            ),
            final(self).account == old(self).account,
            final(self).kind == old(self).kind,
            final(self).amount_field == old(self).amount_field,
            final(self).limits == old(self).limits,
            next_raw is Some ==> final(self).offset@ == strip_digits(next_raw->0@)
                && final(self).failures == 0,
            next_raw is None ==> final(self).offset == old(self).offset && final(self).failures
                == old(self).failures + 1,
            forall|i: int|
                0 <= i < final(self).records@.len() ==> (#[trigger] final(self).records@[i]).wf()
                    || (i < old(self).records@.len() && final(self).records@[i]
                    == old(self).records@[i]),
    {
        let n = entries.len();
        let mut i: usize = 0;
        proof {
            assert(entries@.subrange(0, 0) =~= Seq::<TxEntry>::empty());
            assert(logs_view(self.records@) =~= logs_view(self.records@) + spec_page_logs(
                entries@.subrange(0, 0),
                self.account@,
                self.kind,
                self.amount_field@,
            ));
        }
        while i < n
            invariant
                i <= n,
                n == entries@.len(),
                self.account == old(self).account,
                self.kind == old(self).kind,
                self.amount_field == old(self).amount_field,
                self.limits == old(self).limits,
                self.offset == old(self).offset,
                self.failures == old(self).failures,
                old(self).failures < u32::MAX,
                logs_view(self.records@) == logs_view(old(self).records@) + spec_page_logs(
                    entries@.subrange(0, i as int),
                    old(self).account@,
                    old(self).kind,
                    old(self).amount_field@,
                ),
                forall|j: int|
                    0 <= j < self.records@.len() ==> (#[trigger] self.records@[j]).wf()
                        || (j < old(self).records@.len() && self.records@[j]
                        == old(self).records@[j]),
            decreases n - i,
        {
            proof {
                lemma_page_logs_step(
                    entries@,
                    i as int,
                    old(self).account@,
                    old(self).kind,
                    old(self).amount_field@,
                );
            }
            match tx_log_from_entry(&entries[i], self.account.as_str(), self.kind, self.amount_field.as_str()) {
                Result::Ok(l) => {
                    let ghost pre = self.records@;
                    let ghost lv = l@;
                    self.records.push(l);
                    proof {
                        assert(spec_scan_tx(
                            entries@[i as int],
                            old(self).account@,
                            old(self).kind,
                            old(self).amount_field@,
                        ) is Some);
                        assert(lv == spec_scan_tx(
                            entries@[i as int],
                            old(self).account@,
                            old(self).kind,
                            old(self).amount_field@,
                        )->0);
                        assert(logs_view(self.records@) =~= logs_view(pre).push(lv));
                        assert(spec_page_logs(
                            entries@.subrange(0, i + 1),
                            old(self).account@,
                            old(self).kind,
                            old(self).amount_field@,
                        ) == spec_page_logs(
                            entries@.subrange(0, i as int),
                            old(self).account@,
                            old(self).kind,
                            old(self).amount_field@,
                        ).push(lv));
                        assert(logs_view(self.records@) =~= logs_view(old(self).records@)
                            + spec_page_logs(
                            entries@.subrange(0, i + 1),
                            old(self).account@,
                            old(self).kind,
                            old(self).amount_field@,
                        ));
                    }
                },
                Result::Err(_) => {
                    proof {
                        assert(logs_view(self.records@) =~= logs_view(old(self).records@)
                            + spec_page_logs(
                            entries@.subrange(0, i + 1),
                            old(self).account@,
                            old(self).kind,
                            old(self).amount_field@,
                        ));
                    }
                },
            }
            i = i + 1;
        }
        proof {
            assert(entries@.subrange(0, n as int) =~= entries@);
        }
        match next_raw {
            Option::Some(s) => {
                self.offset = strip_non_digits(s.as_str());
                self.failures = 0;
            },
            Option::None => {
                self.failures = self.failures + 1;
            },
        }
    }

    /// Record a page fetch that failed outright (transport error or an
    /// unusable page body).
    pub fn on_page_failure(&mut self)
        requires
            old(self).failures < u32::MAX,
        ensures
            final(self).failures == old(self).failures + 1,
            final(self).account == old(self).account,
            final(self).kind == old(self).kind,
            final(self).amount_field == old(self).amount_field,
            final(self).limits == old(self).limits,
            final(self).records == old(self).records,
            final(self).offset == old(self).offset,
    {
        self.failures = self.failures + 1;
    }

    /// Conclude a scan that [`FeeScan::next_step`] has declared done:
    /// the accumulated records, stamped with the height of the first
    /// one, or `Timeout` when the budget or the failure threshold ran
    /// out before the target was reached.
    pub fn finish(self, elapsed_secs: u64) -> (r: Result<Response<Vec<TxLog>>, BotError>)
        requires
            self.limits.wf(),
            !self.active(elapsed_secs),
        ensures
            self.records@.len() >= self.limits.target_records ==> (r matches Ok(resp)
                && resp.result@ == self.records@ && resp.height@ == crate::text::spec_u64_string(
                self.records@[0].height as nat,
            )),
            self.records@.len() < self.limits.target_records ==> r is Err && r->Err_0
                == BotError::Timeout,
    {
        if self.records.len() < self.limits.target_records {
            return Err(BotError::Timeout);
        }
        let height = crate::text::u64_to_string(self.records[0].height);
        Ok(Response { height, result: self.records })
    }
}

} // verus!
