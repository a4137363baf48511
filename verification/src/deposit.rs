//! The block-indexed stablecoin-deposit scanner.
//!
//! Instead of paging through an account's history, this scan walks
//! backward one block at a time, looking for a transaction whose raw
//! log mentions a stablecoin deposit, and derives the deposit/mint
//! exchange rate from the first `wasm` event of the first log entry.

use crate::dec::{dec_checked_div, dec_div, dec_of_str, dec_parse};
use crate::error::BotError;
use crate::text::{all_digits, spec_contains, str_contains, str_eq};
use crate::txmodel::{BlockTx, DepositLogV, DepositStableLog, Response, WasmAttr, WasmEvent};
use vstd::prelude::*;
use vstd::string::*;

verus! {

/// The value of the last attribute named `key` in one attribute list,
/// or the carried default.
pub open spec fn spec_last_attr_in(attrs: Seq<WasmAttr>, key: Seq<char>, cur: Seq<char>) -> Seq<
    char,
>
    decreases attrs.len(),
{
    if attrs.len() == 0 {
        cur
    } else {
        let a = attrs[0];
        spec_last_attr_in(
            attrs.drop_first(),
            key,
            if a.key@ == key {
                a.value@
            } else {
                cur
            },
        )
    }
}

/// The first event whose type is `wasm`, if any.
pub open spec fn spec_first_wasm_event(events: Seq<WasmEvent>) -> Option<WasmEvent>
    decreases events.len(),
{
    if events.len() == 0 {
        None
    } else if events[0].etype@ == "wasm"@ {
        Some(events[0])
    } else {
        spec_first_wasm_event(events.drop_first())
    }
}

/// The value of the last attribute named `key` in the first `wasm`
/// event, or `"0"` when there is no such event or attribute.
pub open spec fn spec_event_value(events: Seq<WasmEvent>, key: Seq<char>) -> Seq<char> {
    match spec_first_wasm_event(events) {
        Option::None => "0"@,
        Option::Some(e) => spec_last_attr_in(e.attributes@, key, "0"@),
    }
}

/// The deposit record mined from one block transaction, when its raw
/// log carries all three markers, its events decode, both amounts —
/// read from the first `wasm` event — parse, and the exchange rate
/// `deposit / mint` is defined; `None` when the transaction is
/// skipped.
pub open spec fn spec_deposit_log(tx: BlockTx, height: u64) -> Option<DepositLogV> {
    if !(spec_contains(tx.raw_log@, "deposit_stable"@) && spec_contains(tx.raw_log@, "mint_amount"@)
        && spec_contains(tx.raw_log@, "deposit_amount"@)) {
        None
    } else if tx.events is None {
        None
    } else {
        let mint_raw = spec_event_value(tx.events->0@, "mint_amount"@);
        let dep_raw = spec_event_value(tx.events->0@, "deposit_amount"@);
        if dec_of_str(mint_raw) is None || dec_of_str(dep_raw) is None {
            None
        } else {
            let mint = dec_of_str(mint_raw)->0;
            let dep = dec_of_str(dep_raw)->0;
            match dec_div(dep, mint) {
                Option::Some(rate) => Some(
                    (DepositLogV {
                        height,
                        timestamp: tx.timestamp,
                        mint_amount: mint,
                        deposit_amount: dep,
                        exchange_rate: rate,
                    }),
                ),
                Option::None => None,
            }
        }
    }
}

/// Walk one attribute list, as [`spec_last_attr_in`] describes.
fn last_attr_in(attrs: &Vec<WasmAttr>, key: &str, cur: String) -> (r: String)
    ensures
        r@ == spec_last_attr_in(attrs@, key@, cur@),
{
    let ghost orig = cur@;
    let n = attrs.len();
    let mut acc = cur;
    let mut i: usize = 0;
    proof {
        assert(attrs@.subrange(0, n as int) =~= attrs@);
    }
    while i < n
        invariant
            i <= n,
            n == attrs@.len(),
            spec_last_attr_in(attrs@, key@, orig) == spec_last_attr_in(
                attrs@.subrange(i as int, n as int),
                key@,
                acc@,
            ),
        decreases n - i,
    {
        proof {
            assert(attrs@.subrange(i as int, n as int).drop_first() =~= attrs@.subrange(
                i + 1,
                n as int,
            ));
            assert(attrs@.subrange(i as int, n as int)[0] == attrs@[i as int]);
        }
        if str_eq(attrs[i].key.as_str(), key) {
            acc = attrs[i].value.clone();
        }
        i = i + 1;
    }
    proof {
        assert(attrs@.subrange(n as int, n as int) =~= Seq::<WasmAttr>::empty());
    }
    acc
}

/// Mine one attribute value, as [`spec_event_value`] describes: find
/// the first `wasm` event and scan its attributes.
fn first_wasm_value(events: &Vec<WasmEvent>, key: &str) -> (r: String)
    ensures
        r@ == spec_event_value(events@, key@),
{
    let n = events.len();
    let mut i: usize = 0;
    proof {
        assert(events@.subrange(0, n as int) =~= events@);
    }
    while i < n
        invariant
            i <= n,
            n == events@.len(),
            spec_first_wasm_event(events@) == spec_first_wasm_event(
                events@.subrange(i as int, n as int),
            ),
        decreases n - i,
    {
        proof {
            assert(events@.subrange(i as int, n as int).drop_first() =~= events@.subrange(
                i + 1,
                n as int,
            ));
            assert(events@.subrange(i as int, n as int)[0] == events@[i as int]);
        }
        if str_eq(events[i].etype.as_str(), "wasm") {
            return last_attr_in(&events[i].attributes, key, String::from_str("0"));
        }
        i = i + 1;
    }
    proof {
        assert(events@.subrange(n as int, n as int) =~= Seq::<WasmEvent>::empty());
    }
    String::from_str("0")
}

/// Mine one deposit record out of one block transaction, at the given
/// block height.  Succeeds exactly on the transactions
/// [`spec_deposit_log`] accepts, with exactly the record it describes.
/// When a mined amount's text is plain digits — the shape the chain
/// emits — the stored amount is its non-negative integer value.
pub fn deposit_log_from_tx(tx: &BlockTx, height: u64) -> (r: Option<DepositStableLog>)
    ensures
        r is Some <==> spec_deposit_log(*tx, height) is Some,
        r is Some ==> r->0@ == spec_deposit_log(*tx, height)->0,
        r is Some ==> r->0.wf(),
        r is Some && spec_event_value(tx.events->0@, "mint_amount"@).len() > 0 && all_digits(
            spec_event_value(tx.events->0@, "mint_amount"@),
        ) ==> r->0.mint_amount.mantissa >= 0 && r->0.mint_amount.scale == 0,
        r is Some && spec_event_value(tx.events->0@, "deposit_amount"@).len() > 0 && all_digits(
            spec_event_value(tx.events->0@, "deposit_amount"@),
        ) ==> r->0.deposit_amount.mantissa >= 0 && r->0.deposit_amount.scale == 0,
{
    if !(str_contains(tx.raw_log.as_str(), "deposit_stable") && str_contains(
        tx.raw_log.as_str(),
        "mint_amount",
    ) && str_contains(tx.raw_log.as_str(), "deposit_amount")) {
        return None;
    }
    let events = match &tx.events {
        Option::Some(e) => e,
        Option::None => {
            return None;
        },
    };
    let mint_raw = first_wasm_value(events, "mint_amount");
    let dep_raw = first_wasm_value(events, "deposit_amount");
    let mint = match dec_parse(mint_raw.as_str()) {
        Option::Some(d) => d,
        Option::None => {
            return None;
        },
    };
    let dep = match dec_parse(dep_raw.as_str()) {
        Option::Some(d) => d,
        Option::None => {
            return None;
        },
    };
    match dec_checked_div(dep, mint) {
        Option::Some(rate) => Some(
            DepositStableLog {
                height,
                timestamp: tx.timestamp,
                mint_amount: mint,
                deposit_amount: dep,
                exchange_rate: rate,
            },
        ),
        Option::None => None,
    }
}

pub open spec fn deposit_logs_view(s: Seq<DepositStableLog>) -> Seq<DepositLogV> {
    s.map_values(|l: DepositStableLog| l@)
}

/// The deposit records mined from one block's transactions, in order.
pub open spec fn spec_block_logs(txs: Seq<BlockTx>, height: u64) -> Seq<DepositLogV>
    decreases txs.len(),
{
    if txs.len() == 0 {
        Seq::empty()
    } else {
        let front = spec_block_logs(txs.drop_last(), height);
        match spec_deposit_log(txs.last(), height) {
            Option::Some(l) => front.push(l),
            Option::None => front,
        }
    }
}

/// One block-scan step, mirroring [`spec_block_logs`] on a prefix.
proof fn lemma_block_logs_step(txs: Seq<BlockTx>, i: int, height: u64)
    requires
        0 <= i < txs.len(),
    ensures
        spec_block_logs(txs.subrange(0, i + 1), height) == (match spec_deposit_log(
            txs[i],
            height,
        ) {
            Option::Some(l) => spec_block_logs(txs.subrange(0, i), height).push(l),
            Option::None => spec_block_logs(txs.subrange(0, i), height),
        }),
{
    let cur = txs.subrange(0, i + 1);
    assert(cur.drop_last() =~= txs.subrange(0, i));
    assert(cur.last() == txs[i]);
}

/// What the driver of a block scan must do next: fetch the
/// transactions of the given block height, or stop and call `finish`.
pub enum DepositStep {
    FetchBlock(u64),
    Done,
}

/// One backward block walk looking for stablecoin-deposit records.
///
/// The driver asks [`next_step`] what to do, fetches the block's
/// transactions, and hands them back through [`on_block`];
/// [`finish`] renders the verdict.  A fetch failure aborts the walk
/// outside the library, as it aborts the scan it serves.
///
/// [`next_step`]: DepositScan::next_step
/// [`on_block`]: DepositScan::on_block
/// [`finish`]: DepositScan::finish
pub struct DepositScan {
    pub base_height: u64,
    pub steps: u64,
    pub found: Vec<DepositStableLog>,
    pub target_records: usize,
    pub budget_secs: u64,
}

impl DepositScan {
    pub open spec fn wf(self) -> bool {
        self.target_records >= 1
    }

    /// A walk from `base_height` under the default policy: one
    /// record, a 180-second budget.
    pub fn new(base_height: u64) -> (s: DepositScan)
        ensures
            s.base_height == base_height,
            s.steps == 0,
            s.found@.len() == 0,
            s.target_records == 1,
            s.budget_secs == 180,
            s.wf(),
    {
        DepositScan { base_height, steps: 0, found: Vec::new(), target_records: 1, budget_secs: 180 }
    }

    /// A walk with an explicit policy.
    pub fn with_limits(base_height: u64, target_records: usize, budget_secs: u64) -> (s:
        DepositScan)
        requires
            target_records >= 1,
        ensures
            s.base_height == base_height,
            s.steps == 0,
            s.found@.len() == 0,
            s.target_records == target_records,
            s.budget_secs == budget_secs,
            s.wf(),
    {
        DepositScan { base_height, steps: 0, found: Vec::new(), target_records, budget_secs }
    }

    /// The walk continues while it is short of its target, within its
    /// budget, and has not run out of blocks to step back to.
    pub open spec fn active(self, elapsed_secs: u64) -> bool {
        self.found.len() < self.target_records && elapsed_secs < self.budget_secs && self.steps
            <= self.base_height
    }

    /// Decide whether to fetch the transactions of the next block down
    /// or stop.
    pub fn next_step(&self, elapsed_secs: u64) -> (r: DepositStep)
        ensures
            self.active(elapsed_secs) ==> r == DepositStep::FetchBlock(
                (self.base_height - self.steps) as u64,
            ),
            !self.active(elapsed_secs) ==> r == DepositStep::Done,
    {
        if self.found.len() < self.target_records && elapsed_secs < self.budget_secs && self.steps
            <= self.base_height {
            DepositStep::FetchBlock(self.base_height - self.steps)
        } else {
            DepositStep::Done
        }
    }

    /// Absorb the transactions of the block the walk stands at, then
    /// step one block down.
    pub fn on_block(&mut self, txs: &Vec<BlockTx>)
        requires
            old(self).steps <= old(self).base_height,
            old(self).steps < u64::MAX,
        ensures
            deposit_logs_view(final(self).found@) == deposit_logs_view(old(self).found@)
                + spec_block_logs(txs@, (old(self).base_height - old(self).steps) as u64),
            final(self).steps == old(self).steps + 1,
            final(self).base_height == old(self).base_height,
            final(self).target_records == old(self).target_records,
            final(self).budget_secs == old(self).budget_secs,
            forall|i: int|
                0 <= i < final(self).found@.len() ==> (#[trigger] final(self).found@[i]).wf() || (i
                    < old(self).found@.len() && final(self).found@[i] == old(self).found@[i]),
    {
        let height = self.base_height - self.steps;
        let n = txs.len();
        let mut i: usize = 0;
        proof {
            assert(txs@.subrange(0, 0) =~= Seq::<BlockTx>::empty());
            assert(deposit_logs_view(self.found@) =~= deposit_logs_view(self.found@)
                + spec_block_logs(txs@.subrange(0, 0), height));
        }
        while i < n
            invariant
                i <= n,
                n == txs@.len(),
                height == old(self).base_height - old(self).steps,
                self.steps == old(self).steps,
                self.steps < u64::MAX,
                self.base_height == old(self).base_height,
                self.target_records == old(self).target_records,
                self.budget_secs == old(self).budget_secs,
                deposit_logs_view(self.found@) == deposit_logs_view(old(self).found@)
                    + spec_block_logs(txs@.subrange(0, i as int), height),
                forall|j: int|
                    0 <= j < self.found@.len() ==> (#[trigger] self.found@[j]).wf() || (j < old(
                        self,
                    ).found@.len() && self.found@[j] == old(self).found@[j]),
            decreases n - i,
        {
            proof {
                lemma_block_logs_step(txs@, i as int, height);
            }
            match deposit_log_from_tx(&txs[i], height) {
                Option::Some(l) => {
                    let ghost pre = self.found@;
                    let ghost lv = l@;
                    self.found.push(l);
                    proof {
                        assert(deposit_logs_view(self.found@) =~= deposit_logs_view(pre).push(lv));
                        assert(spec_block_logs(txs@.subrange(0, i + 1), height) == spec_block_logs(
                            txs@.subrange(0, i as int),
                            height,
                        ).push(lv));
                        assert(deposit_logs_view(self.found@) =~= deposit_logs_view(
                            old(self).found@,
                        ) + spec_block_logs(txs@.subrange(0, i + 1), height));
                    }
                },
                Option::None => {
                    proof {
                        assert(deposit_logs_view(self.found@) =~= deposit_logs_view(
                            old(self).found@,
                        ) + spec_block_logs(txs@.subrange(0, i + 1), height));
                    }
                },
            }
            i = i + 1;
        }
        proof {
            assert(txs@.subrange(0, n as int) =~= txs@);
        }
        self.steps = self.steps + 1;
    }

    /// Conclude a walk that [`DepositScan::next_step`] has declared
    /// done: the found records, stamped with the height the walk
    /// started at, or `Timeout` when none were found in time.
    pub fn finish(self, elapsed_secs: u64) -> (r: Result<
        Response<Vec<DepositStableLog>>,
        BotError,
    >)
        requires
            self.wf(),
            !self.active(elapsed_secs),
        ensures
            self.found@.len() >= self.target_records ==> (r matches Ok(resp) && resp.result@
                == self.found@ && resp.height@ == crate::text::spec_u64_string(
                self.base_height as nat,
            )),
            self.found@.len() < self.target_records ==> r is Err && r->Err_0 == BotError::Timeout,
    {
        if self.found.len() < self.target_records {
            return Err(BotError::Timeout);
        }
        let height = crate::text::u64_to_string(self.base_height);
        Ok(Response { height, result: self.found })
    }
}

} // verus!
