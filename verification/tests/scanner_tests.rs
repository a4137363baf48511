use terra_rust_bot::dec::Dec;
use terra_rust_bot::error::BotError;
use terra_rust_bot::scanner::{tx_log_from_entry, ActionKind, FeeScan, ScanLimits, ScanStep};
use terra_rust_bot::txmodel::{Attr, Event, ExecMsg, FeeCoin, LogEntry, TxEntry, TxMsg};

const MARKET: &str = "terra1sepfj7s0aeg5967uxnfk4thzlerrsktkpelm5s";
const STAKE_B64: &str = "eyJzdGFrZV92b3RpbmdfdG9rZW5zIjp7fX0=";

fn exec_msg() -> ExecMsg {
    ExecMsg {
        has_claim_rewards: false,
        has_deposit_stable: false,
        has_repay_stable: false,
        has_borrow_stable: false,
        send_msg: None,
    }
}

fn claim_rewards_entry() -> TxEntry {
    let mut exec = exec_msg();
    exec.has_claim_rewards = true;
    TxEntry {
        msgs: Some(vec![TxMsg { contract: Some(MARKET.to_string()), execute: Some(exec) }]),
        logs: Some(vec![LogEntry {
            events: Some(vec![Event {
                etype: Some("wasm".to_string()),
                attributes: Some(vec![
                    Attr {
                        key: Some("\"contract_address\"".to_string()),
                        value: Some(format!("\"{}\"", MARKET)),
                    },
                    Attr {
                        key: Some("\"action\"".to_string()),
                        value: Some("\"claim_rewards\"".to_string()),
                    },
                    Attr {
                        key: Some("\"claim_amount\"".to_string()),
                        value: Some("\"9896440\"".to_string()),
                    },
                ]),
            }]),
        }]),
        fee_coins: Some(vec![FeeCoin {
            denom: Some("\"uusd\"".to_string()),
            amount: Some("\"250657\"".to_string()),
        }]),
        gas_wanted: Some("\"1000000\"".to_string()),
        gas_used: Some("\"261026\"".to_string()),
        height: Some("5757663".to_string()),
        timestamp: Some("\"2021-01-01T00:00:00Z\"".to_string()),
        raw_log: Some("\"[claim_rewards log]\"".to_string()),
    }
}

#[test]
fn claim_rewards_fixture_yields_one_record() {
    let entry = claim_rewards_entry();
    let log = tx_log_from_entry(&entry, MARKET, ActionKind::ClaimRewards, "claim_amount").unwrap();
    assert_eq!(log.amount, Dec { mantissa: 9896440, scale: 0 });
    assert_eq!(log.fee_amount, Dec { mantissa: 250657, scale: 0 });
    assert_eq!(log.fee_denom, "uusd");
    assert_eq!(log.gas_wanted, Dec { mantissa: 1000000, scale: 0 });
    assert_eq!(log.gas_used, Dec { mantissa: 261026, scale: 0 });
    assert_eq!(log.height, 5757663);
    assert_eq!(log.timestamp, 1609459200);
    assert_eq!(log.raw_log, "\"[claim_rewards log]\"");
    // the timestamp agrees with chrono's own RFC 3339 parse
    let expected = chrono::DateTime::parse_from_rfc3339("2021-01-01T00:00:00Z")
        .unwrap()
        .timestamp();
    assert_eq!(log.timestamp, expected);
}

#[test]
fn wrong_contract_is_skipped() {
    let entry = claim_rewards_entry();
    let r = tx_log_from_entry(&entry, "terra1otheraddress", ActionKind::ClaimRewards, "claim_amount");
    assert_eq!(r.unwrap_err(), BotError::MalformedResponse);
}

#[test]
fn wrong_action_is_skipped() {
    let entry = claim_rewards_entry();
    let r = tx_log_from_entry(&entry, MARKET, ActionKind::RepayStable, "repay_amount");
    assert!(r.is_err());
}

#[test]
fn two_messages_are_skipped() {
    let mut entry = claim_rewards_entry();
    let mut exec = exec_msg();
    exec.has_claim_rewards = true;
    let msg = TxMsg { contract: Some(MARKET.to_string()), execute: Some(exec) };
    entry.msgs.as_mut().unwrap().push(msg);
    assert!(tx_log_from_entry(&entry, MARKET, ActionKind::ClaimRewards, "claim_amount").is_err());
}

#[test]
fn two_fee_coins_are_skipped() {
    let mut entry = claim_rewards_entry();
    entry.fee_coins.as_mut().unwrap().push(FeeCoin {
        denom: Some("\"uluna\"".to_string()),
        amount: Some("\"100\"".to_string()),
    });
    assert!(tx_log_from_entry(&entry, MARKET, ActionKind::ClaimRewards, "claim_amount").is_err());
}

#[test]
fn non_stablecoin_fee_is_skipped() {
    let mut entry = claim_rewards_entry();
    entry.fee_coins = Some(vec![FeeCoin {
        denom: Some("\"uluna\"".to_string()),
        amount: Some("\"250657\"".to_string()),
    }]);
    assert!(tx_log_from_entry(&entry, MARKET, ActionKind::ClaimRewards, "claim_amount").is_err());
}

#[test]
fn missing_field_is_skipped() {
    let mut entry = claim_rewards_entry();
    entry.height = None;
    assert!(tx_log_from_entry(&entry, MARKET, ActionKind::ClaimRewards, "claim_amount").is_err());
}

#[test]
fn later_attribute_in_first_wasm_event_wins() {
    // within the first wasm event, a later attribute of the same name
    // overwrites an earlier one
    let mut entry = claim_rewards_entry();
    entry.logs.as_mut().unwrap()[0].events.as_mut().unwrap()[0]
        .attributes
        .as_mut()
        .unwrap()
        .push(Attr {
            key: Some("\"claim_amount\"".to_string()),
            value: Some("\"17\"".to_string()),
        });
    let log = tx_log_from_entry(&entry, MARKET, ActionKind::ClaimRewards, "claim_amount").unwrap();
    assert_eq!(log.amount, Dec { mantissa: 17, scale: 0 });
}

#[test]
fn amount_comes_from_first_wasm_event_only() {
    // a later wasm event carrying the same attribute is ignored: the
    // amount is read from the first wasm event
    let mut entry = claim_rewards_entry();
    entry.logs.as_mut().unwrap()[0]
        .events
        .as_mut()
        .unwrap()
        .push(Event {
            etype: Some("wasm".to_string()),
            attributes: Some(vec![Attr {
                key: Some("\"claim_amount\"".to_string()),
                value: Some("\"17\"".to_string()),
            }]),
        });
    let log = tx_log_from_entry(&entry, MARKET, ActionKind::ClaimRewards, "claim_amount").unwrap();
    assert_eq!(log.amount, Dec { mantissa: 9896440, scale: 0 });
}

#[test]
fn first_wasm_event_follows_non_wasm_events() {
    // a preceding non-wasm event is skipped when locating the first
    // wasm event
    let mut entry = claim_rewards_entry();
    entry.logs.as_mut().unwrap()[0].events.as_mut().unwrap().insert(
        0,
        Event {
            etype: Some("transfer".to_string()),
            attributes: Some(vec![Attr {
                key: Some("\"claim_amount\"".to_string()),
                value: Some("\"17\"".to_string()),
            }]),
        },
    );
    let log = tx_log_from_entry(&entry, MARKET, ActionKind::ClaimRewards, "claim_amount").unwrap();
    assert_eq!(log.amount, Dec { mantissa: 9896440, scale: 0 });
}

#[test]
fn attribute_keys_match_by_name_not_substring() {
    // a key that merely contains the field name is no match: the
    // amount keeps its default of zero
    let mut entry = claim_rewards_entry();
    entry.logs.as_mut().unwrap()[0].events.as_mut().unwrap()[0].attributes = Some(vec![Attr {
        key: Some("\"claim_amount_total\"".to_string()),
        value: Some("\"17\"".to_string()),
    }]);
    let log = tx_log_from_entry(&entry, MARKET, ActionKind::ClaimRewards, "claim_amount").unwrap();
    assert_eq!(log.amount, Dec { mantissa: 0, scale: 0 });
}

fn staking_entry(payload: &str) -> TxEntry {
    let mut entry = claim_rewards_entry();
    let mut exec = exec_msg();
    exec.send_msg = Some(format!("\"{}\"", payload));
    entry.msgs = Some(vec![TxMsg { contract: Some(MARKET.to_string()), execute: Some(exec) }]);
    entry
}

#[test]
fn staking_matches_known_base64_literal() {
    let entry = staking_entry(STAKE_B64);
    let log = tx_log_from_entry(&entry, MARKET, ActionKind::Staking, "claim_amount").unwrap();
    assert_eq!(log.amount, Dec { mantissa: 9896440, scale: 0 });
}

#[test]
fn staking_rejects_other_base64_payloads() {
    // any other payload does not match, even a near miss
    let entry = staking_entry("eyJzdGFrZV92b3RpbmdfdG9rZW5zIjp7fX0");
    assert!(tx_log_from_entry(&entry, MARKET, ActionKind::Staking, "claim_amount").is_err());
    let entry = staking_entry("eyJyZWRlZW1fc3RhYmxlIjp7fX0=");
    assert!(tx_log_from_entry(&entry, MARKET, ActionKind::Staking, "claim_amount").is_err());
}

#[test]
fn staking_rejects_payloads_that_merely_contain_the_literal() {
    // the comparison is equality on the encoded literal, not
    // containment: extra characters around it must not match
    let entry = staking_entry(&format!("{}AAAA", STAKE_B64));
    assert!(tx_log_from_entry(&entry, MARKET, ActionKind::Staking, "claim_amount").is_err());
    let entry = staking_entry(&format!("AAAA{}", STAKE_B64));
    assert!(tx_log_from_entry(&entry, MARKET, ActionKind::Staking, "claim_amount").is_err());
    let entry = staking_entry(&format!("A{}A", STAKE_B64));
    assert!(tx_log_from_entry(&entry, MARKET, ActionKind::RedeemStable, "redeem_amount").is_err());
}

#[test]
fn fee_denom_must_equal_stablecoin() {
    // a denom that merely contains the stablecoin name is rejected
    let mut entry = claim_rewards_entry();
    entry.fee_coins = Some(vec![FeeCoin {
        denom: Some("\"xuusd\"".to_string()),
        amount: Some("\"250657\"".to_string()),
    }]);
    assert!(tx_log_from_entry(&entry, MARKET, ActionKind::ClaimRewards, "claim_amount").is_err());
    let mut entry = claim_rewards_entry();
    entry.fee_coins = Some(vec![FeeCoin {
        denom: Some("\"uusdx\"".to_string()),
        amount: Some("\"250657\"".to_string()),
    }]);
    assert!(tx_log_from_entry(&entry, MARKET, ActionKind::ClaimRewards, "claim_amount").is_err());
}

#[test]
fn redeem_stable_matches_its_literal() {
    let entry = staking_entry("eyJyZWRlZW1fc3RhYmxlIjp7fX0=");
    assert!(tx_log_from_entry(&entry, MARKET, ActionKind::RedeemStable, "redeem_amount").is_ok());
}

#[test]
fn key_dispatch_maps_every_scan_key() {
    assert_eq!(ActionKind::from_key("claim_rewards"), Some(ActionKind::ClaimRewards));
    assert_eq!(ActionKind::from_key("staking"), Some(ActionKind::Staking));
    assert_eq!(ActionKind::from_key("redeem_stable"), Some(ActionKind::RedeemStable));
    assert_eq!(ActionKind::from_key("deposit_stable"), Some(ActionKind::DepositStable));
    assert_eq!(ActionKind::from_key("repay_stable"), Some(ActionKind::RepayStable));
    assert_eq!(ActionKind::from_key("borrow_stable"), Some(ActionKind::BorrowStable));
    assert_eq!(ActionKind::from_key("unknown"), None);
    let (protocol, contract) = ActionKind::ClaimRewards.contract_names();
    assert_eq!(protocol, "anchorprotocol");
    assert_eq!(contract, "mmMarket");
    let (_, contract) = ActionKind::Staking.contract_names();
    assert_eq!(contract, "ANC");
    let (_, contract) = ActionKind::RedeemStable.contract_names();
    assert_eq!(contract, "aTerra");
    assert_eq!(ActionKind::ClaimRewards.amount_field(), "claim_amount");
    assert_eq!(ActionKind::Staking.amount_field(), "amount");
    assert_eq!(ActionKind::DepositStable.amount_field(), "deposit_amount");
}

fn new_scan() -> FeeScan {
    FeeScan::new(
        MARKET.to_string(),
        ActionKind::ClaimRewards,
        "claim_amount".to_string(),
        ScanLimits::standard(),
    )
}

#[test]
fn scan_pages_until_target() {
    let mut scan = FeeScan::new(
        MARKET.to_string(),
        ActionKind::ClaimRewards,
        "claim_amount".to_string(),
        ScanLimits { target_records: 2, budget_secs: 180, max_page_failures: 2 },
    );
    match scan.next_step(0) {
        ScanStep::Fetch(offset) => assert_eq!(offset, "0"),
        ScanStep::Done => panic!("expected a fetch"),
    }
    let entries = vec![claim_rewards_entry()];
    scan.on_page(&entries, Some(&"\"123\"".to_string()));
    assert_eq!(scan.records.len(), 1);
    match scan.next_step(5) {
        ScanStep::Fetch(offset) => assert_eq!(offset, "123"),
        ScanStep::Done => panic!("expected a fetch"),
    }
    scan.on_page(&entries, Some(&"null".to_string()));
    assert_eq!(scan.records.len(), 2);
    // target reached: done, and the response carries the first height
    assert!(matches!(scan.next_step(6), ScanStep::Done));
    let resp = scan.finish(6).unwrap();
    assert_eq!(resp.height, "5757663");
    assert_eq!(resp.result.len(), 2);
}

#[test]
fn skipped_entries_do_not_count() {
    let mut scan = new_scan();
    let mut bad = claim_rewards_entry();
    bad.fee_coins = None;
    let entries = vec![bad, claim_rewards_entry()];
    scan.on_page(&entries, Some(&"\"7\"".to_string()));
    assert_eq!(scan.records.len(), 1);
    assert_eq!(scan.offset, "7");
}

#[test]
fn budget_expiry_times_out() {
    // a scan that never matches within the budget terminates with
    // Timeout instead of looping
    let scan = new_scan();
    assert!(matches!(scan.next_step(180), ScanStep::Done));
    assert_eq!(scan.finish(180).unwrap_err(), BotError::Timeout);
}

#[test]
fn consecutive_page_failures_time_out() {
    let mut scan = new_scan();
    scan.on_page_failure();
    assert!(matches!(scan.next_step(10), ScanStep::Fetch(_)));
    scan.on_page_failure();
    assert!(matches!(scan.next_step(10), ScanStep::Done));
    assert_eq!(scan.finish(10).unwrap_err(), BotError::Timeout);
}

#[test]
fn successful_page_resets_failure_streak() {
    let mut scan = new_scan();
    scan.on_page_failure();
    scan.on_page(&Vec::new(), Some(&"\"5\"".to_string()));
    assert_eq!(scan.failures, 0);
    assert_eq!(scan.offset, "5");
    // a page without a usable `next` keeps records but counts a failure
    scan.on_page(&vec![claim_rewards_entry()], None);
    assert_eq!(scan.failures, 1);
    assert_eq!(scan.offset, "5");
    assert_eq!(scan.records.len(), 1);
}
