use std::str::FromStr;

use rust_decimal::Decimal;
use terra_rust_bot::apy::{deposit_stable_apy, historic_height};
use terra_rust_bot::dec::Dec;
use terra_rust_bot::deposit::{deposit_log_from_tx, DepositScan, DepositStep};
use terra_rust_bot::error::BotError;
use terra_rust_bot::contracts::{ConfigContract, DexKind, EpochStateContract, StateContract};
use terra_rust_bot::txmodel::{BlockTx, DepositStableLog, WasmAttr, WasmEvent};

fn to_dec(d: Decimal) -> Dec {
    Dec { mantissa: d.mantissa(), scale: d.scale() }
}

fn deposit_tx(mint: &str, deposit: &str) -> BlockTx {
    BlockTx {
        raw_log: "deposit_stable mint_amount deposit_amount".to_string(),
        events: Some(vec![WasmEvent {
            etype: "wasm".to_string(),
            attributes: vec![
                WasmAttr { key: "action".to_string(), value: "deposit_stable".to_string() },
                WasmAttr { key: "mint_amount".to_string(), value: mint.to_string() },
                WasmAttr { key: "deposit_amount".to_string(), value: deposit.to_string() },
            ],
        }]),
        timestamp: 1630000000,
    }
}

#[test]
fn deposit_record_divides_deposit_by_mint() {
    let tx = deposit_tx("1000000", "1100000");
    let log = deposit_log_from_tx(&tx, 5757663).unwrap();
    assert_eq!(log.height, 5757663);
    assert_eq!(log.timestamp, 1630000000);
    assert_eq!(log.mint_amount, Dec { mantissa: 1000000, scale: 0 });
    assert_eq!(log.deposit_amount, Dec { mantissa: 1100000, scale: 0 });
    // the exchange rate is exactly what rust_decimal computes
    let expected = Decimal::from_str("1100000")
        .unwrap()
        .checked_div(Decimal::from_str("1000000").unwrap())
        .unwrap();
    assert_eq!(log.exchange_rate, to_dec(expected));
    assert_eq!(expected.to_string(), "1.10");
}

#[test]
fn zero_mint_amount_is_skipped() {
    // division undefined: the record is skipped, not produced
    let tx = deposit_tx("0", "1100000");
    assert!(deposit_log_from_tx(&tx, 1).is_none());
}

#[test]
fn missing_markers_are_skipped() {
    let mut tx = deposit_tx("1000000", "1100000");
    tx.raw_log = "transfer amount".to_string();
    assert!(deposit_log_from_tx(&tx, 1).is_none());
}

#[test]
fn undecodable_logs_are_skipped() {
    let mut tx = deposit_tx("1000000", "1100000");
    tx.events = None;
    assert!(deposit_log_from_tx(&tx, 1).is_none());
}

#[test]
fn unparsable_amounts_are_skipped() {
    let tx = deposit_tx("not-a-number", "1100000");
    assert!(deposit_log_from_tx(&tx, 1).is_none());
}

#[test]
fn deposit_amounts_come_from_first_wasm_event() {
    // a preceding non-wasm event is skipped; a later wasm event with
    // different amounts is ignored
    let mut tx = deposit_tx("1000000", "1100000");
    let events = tx.events.as_mut().unwrap();
    events.insert(
        0,
        WasmEvent {
            etype: "transfer".to_string(),
            attributes: vec![WasmAttr { key: "amount".to_string(), value: "5".to_string() }],
        },
    );
    events.push(WasmEvent {
        etype: "wasm".to_string(),
        attributes: vec![
            WasmAttr { key: "mint_amount".to_string(), value: "2000000".to_string() },
            WasmAttr { key: "deposit_amount".to_string(), value: "9900000".to_string() },
        ],
    });
    let log = deposit_log_from_tx(&tx, 7).unwrap();
    assert_eq!(log.mint_amount, Dec { mantissa: 1000000, scale: 0 });
    assert_eq!(log.deposit_amount, Dec { mantissa: 1100000, scale: 0 });
}

#[test]
fn deposit_scan_walks_backward_until_found() {
    let mut scan = DepositScan::new(100);
    match scan.next_step(0) {
        DepositStep::FetchBlock(h) => assert_eq!(h, 100),
        DepositStep::Done => panic!("expected a fetch"),
    }
    scan.on_block(&vec![]);
    match scan.next_step(1) {
        DepositStep::FetchBlock(h) => assert_eq!(h, 99),
        DepositStep::Done => panic!("expected a fetch"),
    }
    scan.on_block(&vec![deposit_tx("1000000", "1100000")]);
    assert_eq!(scan.found.len(), 1);
    assert_eq!(scan.found[0].height, 99);
    assert!(matches!(scan.next_step(2), DepositStep::Done));
    let resp = scan.finish(2).unwrap();
    assert_eq!(resp.height, "100");
    assert_eq!(resp.result.len(), 1);
}

#[test]
fn deposit_scan_times_out_without_a_match() {
    let scan = DepositScan::new(100);
    assert!(matches!(scan.next_step(180), DepositStep::Done));
    assert_eq!(scan.finish(180).unwrap_err(), BotError::Timeout);
}

fn snapshot(height: u64, timestamp: i64, rate: Decimal) -> DepositStableLog {
    DepositStableLog {
        height,
        timestamp,
        mint_amount: Dec { mantissa: 1000000, scale: 0 },
        deposit_amount: Dec { mantissa: 1100000, scale: 0 },
        exchange_rate: to_dec(rate),
    }
}

#[test]
fn apy_matches_documented_formula_to_decimal_precision() {
    // currentExchangeRate = 1.10, historicExchangeRate = 1.05,
    // timeDeltaSeconds = 2_592_000 (30 days)
    let current = Decimal::from_str("1.10").unwrap();
    let historic = Decimal::from_str("1.05").unwrap();
    let time_delta: i64 = 2_592_000;
    // the annualization factor is computed once in floating point and
    // then converted to fixed point
    let unit: f64 = (365 * 24 * 60 * 60) as f64 / time_delta as f64;
    let factor = Decimal::from_str(&unit.to_string()).unwrap();
    let latest = snapshot(200, 1632592000, current);
    let older = snapshot(100, 1630000000, historic);
    let apy = deposit_stable_apy(&latest, &older, to_dec(factor)).unwrap();
    let expected = factor
        .checked_mul(current.checked_sub(historic).unwrap())
        .unwrap()
        .checked_div(current)
        .unwrap();
    assert_eq!(apy, to_dec(expected));
    // ((1.10 - 1.05) * (31_536_000 / 2_592_000)) / 1.10 = 0.5530303...
    let rendered = Decimal::from_i128_with_scale(apy.mantissa, apy.scale).to_string();
    assert!(rendered.starts_with("0.553030303030303"));
}

#[test]
fn apy_with_zero_current_rate_is_undefined() {
    let latest = snapshot(200, 1632592000, Decimal::ZERO);
    let older = snapshot(100, 1630000000, Decimal::from_str("1.05").unwrap());
    let factor = Decimal::from_str("12.1666").unwrap();
    assert_eq!(
        deposit_stable_apy(&latest, &older, to_dec(factor)).unwrap_err(),
        BotError::DivisionUndefined
    );
}

#[test]
fn historic_height_steps_back_thirty_days_of_blocks() {
    // (60*60*24*30)/6 = 432_000 blocks
    assert_eq!(historic_height(5757663), 5325663);
    assert_eq!(historic_height(432000), 0);
    assert_eq!(historic_height(100), 0);
}

#[test]
fn unknown_names_are_rejected_up_front() {
    assert_eq!(DexKind::from_name("terraswap"), Ok(DexKind::Terraswap));
    assert_eq!(DexKind::from_name("astroport"), Ok(DexKind::Astroport));
    assert_eq!(DexKind::from_name("uniswap"), Err(BotError::UnknownDex));
    assert_eq!(StateContract::from_name("mmMarket"), Ok(StateContract::MoneyMarket));
    assert_eq!(StateContract::from_name("bLunaHub"), Ok(StateContract::BassetHub));
    assert_eq!(StateContract::from_name("collector"), Err(BotError::UnknownContract));
    assert_eq!(
        EpochStateContract::from_name("mmMarket"),
        Ok(EpochStateContract::MoneyMarket)
    );
    assert_eq!(EpochStateContract::from_name("bLunaHub"), Err(BotError::UnknownContract));
    assert_eq!(ConfigContract::from_name("mmInterestModel"), Ok(ConfigContract::InterestModel));
    assert_eq!(ConfigContract::from_name("collector"), Ok(ConfigContract::Collector));
    assert_eq!(ConfigContract::from_name("mmMarket"), Err(BotError::UnknownContract));
}

#[test]
fn error_descriptions() {
    assert_eq!(BotError::Timeout.describe(), "Unexpected Error: Timeout!");
    assert_eq!(BotError::UnknownContract.describe(), "Unexpected Error: Unknown Contract!");
    assert_eq!(BotError::UnknownDex.describe(), "Error: Unknown DEX!");
    assert_eq!(BotError::MalformedResponse.describe(), "Error: Invalid format.");
    assert_eq!(BotError::DivisionUndefined.describe(), "Error: Division undefined.");
}
