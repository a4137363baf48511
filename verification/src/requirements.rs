//! The requirement catalog and its selector.
//!
//! The catalog is the static table of data keys the scheduler can
//! fetch, each with a target refresh interval in seconds and the set
//! of strategy tags that depend on it.  The selector filters the
//! catalog against the strategies a user has enabled, keeping catalog
//! order.

use vstd::prelude::*;
use vstd::string::*;

verus! {

/// Refresh interval for short-lived information.
pub const FAST_SECS: i32 = 10;

/// Refresh interval for fee-related information.
pub const MEDIUM_SECS: i32 = 60;

/// Refresh interval for relatively constant information.
pub const SLOW_SECS: i32 = 600;

/// The boolean feature flags of a user's settings that drive the
/// selector.
#[derive(Clone, Copy, Debug, PartialEq, Eq, Structural)]
pub struct UserSettings {
    pub anchor_protocol_auto_stake: bool,
    pub anchor_protocol_auto_farm: bool,
    pub anchor_protocol_auto_repay: bool,
    pub anchor_protocol_auto_borrow: bool,
    pub terra_market_info: bool,
    pub anchor_general_info: bool,
    pub anchor_account_info: bool,
}

/// One entry of the requirement catalog: a data key, its target
/// refresh interval, and the strategy tags that depend on it.
pub struct RequirementEntry {
    pub key: String,
    pub interval_secs: i32,
    pub depends_on: Vec<String>,
}

/// The mathematical content of a [`RequirementEntry`].
#[verifier::ext_equal]
pub struct RequirementEntryV {
    pub key: Seq<char>,
    pub interval_secs: i32,
    pub depends_on: Seq<Seq<char>>,
}

impl View for RequirementEntry {
    type V = RequirementEntryV;

    open spec fn view(&self) -> RequirementEntryV {
        RequirementEntryV {
            key: self.key@,
            interval_secs: self.interval_secs,
            depends_on: self.depends_on@.map_values(|t: String| t@),
        }
    }
}

pub open spec fn entries_view(s: Seq<RequirementEntry>) -> Seq<RequirementEntryV> {
    s.map_values(|e: RequirementEntry| e@)
}

pub open spec fn spec_entry(key: Seq<char>, interval_secs: i32, depends_on: Seq<Seq<char>>) -> RequirementEntryV {
    RequirementEntryV { key, interval_secs, depends_on }
}

/// The full catalog.
pub open spec fn spec_catalog() -> Seq<RequirementEntryV> {
    spec_catalog_part1() + spec_catalog_part2() + spec_catalog_part3() + spec_catalog_part4()
}

fn entry1(key: &str, interval_secs: i32, t1: &str) -> (e: RequirementEntry)
    ensures
        e@ == spec_entry(key@, interval_secs, seq![t1@]),
{
    let mut depends_on: Vec<String> = Vec::new();
    depends_on.push(String::from_str(t1));
    let e = RequirementEntry { key: String::from_str(key), interval_secs, depends_on };
    proof {
        assert(e@ =~~= spec_entry(key@, interval_secs, seq![t1@]));
    }
    e
}

fn entry2(key: &str, interval_secs: i32, t1: &str, t2: &str) -> (e: RequirementEntry)
    ensures
        e@ == spec_entry(key@, interval_secs, seq![t1@, t2@]),
{
    let mut depends_on: Vec<String> = Vec::new();
    depends_on.push(String::from_str(t1));
    depends_on.push(String::from_str(t2));
    let e = RequirementEntry { key: String::from_str(key), interval_secs, depends_on };
    proof {
        assert(e@ =~~= spec_entry(key@, interval_secs, seq![t1@, t2@]));
    }
    e
}

fn entry3(key: &str, interval_secs: i32, t1: &str, t2: &str, t3: &str) -> (e: RequirementEntry)
    ensures
        e@ == spec_entry(key@, interval_secs, seq![t1@, t2@, t3@]),
{
    let mut depends_on: Vec<String> = Vec::new();
    depends_on.push(String::from_str(t1));
    depends_on.push(String::from_str(t2));
    depends_on.push(String::from_str(t3));
    let e = RequirementEntry { key: String::from_str(key), interval_secs, depends_on };
    proof {
        assert(e@ =~~= spec_entry(key@, interval_secs, seq![t1@, t2@, t3@]));
    }
    e
}

fn entry4(key: &str, interval_secs: i32, t1: &str, t2: &str, t3: &str, t4: &str) -> (e: RequirementEntry)
    ensures
        e@ == spec_entry(key@, interval_secs, seq![t1@, t2@, t3@, t4@]),
{
    let mut depends_on: Vec<String> = Vec::new();
    depends_on.push(String::from_str(t1));
    depends_on.push(String::from_str(t2));
    depends_on.push(String::from_str(t3));
    depends_on.push(String::from_str(t4));
    let e = RequirementEntry { key: String::from_str(key), interval_secs, depends_on };
    proof {
        assert(e@ =~~= spec_entry(key@, interval_secs, seq![t1@, t2@, t3@, t4@]));
    }
    e
}

fn entry5(key: &str, interval_secs: i32, t1: &str, t2: &str, t3: &str, t4: &str, t5: &str) -> (e: RequirementEntry)
    ensures
        e@ == spec_entry(key@, interval_secs, seq![t1@, t2@, t3@, t4@, t5@]),
{
    let mut depends_on: Vec<String> = Vec::new();
    depends_on.push(String::from_str(t1));
    depends_on.push(String::from_str(t2));
    depends_on.push(String::from_str(t3));
    depends_on.push(String::from_str(t4));
    depends_on.push(String::from_str(t5));
    let e = RequirementEntry { key: String::from_str(key), interval_secs, depends_on };
    proof {
        assert(e@ =~~= spec_entry(key@, interval_secs, seq![t1@, t2@, t3@, t4@, t5@]));
    }
    e
}

fn entry6(key: &str, interval_secs: i32, t1: &str, t2: &str, t3: &str, t4: &str, t5: &str, t6: &str) -> (e: RequirementEntry)
    ensures
        e@ == spec_entry(key@, interval_secs, seq![t1@, t2@, t3@, t4@, t5@, t6@]),
{
    let mut depends_on: Vec<String> = Vec::new();
    depends_on.push(String::from_str(t1));
    depends_on.push(String::from_str(t2));
    depends_on.push(String::from_str(t3));
    depends_on.push(String::from_str(t4));
    depends_on.push(String::from_str(t5));
    depends_on.push(String::from_str(t6));
    let e = RequirementEntry { key: String::from_str(key), interval_secs, depends_on };
    proof {
        assert(e@ =~~= spec_entry(key@, interval_secs, seq![t1@, t2@, t3@, t4@, t5@, t6@]));
    }
    e
}

fn entry8(key: &str, interval_secs: i32, t1: &str, t2: &str, t3: &str, t4: &str, t5: &str, t6: &str, t7: &str, t8: &str) -> (e: RequirementEntry)
    ensures
        e@ == spec_entry(key@, interval_secs, seq![t1@, t2@, t3@, t4@, t5@, t6@, t7@, t8@]),
{
    let mut depends_on: Vec<String> = Vec::new();
    depends_on.push(String::from_str(t1));
    depends_on.push(String::from_str(t2));
    depends_on.push(String::from_str(t3));
    depends_on.push(String::from_str(t4));
    depends_on.push(String::from_str(t5));
    depends_on.push(String::from_str(t6));
    depends_on.push(String::from_str(t7));
    depends_on.push(String::from_str(t8));
    let e = RequirementEntry { key: String::from_str(key), interval_secs, depends_on };
    proof {
        assert(e@ =~~= spec_entry(key@, interval_secs, seq![t1@, t2@, t3@, t4@, t5@, t6@, t7@, t8@]));
    }
    e
}

/// Catalog slice: settings and fee keys.
pub open spec fn spec_catalog_part1() -> Seq<RequirementEntryV> {
    seq![
        spec_entry("trigger_percentage"@, FAST_SECS as i32, seq!["anchor_account"@, "anchor_auto_repay"@]),
        spec_entry("target_percentage"@, FAST_SECS as i32, seq!["anchor_auto_repay"@, "anchor_auto_borrow"@]),
        spec_entry("borrow_percentage"@, FAST_SECS as i32, seq!["anchor_auto_borrow"@]),
        spec_entry("gas_adjustment_preference"@, FAST_SECS as i32, seq!["anchor_account"@, "anchor_auto_farm"@, "anchor_auto_stake"@, "anchor_auto_stake_airdrops"@, "anchor_auto_repay"@, "anchor_auto_borrow"@]),
        spec_entry("min_ust_balance"@, FAST_SECS as i32, seq!["anchor_account"@, "anchor_auto_farm"@, "anchor_auto_stake"@, "anchor_auto_stake_airdrops"@, "anchor_auto_repay"@, "anchor_auto_borrow"@]),
        spec_entry("ust_balance_preference"@, FAST_SECS as i32, seq!["anchor_auto_repay"@]),
        spec_entry("max_tx_fee"@, FAST_SECS as i32, seq!["anchor_auto_farm"@, "anchor_auto_stake"@, "anchor_auto_stake_airdrops"@, "anchor_auto_repay"@, "anchor_auto_borrow"@]),
        spec_entry("gas_fees_uusd"@, MEDIUM_SECS as i32, seq!["market"@, "anchor"@, "anchor_account"@, "anchor_auto_farm"@, "anchor_auto_stake"@, "anchor_auto_stake_airdrops"@, "anchor_auto_repay"@, "anchor_auto_borrow"@]),
        spec_entry("tax_rate"@, MEDIUM_SECS as i32, seq!["anchor_auto_repay"@, "anchor_auto_borrow"@, "anchor_auto_farm"@, "anchor_auto_stake"@]),
        spec_entry("tax_caps"@, MEDIUM_SECS as i32, seq!["anchor_auto_repay"@, "anchor_auto_borrow"@, "anchor_auto_farm"@, "anchor_auto_stake"@]),
        spec_entry("terra_balances"@, FAST_SECS as i32, seq!["anchor_auto_farm"@, "anchor_auto_stake"@, "anchor_auto_stake_airdrops"@, "anchor_auto_repay"@, "anchor_auto_borrow"@]),
    ]
}

/// Catalog slice: market keys.
pub open spec fn spec_catalog_part2() -> Seq<RequirementEntryV> {
    seq![
        spec_entry("core_swap uusd usdr"@, FAST_SECS as i32, seq!["market"@]),
        spec_entry("core_swap usdr uluna"@, FAST_SECS as i32, seq!["market"@]),
        spec_entry("core_swap uluna uusd"@, FAST_SECS as i32, seq!["market"@]),
        spec_entry("simulation anchorprotocol uluna terraswapblunaLunaPair"@, FAST_SECS as i32, seq!["market"@, "anchor_account"@]),
        spec_entry("state anchorprotocol bLunaHub"@, FAST_SECS as i32, seq!["market"@, "anchor_account"@]),
        spec_entry("simulation_cw20 anchorprotocol ANC terraswapAncUstPair"@, FAST_SECS as i32, seq!["market"@, "anchor_account"@, "anchor_auto_farm"@, "anchor_auto_stake"@]),
        spec_entry("epoch_state anchorprotocol mmMarket"@, FAST_SECS as i32, seq!["anchor"@, "market"@, "anchor_account"@, "anchor_auto_repay"@]),
        spec_entry("simulation_cw20 nexusprotocol nLunaToken Psi-nLuna_Pair"@, FAST_SECS as i32, seq!["market"@]),
        spec_entry("simulation_cw20 nexusprotocol PsiToken Psi-UST_Pair"@, FAST_SECS as i32, seq!["market"@]),
        spec_entry("simulation_cw20 uusd mir"@, FAST_SECS as i32, seq!["market"@]),
        spec_entry("simulation_cw20 uusd m_tsla"@, FAST_SECS as i32, seq!["market"@]),
        spec_entry("simulation_cw20 uusd m_btc"@, FAST_SECS as i32, seq!["market"@]),
        spec_entry("simulation_cw20 uusd m_eth"@, FAST_SECS as i32, seq!["market"@]),
        spec_entry("simulation_cw20 uusd m_spy"@, FAST_SECS as i32, seq!["market"@]),
    ]
}

/// Catalog slice: protocol and account keys.
pub open spec fn spec_catalog_part3() -> Seq<RequirementEntryV> {
    seq![
        spec_entry("state anchorprotocol mmMarket"@, FAST_SECS as i32, seq!["anchor"@, "anchor_account"@]),
        spec_entry("api/v2/distribution-apy"@, FAST_SECS as i32, seq!["anchor"@, "anchor_account"@, "anchor_auto_farm"@, "anchor_auto_stake"@]),
        spec_entry("api/v2/gov-reward"@, FAST_SECS as i32, seq!["anchor"@, "anchor_account"@, "anchor_auto_stake"@]),
        spec_entry("config anchorprotocol mmInterestModel"@, FAST_SECS as i32, seq!["anchor"@, "anchor_account"@]),
        spec_entry("anchor_airdrops"@, FAST_SECS as i32, seq!["anchor_auto_stake_airdrops"@]),
        spec_entry("borrow_limit"@, FAST_SECS as i32, seq!["anchor_account"@, "anchor_auto_repay"@, "anchor_auto_borrow"@]),
        spec_entry("borrow_info"@, FAST_SECS as i32, seq!["anchor_account"@, "anchor_auto_farm"@, "anchor_auto_stake"@, "anchor_auto_repay"@, "anchor_auto_borrow"@]),
        spec_entry("balance"@, FAST_SECS as i32, seq!["anchor_account"@, "anchor_auto_repay"@, "anchor_auto_borrow"@]),
        spec_entry("anc_balance"@, FAST_SECS as i32, seq!["anchor_account"@, "anchor_auto_stake"@]),
        spec_entry("staker"@, FAST_SECS as i32, seq!["anchor_account"@, "anchor_auto_stake"@]),
        spec_entry("blocks_per_year"@, SLOW_SECS as i32, seq!["market"@, "anchor"@, "anchor_account"@]),
        spec_entry("earn_apy"@, SLOW_SECS as i32, seq!["anchor"@, "anchor_account"@]),
        spec_entry("anchor_protocol_whitelist"@, SLOW_SECS as i32, seq!["anchor_account"@]),
    ]
}

/// Catalog slice: transaction-mining keys.
pub open spec fn spec_catalog_part4() -> Seq<RequirementEntryV> {
    seq![
        spec_entry("anchor_protocol_txs_claim_rewards"@, SLOW_SECS as i32, seq!["anchor"@, "anchor_account"@, "anchor_auto_farm"@, "anchor_auto_stake"@]),
        spec_entry("anchor_protocol_txs_staking"@, SLOW_SECS as i32, seq!["anchor"@, "anchor_account"@, "anchor_auto_stake"@]),
        spec_entry("anchor_protocol_txs_redeem_stable"@, SLOW_SECS as i32, seq!["anchor_auto_repay"@]),
        spec_entry("anchor_protocol_txs_deposit_stable"@, SLOW_SECS as i32, seq!["anchor_auto_borrow"@]),
        spec_entry("anchor_protocol_txs_borrow_stable"@, SLOW_SECS as i32, seq!["anchor_auto_borrow"@]),
        spec_entry("anchor_protocol_txs_repay_stable"@, SLOW_SECS as i32, seq!["anchor_auto_repay"@]),
        spec_entry("txs_provide_to_spec_anc_ust_vault"@, SLOW_SECS as i32, seq!["anchor_auto_farm"@]),
        spec_entry("api/data?type=lpVault"@, SLOW_SECS as i32, seq!["anchor_auto_farm"@]),
    ]
}

fn catalog_part1() -> (r: Vec<RequirementEntry>)
    ensures
        entries_view(r@) == spec_catalog_part1(),
{
    let mut v: Vec<RequirementEntry> = Vec::new();
    v.push(entry2("trigger_percentage", FAST_SECS, "anchor_account", "anchor_auto_repay"));
    v.push(entry2("target_percentage", FAST_SECS, "anchor_auto_repay", "anchor_auto_borrow"));
    v.push(entry1("borrow_percentage", FAST_SECS, "anchor_auto_borrow"));
    v.push(entry6("gas_adjustment_preference", FAST_SECS, "anchor_account", "anchor_auto_farm", "anchor_auto_stake", "anchor_auto_stake_airdrops", "anchor_auto_repay", "anchor_auto_borrow"));
    v.push(entry6("min_ust_balance", FAST_SECS, "anchor_account", "anchor_auto_farm", "anchor_auto_stake", "anchor_auto_stake_airdrops", "anchor_auto_repay", "anchor_auto_borrow"));
    v.push(entry1("ust_balance_preference", FAST_SECS, "anchor_auto_repay"));
    v.push(entry5("max_tx_fee", FAST_SECS, "anchor_auto_farm", "anchor_auto_stake", "anchor_auto_stake_airdrops", "anchor_auto_repay", "anchor_auto_borrow"));
    v.push(entry8("gas_fees_uusd", MEDIUM_SECS, "market", "anchor", "anchor_account", "anchor_auto_farm", "anchor_auto_stake", "anchor_auto_stake_airdrops", "anchor_auto_repay", "anchor_auto_borrow"));
    v.push(entry4("tax_rate", MEDIUM_SECS, "anchor_auto_repay", "anchor_auto_borrow", "anchor_auto_farm", "anchor_auto_stake"));
    v.push(entry4("tax_caps", MEDIUM_SECS, "anchor_auto_repay", "anchor_auto_borrow", "anchor_auto_farm", "anchor_auto_stake"));
    v.push(entry5("terra_balances", FAST_SECS, "anchor_auto_farm", "anchor_auto_stake", "anchor_auto_stake_airdrops", "anchor_auto_repay", "anchor_auto_borrow"));
    proof {
        assert(entries_view(v@) =~~= spec_catalog_part1());
    }
    v
}

fn catalog_part2() -> (r: Vec<RequirementEntry>)
    ensures
        entries_view(r@) == spec_catalog_part2(),
{
    let mut v: Vec<RequirementEntry> = Vec::new();
    v.push(entry1("core_swap uusd usdr", FAST_SECS, "market"));
    v.push(entry1("core_swap usdr uluna", FAST_SECS, "market"));
    v.push(entry1("core_swap uluna uusd", FAST_SECS, "market"));
    v.push(entry2("simulation anchorprotocol uluna terraswapblunaLunaPair", FAST_SECS, "market", "anchor_account"));
    v.push(entry2("state anchorprotocol bLunaHub", FAST_SECS, "market", "anchor_account"));
    v.push(entry4("simulation_cw20 anchorprotocol ANC terraswapAncUstPair", FAST_SECS, "market", "anchor_account", "anchor_auto_farm", "anchor_auto_stake"));
    v.push(entry4("epoch_state anchorprotocol mmMarket", FAST_SECS, "anchor", "market", "anchor_account", "anchor_auto_repay"));
    v.push(entry1("simulation_cw20 nexusprotocol nLunaToken Psi-nLuna_Pair", FAST_SECS, "market"));
    v.push(entry1("simulation_cw20 nexusprotocol PsiToken Psi-UST_Pair", FAST_SECS, "market"));
    v.push(entry1("simulation_cw20 uusd mir", FAST_SECS, "market"));
    v.push(entry1("simulation_cw20 uusd m_tsla", FAST_SECS, "market"));
    v.push(entry1("simulation_cw20 uusd m_btc", FAST_SECS, "market"));
    v.push(entry1("simulation_cw20 uusd m_eth", FAST_SECS, "market"));
    v.push(entry1("simulation_cw20 uusd m_spy", FAST_SECS, "market"));
    proof {
        assert(entries_view(v@) =~~= spec_catalog_part2());
    }
    v
}

fn catalog_part3() -> (r: Vec<RequirementEntry>)
    ensures
        entries_view(r@) == spec_catalog_part3(),
{
    let mut v: Vec<RequirementEntry> = Vec::new();
    v.push(entry2("state anchorprotocol mmMarket", FAST_SECS, "anchor", "anchor_account"));
    v.push(entry4("api/v2/distribution-apy", FAST_SECS, "anchor", "anchor_account", "anchor_auto_farm", "anchor_auto_stake"));
    v.push(entry3("api/v2/gov-reward", FAST_SECS, "anchor", "anchor_account", "anchor_auto_stake"));
    v.push(entry2("config anchorprotocol mmInterestModel", FAST_SECS, "anchor", "anchor_account"));
    v.push(entry1("anchor_airdrops", FAST_SECS, "anchor_auto_stake_airdrops"));
    v.push(entry3("borrow_limit", FAST_SECS, "anchor_account", "anchor_auto_repay", "anchor_auto_borrow"));
    v.push(entry5("borrow_info", FAST_SECS, "anchor_account", "anchor_auto_farm", "anchor_auto_stake", "anchor_auto_repay", "anchor_auto_borrow"));
    v.push(entry3("balance", FAST_SECS, "anchor_account", "anchor_auto_repay", "anchor_auto_borrow"));
    v.push(entry2("anc_balance", FAST_SECS, "anchor_account", "anchor_auto_stake"));
    v.push(entry2("staker", FAST_SECS, "anchor_account", "anchor_auto_stake"));
    v.push(entry3("blocks_per_year", SLOW_SECS, "market", "anchor", "anchor_account"));
    v.push(entry2("earn_apy", SLOW_SECS, "anchor", "anchor_account"));
    v.push(entry1("anchor_protocol_whitelist", SLOW_SECS, "anchor_account"));
    proof {
        assert(entries_view(v@) =~~= spec_catalog_part3());
    }
    v
}

fn catalog_part4() -> (r: Vec<RequirementEntry>)
    ensures
        entries_view(r@) == spec_catalog_part4(),
{
    let mut v: Vec<RequirementEntry> = Vec::new();
    v.push(entry4("anchor_protocol_txs_claim_rewards", SLOW_SECS, "anchor", "anchor_account", "anchor_auto_farm", "anchor_auto_stake"));
    v.push(entry3("anchor_protocol_txs_staking", SLOW_SECS, "anchor", "anchor_account", "anchor_auto_stake"));
    v.push(entry1("anchor_protocol_txs_redeem_stable", SLOW_SECS, "anchor_auto_repay"));
    v.push(entry1("anchor_protocol_txs_deposit_stable", SLOW_SECS, "anchor_auto_borrow"));
    v.push(entry1("anchor_protocol_txs_borrow_stable", SLOW_SECS, "anchor_auto_borrow"));
    v.push(entry1("anchor_protocol_txs_repay_stable", SLOW_SECS, "anchor_auto_repay"));
    v.push(entry1("txs_provide_to_spec_anc_ust_vault", SLOW_SECS, "anchor_auto_farm"));
    v.push(entry1("api/data?type=lpVault", SLOW_SECS, "anchor_auto_farm"));
    proof {
        assert(entries_view(v@) =~~= spec_catalog_part4());
    }
    v
}

/// The requirement catalog, in its fixed order.
pub fn requirement_list() -> (r: Vec<RequirementEntry>)
    ensures
        entries_view(r@) == spec_catalog(),
{
    let mut v = catalog_part1();
    let mut p2 = catalog_part2();
    let mut p3 = catalog_part3();
    let mut p4 = catalog_part4();
    let ghost v1 = v@;
    v.append(&mut p2);
    let ghost v2 = v@;
    v.append(&mut p3);
    let ghost v3 = v@;
    v.append(&mut p4);
    proof {
        assert(entries_view(v2) =~= entries_view(v1) + spec_catalog_part2());
        assert(entries_view(v3) =~= entries_view(v2) + spec_catalog_part3());
        assert(entries_view(v@) =~= entries_view(v3) + spec_catalog_part4());
        assert(entries_view(v@) =~= spec_catalog());
    }
    v
}

/// The tags of the strategies a user has enabled, in the fixed
/// flag order.
pub open spec fn spec_enabled_tags(s: UserSettings) -> Seq<Seq<char>> {
    let t = Seq::<Seq<char>>::empty();
    let t = if s.anchor_protocol_auto_stake { t.push("anchor_auto_stake"@) } else { t };
    let t = if s.anchor_protocol_auto_farm { t.push("anchor_auto_farm"@) } else { t };
    let t = if s.anchor_protocol_auto_repay { t.push("anchor_auto_repay"@) } else { t };
    let t = if s.anchor_protocol_auto_borrow { t.push("anchor_auto_borrow"@) } else { t };
    let t = if s.terra_market_info { t.push("market"@) } else { t };
    let t = if s.anchor_general_info { t.push("anchor"@) } else { t };
    let t = if s.anchor_account_info { t.push("anchor_account"@) } else { t };
    t
}

pub open spec fn tags_view(v: Seq<String>) -> Seq<Seq<char>> {
    v.map_values(|t: String| t@)
}

/// The tags of the strategies a user has enabled.
pub fn settings_to_key_list(user_settings: &UserSettings) -> (r: Vec<String>)
    ensures
        tags_view(r@) == spec_enabled_tags(*user_settings),
{
    let mut args: Vec<String> = Vec::new();
    if user_settings.anchor_protocol_auto_stake {
        args.push(String::from_str("anchor_auto_stake"));
    }
    if user_settings.anchor_protocol_auto_farm {
        args.push(String::from_str("anchor_auto_farm"));
    }
    if user_settings.anchor_protocol_auto_repay {
        args.push(String::from_str("anchor_auto_repay"));
    }
    if user_settings.anchor_protocol_auto_borrow {
        args.push(String::from_str("anchor_auto_borrow"));
    }
    if user_settings.terra_market_info {
        args.push(String::from_str("market"));
    }
    if user_settings.anchor_general_info {
        args.push(String::from_str("anchor"));
    }
    if user_settings.anchor_account_info {
        args.push(String::from_str("anchor_account"));
    }
    proof {
        assert(tags_view(args@) =~= spec_enabled_tags(*user_settings));
    }
    args
}

/// Two tag sets share at least one tag.
pub open spec fn spec_intersects(tags: Seq<Seq<char>>, enabled: Seq<Seq<char>>) -> bool {
    exists|i: int, j: int|
        #![trigger tags[i], enabled[j]]
        0 <= i < tags.len() && 0 <= j < enabled.len() && tags[i] == enabled[j]
}

/// Whether one of `tags` equals one of `enabled`.
fn tags_intersect(tags: &Vec<String>, enabled: &Vec<String>) -> (r: bool)
    ensures
        r == spec_intersects(tags_view(tags@), tags_view(enabled@)),
{
    let n = tags.len();
    let mut i: usize = 0;
    while i < n
        invariant
            i <= n,
            n == tags@.len(),
            forall|i2: int, j2: int|
                #![trigger tags@[i2], enabled@[j2]]
                0 <= i2 < i && 0 <= j2 < enabled@.len() ==> tags@[i2]@ != enabled@[j2]@,
        decreases n - i,
    {
        let m = enabled.len();
        let mut j: usize = 0;
        while j < m
            invariant
                i < n,
                n == tags@.len(),
                j <= m,
                m == enabled@.len(),
                forall|j2: int| 0 <= j2 < j ==> tags@[i as int]@ != (#[trigger] enabled@[j2])@,
            decreases m - j,
        {
            if crate::text::str_eq(tags[i].as_str(), enabled[j].as_str()) {
                proof {
                    assert(tags_view(tags@)[i as int] == tags_view(enabled@)[j as int]);
                }
                return true;
            }
            j = j + 1;
        }
        i = i + 1;
    }
    proof {
        assert forall|i2: int, j2: int|
            !(0 <= i2 < tags_view(tags@).len() && 0 <= j2 < tags_view(enabled@).len()
                && #[trigger] tags_view(tags@)[i2] == #[trigger] tags_view(enabled@)[j2]) by {
            if 0 <= i2 < tags@.len() && 0 <= j2 < enabled@.len() {
                assert(tags@[i2]@ != enabled@[j2]@);
            }
        }
    }
    false
}

/// Duplicate the tag list of an entry, preserving its content.
fn clone_tags(tags: &Vec<String>) -> (r: Vec<String>)
    ensures
        tags_view(r@) == tags_view(tags@),
{
    let n = tags.len();
    let mut out: Vec<String> = Vec::new();
    let mut i: usize = 0;
    while i < n
        invariant
            i <= n,
            n == tags@.len(),
            out@.len() == i,
            forall|j: int| 0 <= j < i ==> (#[trigger] out@[j])@ == tags@[j]@,
        decreases n - i,
    {
        out.push(tags[i].clone());
        i = i + 1;
    }
    proof {
        assert(tags_view(out@) =~= tags_view(tags@));
    }
    out
}

/// Duplicate an entry, preserving its content.
fn clone_entry(e: &RequirementEntry) -> (r: RequirementEntry)
    ensures
        r@ == e@,
{
    let r = RequirementEntry {
        key: e.key.clone(),
        interval_secs: e.interval_secs,
        depends_on: clone_tags(&e.depends_on),
    };
    proof {
        assert(r@ =~~= e@);
    }
    r
}

/// The selector: the catalog entries whose tag set intersects the
/// enabled-strategy tags of `user_settings`, in catalog order, with
/// no duplicates (one output entry per catalog entry); an empty
/// enabled-tag set selects nothing.
pub fn my_requirement_list(user_settings: &UserSettings) -> (r: Vec<RequirementEntry>)
    ensures
        entries_view(r@) == spec_catalog().filter(
            |e: RequirementEntryV| spec_intersects(e.depends_on, spec_enabled_tags(*user_settings)),
        ),
{
    let ghost pred = |e: RequirementEntryV|
        spec_intersects(e.depends_on, spec_enabled_tags(*user_settings));
    let args = settings_to_key_list(user_settings);
    let req = requirement_list();
    let n = req.len();
    let mut out: Vec<RequirementEntry> = Vec::new();
    let mut i: usize = 0;
    proof {
        assert(spec_catalog().subrange(0, 0) =~= Seq::<RequirementEntryV>::empty());
        reveal(Seq::filter);
    }
    while i < n
        invariant
            i <= n,
            n == req@.len(),
            entries_view(req@) == spec_catalog(),
            tags_view(args@) == spec_enabled_tags(*user_settings),
            pred == (|e: RequirementEntryV|
                spec_intersects(e.depends_on, spec_enabled_tags(*user_settings))),
            entries_view(out@) == spec_catalog().subrange(0, i as int).filter(pred),
        decreases n - i,
    {
        proof {
            reveal(Seq::filter);
            assert(spec_catalog().subrange(0, i + 1).drop_last() =~= spec_catalog().subrange(
                0,
                i as int,
            ));
            assert(spec_catalog().subrange(0, i + 1).last() == spec_catalog()[i as int]);
            assert(entries_view(req@)[i as int] == req@[i as int]@);
        }
        if tags_intersect(&req[i].depends_on, &args) {
            out.push(clone_entry(&req[i]));
            proof {
                assert(entries_view(out@) =~= spec_catalog().subrange(0, i + 1).filter(pred));
            }
        } else {
            proof {
                assert(entries_view(out@) =~= spec_catalog().subrange(0, i + 1).filter(pred));
            }
        }
        i = i + 1;
    }
    proof {
        assert(spec_catalog().subrange(0, n as int) =~= spec_catalog());
    }
    out
}

/// With no enabled strategies, the selector selects nothing: the
/// filter of any catalog slice by the enabled tags of such settings
/// is empty.
pub proof fn lemma_empty_tags_select_nothing(s: Seq<RequirementEntryV>, settings: UserSettings)
    requires
        spec_enabled_tags(settings).len() == 0,
    ensures
        s.filter(
            |e: RequirementEntryV| spec_intersects(e.depends_on, spec_enabled_tags(settings)),
        ) == Seq::<RequirementEntryV>::empty(),
    decreases s.len(),
{
    reveal(Seq::filter);
    if s.len() > 0 {
        lemma_empty_tags_select_nothing(s.drop_last(), settings);
    }
}

} // verus!
