use terra_rust_bot::requirements::{
    my_requirement_list, requirement_list, settings_to_key_list, UserSettings,
};

fn no_settings() -> UserSettings {
    UserSettings {
        anchor_protocol_auto_stake: false,
        anchor_protocol_auto_farm: false,
        anchor_protocol_auto_repay: false,
        anchor_protocol_auto_borrow: false,
        terra_market_info: false,
        anchor_general_info: false,
        anchor_account_info: false,
    }
}

#[test]
fn catalog_has_fixed_shape() {
    let catalog = requirement_list();
    assert_eq!(catalog.len(), 46);
    assert_eq!(catalog[0].key, "trigger_percentage");
    assert_eq!(catalog[0].interval_secs, 10);
    assert_eq!(catalog[0].depends_on, vec!["anchor_account", "anchor_auto_repay"]);
    assert_eq!(catalog[45].key, "api/data?type=lpVault");
    assert_eq!(catalog[45].interval_secs, 600);
    let earn = catalog.iter().find(|e| e.key == "earn_apy").unwrap();
    assert_eq!(earn.interval_secs, 600);
    assert_eq!(earn.depends_on, vec!["anchor", "anchor_account"]);
    let gas = catalog.iter().find(|e| e.key == "gas_fees_uusd").unwrap();
    assert_eq!(gas.interval_secs, 60);
}

#[test]
fn empty_settings_select_nothing() {
    let settings = no_settings();
    assert!(settings_to_key_list(&settings).is_empty());
    assert!(my_requirement_list(&settings).is_empty());
}

#[test]
fn settings_map_to_tags_in_order() {
    let mut settings = no_settings();
    settings.anchor_protocol_auto_repay = true;
    settings.terra_market_info = true;
    settings.anchor_account_info = true;
    assert_eq!(
        settings_to_key_list(&settings),
        vec!["anchor_auto_repay", "market", "anchor_account"]
    );
}

#[test]
fn selector_keeps_catalog_order_without_duplicates() {
    let mut settings = no_settings();
    settings.terra_market_info = true;
    let active = my_requirement_list(&settings);
    let catalog = requirement_list();
    let expected: Vec<String> = catalog
        .iter()
        .filter(|e| e.depends_on.iter().any(|t| t == "market"))
        .map(|e| e.key.clone())
        .collect();
    let got: Vec<String> = active.iter().map(|e| e.key.clone()).collect();
    assert_eq!(got, expected);
    assert_eq!(active.len(), 16);
    // no duplicates
    for i in 0..got.len() {
        for j in (i + 1)..got.len() {
            assert_ne!(got[i], got[j]);
        }
    }
    // catalog order: the first market-tagged key comes first
    assert_eq!(active[0].key, "gas_fees_uusd");
}

#[test]
fn all_settings_select_everything() {
    let settings = UserSettings {
        anchor_protocol_auto_stake: true,
        anchor_protocol_auto_farm: true,
        anchor_protocol_auto_repay: true,
        anchor_protocol_auto_borrow: true,
        terra_market_info: true,
        anchor_general_info: true,
        anchor_account_info: true,
    };
    let active = my_requirement_list(&settings);
    // one catalog entry depends only on the airdrop tag, which no
    // settings flag enables
    assert_eq!(active.len(), 45);
    assert!(active.iter().all(|e| e.key != "anchor_airdrops"));
}

#[test]
fn single_tag_selects_its_keys() {
    let mut settings = no_settings();
    settings.anchor_protocol_auto_borrow = true;
    let active = my_requirement_list(&settings);
    let keys: Vec<&str> = active.iter().map(|e| e.key.as_str()).collect();
    assert!(keys.contains(&"borrow_percentage"));
    assert!(keys.contains(&"anchor_protocol_txs_deposit_stable"));
    assert!(keys.contains(&"anchor_protocol_txs_borrow_stable"));
    assert!(!keys.contains(&"earn_apy"));
    assert!(!keys.contains(&"anchor_airdrops"));
}
