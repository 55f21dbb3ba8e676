use affiliate_swap::admin::{instantiate, query_config, transfer_ownership, update_affiliate};
use affiliate_swap::error::ContractError;
use affiliate_swap::state::Config;
use cosmwasm_std::StdError;

fn valid(addr: &str) -> Result<String, StdError> {
    Ok(addr.to_string())
}

fn config_with_bps(bps: u16) -> Config {
    instantiate(valid("owner"), valid("affiliate"), bps).unwrap()
}

#[test]
fn test_config_query() {
    let cfg = config_with_bps(250);
    let resp = query_config(&cfg);
    assert_eq!(resp.affiliate_bps, 250);
}

#[test]
fn contract_tests_test_config_query() {
    let cfg = config_with_bps(250);
    let resp = query_config(&cfg);
    assert_eq!(resp.affiliate_bps, 250);
    assert_eq!(resp.owner, "owner");
    assert_eq!(resp.affiliate_addr, "affiliate");
}

#[test]
fn instantiate_rejects_bps_above_whole() {
    let r = instantiate(valid("owner"), valid("affiliate"), 10_001);
    assert!(matches!(r, Err(ContractError::InvalidAffiliateBps)));
    let cfg = instantiate(valid("owner"), valid("affiliate"), 10_000).unwrap();
    assert_eq!(cfg.affiliate_bps, 10_000);
}

#[test]
fn instantiate_propagates_address_error() {
    let r = instantiate(valid("owner"), Err(StdError::generic_err("invalid address")), 30);
    assert!(matches!(r, Err(ContractError::Std(_))));
}

#[test]
fn update_affiliate_by_stranger_is_unauthorized() {
    let mut cfg = config_with_bps(100);
    let r = update_affiliate(&mut cfg, &"stranger".to_string(), valid("other"), 50);
    assert!(matches!(r, Err(ContractError::Unauthorized)));
    assert_eq!(cfg.affiliate_addr, "affiliate");
    assert_eq!(cfg.affiliate_bps, 100);
}

#[test]
fn update_affiliate_by_owner() {
    let mut cfg = config_with_bps(100);
    update_affiliate(&mut cfg, &"owner".to_string(), valid("other"), 50).unwrap();
    assert_eq!(cfg.affiliate_addr, "other");
    assert_eq!(cfg.affiliate_bps, 50);
    assert_eq!(cfg.owner, "owner");
}

#[test]
fn update_affiliate_rejects_large_bps_and_keeps_state() {
    let mut cfg = config_with_bps(100);
    let r = update_affiliate(&mut cfg, &"owner".to_string(), valid("other"), 10_001);
    assert!(matches!(r, Err(ContractError::InvalidAffiliateBps)));
    assert_eq!(cfg.affiliate_addr, "affiliate");
    assert_eq!(cfg.affiliate_bps, 100);
}

#[test]
fn unauthorized_comes_before_address_error() {
    let mut cfg = config_with_bps(100);
    let bad = Err(StdError::generic_err("invalid address"));
    let r = update_affiliate(&mut cfg, &"stranger".to_string(), bad, 50);
    assert!(matches!(r, Err(ContractError::Unauthorized)));
    let bad = Err(StdError::generic_err("invalid address"));
    let r = update_affiliate(&mut cfg, &"owner".to_string(), bad, 50);
    assert!(matches!(r, Err(ContractError::Std(_))));
    assert_eq!(cfg.affiliate_bps, 100);
}

#[test]
fn update_affiliate_to_current_values_is_noop() {
    let mut cfg = config_with_bps(250);
    update_affiliate(&mut cfg, &"owner".to_string(), valid("affiliate"), 250).unwrap();
    assert_eq!(cfg.owner, "owner");
    assert_eq!(cfg.affiliate_addr, "affiliate");
    assert_eq!(cfg.affiliate_bps, 250);
}

#[test]
fn transfer_ownership_moves_admin_rights() {
    let mut cfg = config_with_bps(250);
    transfer_ownership(&mut cfg, &"owner".to_string(), valid("new_owner")).unwrap();
    assert_eq!(cfg.owner, "new_owner");
    let r = update_affiliate(&mut cfg, &"owner".to_string(), valid("x"), 1);
    assert!(matches!(r, Err(ContractError::Unauthorized)));
    let r = transfer_ownership(&mut cfg, &"owner".to_string(), valid("owner"));
    assert!(matches!(r, Err(ContractError::Unauthorized)));
    update_affiliate(&mut cfg, &"new_owner".to_string(), valid("x"), 1).unwrap();
    assert_eq!(cfg.affiliate_addr, "x");
}
