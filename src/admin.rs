//! Instantiation, the configuration query, and the owner-gated updates of
//! the configuration. Addresses reach these functions already put through
//! the host's validation: `Ok` with the canonical address, or the host's
//! error, which surfaces only after the checks that come before it.
use vstd::prelude::*;
use cosmwasm_std::StdError;
use crate::error::ContractError;
use crate::msg::ConfigResponse;
use crate::state::{Config, ConfigView, MAX_AFFILIATE_BPS};

verus! {

/// Fails with `Unauthorized` unless `sender` is the owner.
pub fn assert_owner(cfg: &Config, sender: &String) -> (r: Result<(), ContractError>)
    ensures
        r is Ok <==> cfg@.authorizes(sender@),
        r is Err ==> r matches Err(ContractError::Unauthorized),
{
    if cfg.owner != *sender {
        return Err(ContractError::Unauthorized);
    }
    Ok(())
}

/// The first configuration. A rate above 10_000 basis points is rejected,
/// then a failed validation of either address.
pub fn instantiate(
    owner: Result<String, StdError>,
    affiliate_addr: Result<String, StdError>,
    affiliate_bps: u16,
) -> (r: Result<Config, ContractError>)
    ensures
        affiliate_bps > MAX_AFFILIATE_BPS ==> r matches Err(ContractError::InvalidAffiliateBps),
        affiliate_bps <= MAX_AFFILIATE_BPS && (owner is Err || affiliate_addr is Err) ==> r matches Err(
            ContractError::Std(_),
        ),
        affiliate_bps <= MAX_AFFILIATE_BPS ==> match (owner, affiliate_addr) {
            (Ok(o), Ok(a)) => r matches Ok(cfg) && cfg@ == (ConfigView {
                owner: o@,
                affiliate_addr: a@,
                affiliate_bps,
            }),
            _ => r is Err,
        },
        r matches Ok(cfg) ==> cfg@.wf(),
{
    if affiliate_bps > MAX_AFFILIATE_BPS {
        return Err(ContractError::InvalidAffiliateBps);
    }
    let owner = match owner {
        Ok(o) => o,
        Err(e) => {
            return Err(ContractError::Std(e));
        },
    };
    let affiliate_addr = match affiliate_addr {
        Ok(a) => a,
        Err(e) => {
            return Err(ContractError::Std(e));
        },
    };
    Ok(Config { owner, affiliate_addr, affiliate_bps })
}

/// The configuration as the query answers it.
pub fn query_config(cfg: &Config) -> (r: ConfigResponse)
    ensures
        r.owner@ == cfg.owner@,
        r.affiliate_addr@ == cfg.affiliate_addr@,
        r.affiliate_bps == cfg.affiliate_bps,
{
    ConfigResponse {
        owner: cfg.owner.clone(),
        affiliate_addr: cfg.affiliate_addr.clone(),
        affiliate_bps: cfg.affiliate_bps,
    }
}

/// The owner sets a new affiliate address and rate. A caller other than the
/// owner is rejected first, then a rate above 10_000 basis points, then a
/// failed validation of the address; a rejected call changes nothing.
pub fn update_affiliate(
    cfg: &mut Config,
    sender: &String,
    affiliate_addr: Result<String, StdError>,
    affiliate_bps: u16,
) -> (r: Result<(), ContractError>)
    ensures
        !old(cfg)@.authorizes(sender@) ==> r matches Err(ContractError::Unauthorized),
        old(cfg)@.authorizes(sender@) && affiliate_bps > MAX_AFFILIATE_BPS ==> r matches Err(
            ContractError::InvalidAffiliateBps,
        ),
        old(cfg)@.authorizes(sender@) && affiliate_bps <= MAX_AFFILIATE_BPS ==> match affiliate_addr {
            Ok(a) => r is Ok && final(cfg)@ == old(cfg)@.with_affiliate(a@, affiliate_bps),
            Err(_) => r matches Err(ContractError::Std(_)),
        },
        r is Err ==> final(cfg)@ == old(cfg)@,
        old(cfg)@.wf() ==> final(cfg)@.wf(),
{
    assert_owner(cfg, sender)?;
    if affiliate_bps > MAX_AFFILIATE_BPS {
        return Err(ContractError::InvalidAffiliateBps);
    }
    let addr = match affiliate_addr {
        Ok(a) => a,
        Err(e) => {
            return Err(ContractError::Std(e));
        },
    };
    cfg.affiliate_addr = addr;
    cfg.affiliate_bps = affiliate_bps;
    Ok(())
}

/// The owner hands the contract to `new_owner`. A caller other than the
/// owner is rejected first, then a failed validation of the address; a
/// rejected call changes nothing.
pub fn transfer_ownership(
    cfg: &mut Config,
    sender: &String,
    new_owner: Result<String, StdError>,
) -> (r: Result<(), ContractError>)
    ensures
        !old(cfg)@.authorizes(sender@) ==> r matches Err(ContractError::Unauthorized),
        old(cfg)@.authorizes(sender@) ==> match new_owner {
            Ok(o) => r is Ok && final(cfg)@ == old(cfg)@.with_owner(o@),
            Err(_) => r matches Err(ContractError::Std(_)),
        },
        r is Err ==> final(cfg)@ == old(cfg)@,
        old(cfg)@.wf() ==> final(cfg)@.wf(),
{
    assert_owner(cfg, sender)?;
    let owner = match new_owner {
        Ok(o) => o,
        Err(e) => {
            return Err(ContractError::Std(e));
        },
    };
    cfg.owner = owner;
    Ok(())
}

/// After the contract is handed to `new_owner`, exactly `new_owner` may
/// administer it: any other caller, the previous owner among them, is
/// rejected.
pub proof fn lemma_transfer_hands_over(cfg: ConfigView, new_owner: Seq<char>, caller: Seq<char>)
    ensures
        cfg.with_owner(new_owner).authorizes(caller) <==> caller == new_owner,
        cfg.owner != new_owner ==> !cfg.with_owner(new_owner).authorizes(cfg.owner),
{
}

/// Setting the affiliate to its current address and rate changes nothing.
pub proof fn lemma_update_to_current_is_noop(cfg: ConfigView)
    ensures
        cfg.with_affiliate(cfg.affiliate_addr, cfg.affiliate_bps) == cfg,
{
}

} // verus!
