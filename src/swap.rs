//! The fee-accounting state machine: dispatching a swap to the pool manager,
//! and settling it when the pool manager replies.
use vstd::prelude::*;
use crate::error::ContractError;
use crate::funds::{funds_total, gross_funds, split_input_amount, split_input_total};
use crate::host::{
    debug_string, debug_rendering, decode_exact_in_response, decode_split_response,
    exact_in_response_amount, not_found_error, parse_uint128, parsed_u128, split_response_amount,
};
use crate::msg::{
    BankSend, Coin, PoolManagerMsg, ProxySwap, SwapAmountInRoute, SwapAmountInSplitRoute,
    SwapResponse,
};
use crate::state::{Config, PendingSwapKind, SwapReplyState};

verus! {

/// The id that marks the sub-call of every swap, and so its reply.
pub const SWAP_REPLY_ID: u64 = 1;

/// What a dispatch hands to the host.
pub struct Dispatch {
    pub kind: PendingSwapKind,
    /// The affiliate's fee in the input denom, sent at once.
    pub affiliate_payout: Option<BankSend>,
    /// The swap for the pool manager, replied to under `SWAP_REPLY_ID`.
    pub pool_manager_msg: Option<PoolManagerMsg>,
}

/// What a settlement hands to the host.
pub struct Settlement {
    /// The swap's output, sent to the trader.
    pub user_payout: Option<BankSend>,
    /// The result data.
    pub response: SwapResponse,
    /// The output amount that the pool manager reported.
    pub token_out_amount: u128,
}

pub open spec fn input_denom(swap: ProxySwap) -> Seq<char> {
    match swap {
        ProxySwap::SwapExactAmountIn { token_in, .. } => token_in.denom@,
        ProxySwap::SplitRouteSwapExactAmountIn { token_in_denom, .. } => token_in_denom@,
    }
}

/// The amount the caller asks to swap, or `None` when a split amount does
/// not parse or the split total does not fit a `u128`.
pub open spec fn net_input(swap: ProxySwap) -> Option<nat> {
    match swap {
        ProxySwap::SwapExactAmountIn { token_in, .. } => Some(token_in.amount as nat),
        ProxySwap::SplitRouteSwapExactAmountIn { routes, .. } => match split_input_total(routes@) {
            Some(t) => if t <= u128::MAX {
                Some(t)
            } else {
                None
            },
            None => None,
        },
    }
}

pub open spec fn kind_of(swap: ProxySwap) -> PendingSwapKind {
    match swap {
        ProxySwap::SwapExactAmountIn { .. } => PendingSwapKind::Single,
        ProxySwap::SplitRouteSwapExactAmountIn { .. } => PendingSwapKind::Split,
    }
}

pub open spec fn last_hop_denom(routes: Seq<SwapAmountInRoute>) -> Seq<char> {
    if routes.len() > 0 {
        routes.last().token_out_denom@
    } else {
        Seq::empty()
    }
}

/// The denom the swap ends in: that of the last hop, and for a split swap
/// that of the first route's last hop; empty where there is no such hop.
pub open spec fn terminal_denom(swap: ProxySwap) -> Seq<char> {
    match swap {
        ProxySwap::SwapExactAmountIn { routes, .. } => last_hop_denom(routes@),
        ProxySwap::SplitRouteSwapExactAmountIn { routes, .. } => if routes@.len() > 0 {
            last_hop_denom(routes@[0].pools@)
        } else {
            Seq::empty()
        },
    }
}

/// The message forwards the swap unchanged, sent by `contract`.
pub open spec fn forwards(msg: PoolManagerMsg, swap: ProxySwap, contract: Seq<char>) -> bool {
    match (msg, swap) {
        (
            PoolManagerMsg::SwapExactAmountIn { sender, routes, token_in, token_out_min_amount },
            ProxySwap::SwapExactAmountIn { routes: r, token_in: t, token_out_min_amount: m },
        ) => sender@ == contract && routes == r && token_in == t && token_out_min_amount == m,
        (
            PoolManagerMsg::SplitRouteSwapExactAmountIn {
                sender,
                routes,
                token_in_denom,
                token_out_min_amount,
            },
            ProxySwap::SplitRouteSwapExactAmountIn {
                routes: r,
                token_in_denom: d,
                token_out_min_amount: m,
            },
        ) => sender@ == contract && routes == r && token_in_denom == d && token_out_min_amount
            == m,
        _ => false,
    }
}

/// A transfer of `amount` when it is positive, and none when it is zero.
pub open spec fn pays(p: Option<BankSend>, to: Seq<char>, denom: Seq<char>, amount: int) -> bool {
    if amount > 0 {
        p matches Some(s) && s.is(to, denom, amount)
    } else {
        p is None
    }
}

pub open spec fn sent(p: Option<BankSend>) -> nat {
    match p {
        Some(s) => s.amount as nat,
        None => 0,
    }
}

/// The input that a pool-manager message carries.
pub open spec fn forwarded(m: Option<PoolManagerMsg>) -> nat {
    match m {
        Some(PoolManagerMsg::SwapExactAmountIn { token_in, .. }) => token_in.amount as nat,
        Some(PoolManagerMsg::SplitRouteSwapExactAmountIn { routes, .. }) => match split_input_total(
            routes@,
        ) {
            Some(t) => t,
            None => 0,
        },
        None => 0,
    }
}

/// The outcome of a valid dispatch: the surplus of the attached funds over
/// the net input goes to the affiliate, and a positive net input is sent on
/// to the pool manager while the reply state is recorded.
pub open spec fn dispatched(
    d: Dispatch,
    cfg: Config,
    pending: Option<SwapReplyState>,
    old_pending: Option<SwapReplyState>,
    contract: Seq<char>,
    sender: Seq<char>,
    swap: ProxySwap,
    gross: nat,
    net: nat,
) -> bool {
    &&& d.kind == kind_of(swap)
    &&& pays(d.affiliate_payout, cfg.affiliate_addr@, input_denom(swap), gross - net)
    &&& net == 0 ==> d.pool_manager_msg is None && pending == old_pending
    &&& net > 0 ==> {
        &&& d.pool_manager_msg matches Some(m) && forwards(m, swap, contract)
        &&& pending matches Some(st) && st.original_sender@ == sender && st.token_out_denom@
            == terminal_denom(swap) && st.kind == kind_of(swap)
    }
}

/// A dispatch that sends nothing to the pool manager records no reply
/// state: from an idle contract it leaves the contract idle.
pub proof fn lemma_idle_without_dispatch(
    d: Dispatch,
    cfg: Config,
    pending: Option<SwapReplyState>,
    contract: Seq<char>,
    sender: Seq<char>,
    swap: ProxySwap,
    gross: nat,
    net: nat,
)
    requires
        dispatched(d, cfg, pending, None, contract, sender, swap, gross, net),
        d.pool_manager_msg is None,
    ensures
        pending is None,
{
}

fn affiliate_send(cfg: &Config, denom: &String, amount: u128) -> (r: Option<BankSend>)
    ensures
        pays(r, cfg.affiliate_addr@, denom@, amount as int),
{
    if amount == 0 {
        None
    } else {
        Some(BankSend { to_address: cfg.affiliate_addr.clone(), denom: denom.clone(), amount })
    }
}

fn route_end_denom(routes: &Vec<SwapAmountInRoute>) -> (r: String)
    ensures
        r@ == last_hop_denom(routes@),
{
    if routes.len() > 0 {
        routes[routes.len() - 1].token_out_denom.clone()
    } else {
        String::new()
    }
}

fn split_end_denom(routes: &Vec<SwapAmountInSplitRoute>) -> (r: String)
    ensures
        r@ == (if routes@.len() > 0 {
            last_hop_denom(routes@[0].pools@)
        } else {
            Seq::empty()
        }),
{
    if routes.len() > 0 {
        route_end_denom(&routes[0].pools)
    } else {
        String::new()
    }
}

/// Dispatches a swap on behalf of `sender`, who attached `funds`. The net
/// input is the single swap's `token_in` amount or the sum of the split
/// amounts; the funds of the input denom must cover it, and the surplus is
/// paid to the affiliate at once. A positive net input goes to the pool
/// manager and the reply state is recorded; a zero one ends the call.
pub fn proxy_swap_with_fee(
    cfg: &Config,
    pending: &mut Option<SwapReplyState>,
    contract_address: String,
    sender: String,
    funds: &Vec<Coin>,
    swap: ProxySwap,
) -> (r: Result<Dispatch, ContractError>)
    requires
        funds_total(funds@, input_denom(swap)) <= u128::MAX,
    ensures
        match net_input(swap) {
            None => r matches Err(ContractError::Std(_)),
            Some(net) => if funds_total(funds@, input_denom(swap)) < net {
                r matches Err(ContractError::InsufficientFunds)
            } else {
                r matches Ok(d) && dispatched(
                    d,
                    *cfg,
                    *final(pending),
                    *old(pending),
                    contract_address@,
                    sender@,
                    swap,
                    funds_total(funds@, input_denom(swap)),
                    net,
                )
            },
        },
        r is Err ==> *final(pending) == *old(pending),
        r matches Ok(d) ==> sent(d.affiliate_payout) + forwarded(d.pool_manager_msg)
            == funds_total(funds@, input_denom(swap)),
        r matches Ok(d) ==> (d.affiliate_payout matches Some(s) ==> s.amount > 0),
{
    match swap {
        ProxySwap::SwapExactAmountIn { routes, token_in, token_out_min_amount } => {
            let gross = gross_funds(funds, &token_in.denom).unwrap();
            if gross < token_in.amount {
                return Err(ContractError::InsufficientFunds);
            }
            let affiliate_payout = affiliate_send(cfg, &token_in.denom, gross - token_in.amount);
            if token_in.amount == 0 {
                return Ok(Dispatch { kind: PendingSwapKind::Single, affiliate_payout, pool_manager_msg: None });
            }
            let token_out_denom = route_end_denom(&routes);
            *pending = Some(SwapReplyState { original_sender: sender, token_out_denom, kind: PendingSwapKind::Single });
            let msg = PoolManagerMsg::SwapExactAmountIn {
                sender: contract_address,
                routes,
                token_in,
                token_out_min_amount,
            };
            Ok(Dispatch { kind: PendingSwapKind::Single, affiliate_payout, pool_manager_msg: Some(msg) })
        },
        ProxySwap::SplitRouteSwapExactAmountIn { routes, token_in_denom, token_out_min_amount } => {
            let total_in = match split_input_amount(&routes) {
                Ok(t) => t,
                Err(e) => {
                    return Err(ContractError::Std(e));
                },
            };
            let gross = gross_funds(funds, &token_in_denom).unwrap();
            if gross < total_in {
                return Err(ContractError::InsufficientFunds);
            }
            let affiliate_payout = affiliate_send(cfg, &token_in_denom, gross - total_in);
            if total_in == 0 {
                return Ok(Dispatch { kind: PendingSwapKind::Split, affiliate_payout, pool_manager_msg: None });
            }
            let token_out_denom = split_end_denom(&routes);
            *pending = Some(SwapReplyState { original_sender: sender, token_out_denom, kind: PendingSwapKind::Split });
            let msg = PoolManagerMsg::SplitRouteSwapExactAmountIn {
                sender: contract_address,
                routes,
                token_in_denom,
                token_out_min_amount,
            };
            Ok(Dispatch { kind: PendingSwapKind::Split, affiliate_payout, pool_manager_msg: Some(msg) })
        },
    }
}

/// A settlement that sends the whole output `amount` to the trader recorded
/// in `state`, in the recorded denom, and keeps none for the affiliate.
pub open spec fn settled(s: Settlement, state: SwapReplyState, amount: u128) -> bool {
    &&& s.token_out_amount == amount
    &&& pays(s.user_payout, state.original_sender@, state.token_out_denom@, amount as int)
    &&& s.response.original_sender@ == state.original_sender@
    &&& s.response.token_out_denom@ == state.token_out_denom@
    &&& s.response.amount_sent_to_user == amount
    &&& s.response.amount_sent_to_affiliate == 0
}

/// The output amount, as a string, that the pool manager's reply data holds
/// for a swap of this kind, if it decodes.
pub open spec fn reported_amount(kind: PendingSwapKind, data: Seq<u8>) -> Option<Seq<char>> {
    match kind {
        PendingSwapKind::Single => exact_in_response_amount(data),
        PendingSwapKind::Split => split_response_amount(data),
    }
}

/// Settles a swap whose pool manager reported `token_out_amount`: the whole
/// output goes to the trader, in a transfer that is left out when it is zero.
pub fn settle_swap(state: SwapReplyState, token_out_amount: &String) -> (r: Result<
    Settlement,
    ContractError,
>)
    ensures
        match parsed_u128(token_out_amount@) {
            None => r matches Err(ContractError::Std(_)),
            Some(amount) => r matches Ok(s) && settled(s, state, amount),
        },
        r matches Ok(s) ==> s.response.amount_sent_to_user + s.response.amount_sent_to_affiliate
            == s.token_out_amount,
        r matches Ok(s) ==> (s.user_payout matches Some(p) ==> p.amount > 0),
{
    let amount = match parse_uint128(token_out_amount) {
        Ok(a) => a,
        Err(e) => {
            return Err(ContractError::Std(e));
        },
    };
    let user_payout = if amount == 0 {
        None
    } else {
        Some(
            BankSend {
                to_address: state.original_sender.clone(),
                denom: state.token_out_denom.clone(),
                amount,
            },
        )
    };
    let response = SwapResponse {
        original_sender: state.original_sender,
        token_out_denom: state.token_out_denom,
        amount_sent_to_user: amount,
        amount_sent_to_affiliate: 0,
    };
    Ok(Settlement { user_payout, response, token_out_amount: amount })
}

/// Takes the recorded reply state out of `pending` and settles the swap
/// from the pool manager's result: an error result fails the swap with its
/// rendering, and reply data is decoded by the recorded kind.
pub fn handle_swap_reply(
    pending: &mut Option<SwapReplyState>,
    result: Result<Vec<u8>, String>,
) -> (r: Result<Settlement, ContractError>)
    ensures
        *final(pending) is None,
        *old(pending) is None ==> r matches Err(ContractError::Std(_)),
        *old(pending) matches Some(st) ==> match result {
            Err(e) => r matches Err(ContractError::FailedSwap { reason }) && reason@
                == debug_rendering(e@),
            Ok(data) => match reported_amount(st.kind, data@) {
                None => r matches Err(ContractError::Std(_)),
                Some(text) => match parsed_u128(text) {
                    None => r matches Err(ContractError::Std(_)),
                    Some(amount) => r matches Ok(s) && settled(s, st, amount),
                },
            },
        },
{
    let state = match pending.take() {
        Some(st) => st,
        None => {
            return Err(ContractError::Std(not_found_error("affiliate_swap::state::SwapReplyState")));
        },
    };
    let data = match result {
        Ok(data) => data,
        Err(e) => {
            return Err(ContractError::FailedSwap { reason: debug_string(&e) });
        },
    };
    let decoded = match state.kind {
        PendingSwapKind::Single => decode_exact_in_response(&data),
        PendingSwapKind::Split => decode_split_response(&data),
    };
    match decoded {
        Ok(token_out_amount) => settle_swap(state, &token_out_amount),
        Err(e) => Err(ContractError::Std(e)),
    }
}

/// The reply entry point: only `SWAP_REPLY_ID` is recognised, and any other
/// id is rejected with the reply state left as it was.
pub fn reply(pending: &mut Option<SwapReplyState>, id: u64, result: Result<Vec<u8>, String>) -> (r:
    Result<Settlement, ContractError>)
    ensures
        id != SWAP_REPLY_ID ==> (r matches Err(ContractError::UnknownReplyId { id: i }) && i == id),
        id != SWAP_REPLY_ID ==> *final(pending) == *old(pending),
        id == SWAP_REPLY_ID ==> *final(pending) is None,
        id == SWAP_REPLY_ID ==> match *old(pending) {
            None => r matches Err(ContractError::Std(_)),
            Some(st) => match result {
                Err(e) => r matches Err(ContractError::FailedSwap { reason }) && reason@
                    == debug_rendering(e@),
                Ok(data) => match reported_amount(st.kind, data@) {
                    Some(text) => match parsed_u128(text) {
                        Some(amount) => r matches Ok(s) && settled(s, st, amount),
                        None => r matches Err(ContractError::Std(_)),
                    },
                    None => r matches Err(ContractError::Std(_)),
                },
            },
        },
{
    if id != SWAP_REPLY_ID {
        return Err(ContractError::UnknownReplyId { id });
    }
    handle_swap_reply(pending, result)
}

} // verus!
