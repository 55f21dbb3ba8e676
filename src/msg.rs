use vstd::prelude::*;

verus! {

/// An amount of one denom.
pub struct Coin {
    pub denom: String,
    pub amount: u128,
}

/// One hop of a route through the pool manager.
pub struct SwapAmountInRoute {
    pub pool_id: u64,
    pub token_out_denom: String,
}

/// One part of a split swap: a route and the decimal input amount it takes.
pub struct SwapAmountInSplitRoute {
    pub pools: Vec<SwapAmountInRoute>,
    pub token_in_amount: String,
}

pub struct InstantiateMsg {
    pub owner: String,
    pub affiliate_addr: String,
    /// Out of 10_000 (basis points).
    pub affiliate_bps: u16,
}

/// The swap a trader asks the proxy to forward.
#[allow(inconsistent_fields)]
pub enum ProxySwap {
    SwapExactAmountIn {
        routes: Vec<SwapAmountInRoute>,
        token_in: Coin,
        token_out_min_amount: u128,
    },
    SplitRouteSwapExactAmountIn {
        routes: Vec<SwapAmountInSplitRoute>,
        token_in_denom: String,
        token_out_min_amount: u128,
    },
}

pub enum ExecuteMsg {
    ProxySwapWithFee { swap: ProxySwap },
    UpdateAffiliate { affiliate_addr: String, affiliate_bps: u16 },
    TransferOwnership { new_owner: String },
}

pub enum QueryMsg {
    Config {},
}

pub struct ConfigResponse {
    pub owner: String,
    pub affiliate_addr: String,
    pub affiliate_bps: u16,
}

/// The result data of a settled swap.
pub struct SwapResponse {
    pub original_sender: String,
    pub token_out_denom: String,
    pub amount_sent_to_user: u128,
    pub amount_sent_to_affiliate: u128,
}

/// A bank transfer of one coin.
pub struct BankSend {
    pub to_address: String,
    pub denom: String,
    pub amount: u128,
}

impl BankSend {
    pub open spec fn is(self, to: Seq<char>, denom: Seq<char>, amount: int) -> bool {
        &&& self.to_address@ == to
        &&& self.denom@ == denom
        &&& self.amount == amount
    }
}

/// The message dispatched to the pool manager.
#[allow(inconsistent_fields)]
pub enum PoolManagerMsg {
    SwapExactAmountIn {
        sender: String,
        routes: Vec<SwapAmountInRoute>,
        token_in: Coin,
        token_out_min_amount: u128,
    },
    SplitRouteSwapExactAmountIn {
        sender: String,
        routes: Vec<SwapAmountInSplitRoute>,
        token_in_denom: String,
        token_out_min_amount: u128,
    },
}

} // verus!
