//! Totals of caller-supplied amounts: attached funds of one denom, and the
//! decimal input amounts of a split swap.
use vstd::prelude::*;
use cosmwasm_std::StdError;
use crate::host::{checked_add_uint128, parse_uint128, parsed_u128};
use crate::msg::{Coin, SwapAmountInSplitRoute};

verus! {

/// The sum of the amounts of the coins of `denom`.
pub open spec fn funds_total(funds: Seq<Coin>, denom: Seq<char>) -> nat
    decreases funds.len(),
{
    if funds.len() == 0 {
        0
    } else {
        funds_total(funds.drop_last(), denom) + if funds.last().denom@ == denom {
            funds.last().amount as nat
        } else {
            0nat
        }
    }
}

/// The sum of the input amounts of a split swap, or `None` when one of them
/// is not a decimal `u128`.
pub open spec fn split_input_total(routes: Seq<SwapAmountInSplitRoute>) -> Option<nat>
    decreases routes.len(),
{
    if routes.len() == 0 {
        Some(0)
    } else {
        match split_input_total(routes.drop_last()) {
            Some(t) => match parsed_u128(routes.last().token_in_amount@) {
                Some(a) => Some(t + a as nat),
                None => None,
            },
            None => None,
        }
    }
}

/// A prefix of the funds never holds more of a denom than the whole.
pub proof fn lemma_funds_prefix(funds: Seq<Coin>, denom: Seq<char>, i: int)
    requires
        0 <= i <= funds.len(),
    ensures
        funds_total(funds.subrange(0, i), denom) <= funds_total(funds, denom),
    decreases funds.len(),
{
    if i == funds.len() {
        assert(funds.subrange(0, i) =~= funds);
    } else {
        assert(funds.drop_last().subrange(0, i) =~= funds.subrange(0, i));
        lemma_funds_prefix(funds.drop_last(), denom, i);
    }
}

/// Where the split total is defined, so is the total of each prefix, and it
/// is no larger.
pub proof fn lemma_split_prefix(routes: Seq<SwapAmountInSplitRoute>, i: int)
    requires
        0 <= i <= routes.len(),
        split_input_total(routes) is Some,
    ensures
        split_input_total(routes.subrange(0, i)) is Some,
        split_input_total(routes.subrange(0, i))->0 <= split_input_total(routes)->0,
    decreases routes.len(),
{
    if i == routes.len() {
        assert(routes.subrange(0, i) =~= routes);
    } else {
        assert(routes.drop_last().subrange(0, i) =~= routes.subrange(0, i));
        lemma_split_prefix(routes.drop_last(), i);
    }
}

/// The attached amount of `denom`, or `None` when it does not fit a `u128`.
pub fn gross_funds(funds: &Vec<Coin>, denom: &String) -> (r: Option<u128>)
    ensures
        r == (if funds_total(funds@, denom@) <= u128::MAX {
            Some(funds_total(funds@, denom@) as u128)
        } else {
            None::<u128>
        }),
{
    let mut total: u128 = 0;
    let mut i: usize = 0;
    while i < funds.len()
        invariant
            i <= funds.len(),
            total == funds_total(funds@.subrange(0, i as int), denom@),
        decreases funds.len() - i,
    {
        assert(funds@.subrange(0, i + 1).drop_last() =~= funds@.subrange(0, i as int));
        if funds[i].denom == *denom {
            match total.checked_add(funds[i].amount) {
                Some(t) => {
                    total = t;
                },
                None => {
                    proof {
                        lemma_funds_prefix(funds@, denom@, i + 1);
                    }
                    return None;
                },
            }
        }
        i += 1;
    }
    assert(funds@.subrange(0, i as int) =~= funds@);
    Some(total)
}

/// The total input of a split swap: each amount parsed as a decimal `u128`,
/// summed with overflow checked.
pub fn split_input_amount(routes: &Vec<SwapAmountInSplitRoute>) -> (r: Result<u128, StdError>)
    ensures
        match r {
            Ok(t) => split_input_total(routes@) == Some(t as nat),
            Err(_) => !(split_input_total(routes@) matches Some(t) && t <= u128::MAX),
        },
{
    let mut total: u128 = 0;
    let mut i: usize = 0;
    while i < routes.len()
        invariant
            i <= routes.len(),
            split_input_total(routes@.subrange(0, i as int)) == Some(total as nat),
        decreases routes.len() - i,
    {
        assert(routes@.subrange(0, i + 1).drop_last() =~= routes@.subrange(0, i as int));
        let amount = match parse_uint128(&routes[i].token_in_amount) {
            Ok(a) => a,
            Err(e) => {
                proof {
                    if split_input_total(routes@) is Some {
                        lemma_split_prefix(routes@, i + 1);
                    }
                }
                return Err(e);
            },
        };
        total = match checked_add_uint128(total, amount) {
            Ok(t) => t,
            Err(e) => {
                proof {
                    if split_input_total(routes@) is Some {
                        lemma_split_prefix(routes@, i + 1);
                    }
                }
                return Err(e);
            },
        };
        i += 1;
    }
    assert(routes@.subrange(0, i as int) =~= routes@);
    Ok(total)
}

} // verus!
