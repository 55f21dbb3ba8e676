//! The calls this library makes into the host's libraries, each behind a
//! contract that states what the call is relied on for.
use vstd::prelude::*;
use std::str::FromStr;
use cosmwasm_std::{Binary, StdError, Uint128};
use osmosis_std::types::osmosis::poolmanager::v1beta1::{
    MsgSplitRouteSwapExactAmountInResponse, MsgSwapExactAmountInResponse,
};

verus! {

pub open spec fn is_digit(c: char) -> bool {
    '0' <= c && c <= '9'
}

pub open spec fn all_digits(s: Seq<char>) -> bool {
    forall|i: int| 0 <= i < s.len() ==> #[trigger] is_digit(s[i])
}

/// The value of a string of decimal digits, most significant first.
pub open spec fn digits_value(s: Seq<char>) -> nat
    decreases s.len(),
{
    if s.len() == 0 {
        0
    } else {
        digits_value(s.drop_last()) * 10 + (s.last() as nat - '0' as nat) as nat
    }
}

/// The digits of an unsigned decimal, after its optional `+` sign.
pub open spec fn unsigned_digits(s: Seq<char>) -> Seq<char> {
    if s.len() > 0 && s[0] == '+' {
        s.subrange(1, s.len() as int)
    } else {
        s
    }
}

/// What a decimal string denotes as a `u128`: one or more digits after an
/// optional `+`, nothing else, and a value that fits.
pub open spec fn parsed_u128(s: Seq<char>) -> Option<u128> {
    let d = unsigned_digits(s);
    if d.len() > 0 && all_digits(d) && digits_value(d) <= u128::MAX {
        Some(digits_value(d) as u128)
    } else {
        None
    }
}

/// The `token_out_amount` that a protobuf `MsgSwapExactAmountInResponse`
/// encoded in these bytes holds, if they decode.
pub uninterp spec fn exact_in_response_amount(data: Seq<u8>) -> Option<Seq<char>>;

/// The `token_out_amount` that a protobuf
/// `MsgSplitRouteSwapExactAmountInResponse` encoded in these bytes holds, if
/// they decode.
pub uninterp spec fn split_response_amount(data: Seq<u8>) -> Option<Seq<char>>;

/// The `Debug` rendering of a string.
pub uninterp spec fn debug_rendering(s: Seq<char>) -> Seq<char>;

/// Relies on `<cosmwasm_std::Uint128 as FromStr>::from_str`, which parses
/// through `u128::from_str`: an optional `+`, then decimal digits only, and a
/// value that fits; anything else is an error.
#[verifier::external_body]
pub(crate) fn parse_uint128(s: &String) -> (r: Result<u128, StdError>)
    ensures
        match r {
            Ok(v) => parsed_u128(s@) == Some(v),
            Err(_) => parsed_u128(s@) is None,
        },
{
    Uint128::from_str(s).map(|v| v.u128())
}

/// Relies on `cosmwasm_std::Uint128::checked_add`: the sum when it fits,
/// else an overflow error, rendered into a generic host error.
#[verifier::external_body]
pub(crate) fn checked_add_uint128(a: u128, b: u128) -> (r: Result<u128, StdError>)
    ensures
        match r {
            Ok(v) => a + b <= u128::MAX && v == a + b,
            Err(_) => a + b > u128::MAX,
        },
{
    Uint128::new(a).checked_add(Uint128::new(b)).map(|v| v.u128()).map_err(
        |e| StdError::generic_err(e.to_string()),
    )
}

/// Relies on osmosis-std's `TryFrom<Binary>` for
/// `MsgSwapExactAmountInResponse`, a protobuf decode of the bytes.
#[verifier::external_body]
pub(crate) fn decode_exact_in_response(data: &Vec<u8>) -> (r: Result<String, StdError>)
    ensures
        match r {
            Ok(amount) => exact_in_response_amount(data@) == Some(amount@),
            Err(_) => exact_in_response_amount(data@) is None,
        },
{
    MsgSwapExactAmountInResponse::try_from(Binary::from(data.clone())).map(|m| m.token_out_amount)
}

/// Relies on osmosis-std's `TryFrom<Binary>` for
/// `MsgSplitRouteSwapExactAmountInResponse`, a protobuf decode of the bytes.
#[verifier::external_body]
pub(crate) fn decode_split_response(data: &Vec<u8>) -> (r: Result<String, StdError>)
    ensures
        match r {
            Ok(amount) => split_response_amount(data@) == Some(amount@),
            Err(_) => split_response_amount(data@) is None,
        },
{
    MsgSplitRouteSwapExactAmountInResponse::try_from(Binary::from(data.clone())).map(
        |m| m.token_out_amount,
    )
}

/// Relies on `<str as Debug>::fmt`, which depends on the characters alone.
#[verifier::external_body]
pub(crate) fn debug_string(s: &String) -> (r: String)
    ensures
        r@ == debug_rendering(s@),
{
    format!("{:?}", s)
}

/// Relies on `cosmwasm_std::StdError::not_found`, the host's error for a
/// storage item that is absent.
#[verifier::external_body]
pub(crate) fn not_found_error(kind: &str) -> (r: StdError) {
    StdError::not_found(kind)
}

} // verus!
