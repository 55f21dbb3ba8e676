use vstd::prelude::*;

verus! {

/// The host's error type, carried through unchanged.
#[verifier::external_type_specification]
#[verifier::external_body]
pub struct ExStdError(cosmwasm_std::StdError);

/// Every way a call into the proxy can fail.
#[derive(Debug)]
pub enum ContractError {
    /// A host error: address validation, decoding, parsing, storage.
    Std(cosmwasm_std::StdError),
    /// An admin call from someone other than the owner.
    Unauthorized,
    /// A fee rate above 10_000 basis points.
    InvalidAffiliateBps,
    /// The attached funds of the input denom fall short of the swap input.
    InsufficientFunds,
    /// The pool manager's sub-call came back with an error.
    FailedSwap { reason: String },
    /// A reply whose id this contract never issued.
    UnknownReplyId { id: u64 },
}

} // verus!
