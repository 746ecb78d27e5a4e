//! The contract's error type.
use vstd::prelude::*;

verus! {

/// The chain's standard error, carried through unchanged.
#[verifier::external_type_specification]
#[verifier::external_body]
pub struct ExStdError(cosmwasm_std::StdError);

/// What an entry point of the contract fails with.
#[derive(Debug)]
pub enum ContractError {
    /// A failure of the chain's standard library, such as a storage write.
    Std(cosmwasm_std::StdError),
}

} // verus!
