//! Errors of the ledger's actions.

use vstd::prelude::*;

verus! {

#[verifier::external_type_specification]
#[verifier::external_body]
pub struct ExStdError(cosmwasm_std::StdError);

/// Why an action was refused. Every refusal leaves the ledger as it was.
#[derive(Debug, PartialEq)]
pub enum ContractError {
    /// The storage layer reported an error.
    Std(cosmwasm_std::StdError),
    /// The caller is not the administrator, or there is nothing to withdraw.
    Unauthorized {},
    /// The address has already joined.
    AlreadyWhitelisted {},
    /// A native-currency payment of the wrong amount came with the request.
    PaymentError {},
    /// No native-currency payment came with the request.
    PaymentFailed {},
    /// A non-empty referral code that no one owns.
    InvalidRefCode {},
}

} // verus!
