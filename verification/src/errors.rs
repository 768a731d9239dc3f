//! Failures of the token-contract client.

use vstd::prelude::*;

verus! {

/// Why a query to, or a transfer through, a token contract gave no answer.
#[derive(Clone, Copy, Debug, PartialEq, Eq, Structural)]
pub enum Cis2ClientError {
    /// The call could not be dispatched, came back without a return value,
    /// or came back with an empty list of results.
    InvokeContractError,
    /// The return value is not an encoding of the expected response.
    ParseResult,
}

} // verus!
