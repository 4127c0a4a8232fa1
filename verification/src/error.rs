//! The ways in which an operation is refused.

use vstd::prelude::*;

verus! {

/// Why an operation was refused. A refused operation changes nothing.
#[derive(Clone, Copy, Debug, PartialEq, Eq, Structural)]
pub enum ErrorCode {
    /// What was to be created exists already: the record of this publisher,
    /// or a token type under this address.
    AlreadyInitialized,
    /// A required signature is missing, or the token type's mint authority
    /// is not the publisher's derived address.
    Unauthorized,
    /// The paying wallet or the token balance holds less than the operation
    /// takes from it.
    InsufficientFunds,
    /// A license was to be retracted while the subscriber counter was zero.
    CounterUnderflow,
    /// A supplied account is not the one that belongs to the publisher, the
    /// token type and the subscriber that the request names.
    AccountBindingMismatch,
    /// A counter or a balance would pass the largest value it can hold.
    MathOverflow,
}

} // verus!
