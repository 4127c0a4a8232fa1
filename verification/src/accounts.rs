//! The accounts that a request names, one struct for each operation, and the
//! token balance account that the ledger keeps for a subscriber.

use crate::address::Address;
use vstd::prelude::*;

verus! {

/// An account in a position that may carry its owner's signature.
#[derive(Clone, Copy, Debug, PartialEq, Eq)]
pub struct Signer {
    /// The account's address.
    pub key: Address,
    /// Whether the request carries a verified signature of this account.
    pub is_signer: bool,
}

/// A token balance account: what `owner` holds of the token type `mint`.
#[derive(Clone, Copy, Debug, PartialEq, Eq)]
pub struct TokenAccount {
    /// The token type.
    pub mint: Address,
    /// The holder.
    pub owner: Address,
    /// The number of tokens held.
    pub amount: u64,
}

/// The accounts of a registration.
#[derive(Clone, Copy, Debug, PartialEq, Eq)]
pub struct Initialize {
    /// Where the new record is to be stored.
    pub publisher: Address,
    /// The token type that will stand for the license.
    pub license_mint: Address,
    /// The publisher, who must sign.
    pub authority: Signer,
}

/// The accounts of a purchase.
#[derive(Clone, Copy, Debug, PartialEq, Eq)]
pub struct PurchaseLicense {
    /// The publisher's record.
    pub publisher: Address,
    /// The license's token type.
    pub license_mint: Address,
    /// The publisher, who is paid.
    pub authority: Address,
    /// The subscriber, who pays and must sign.
    pub subscriber: Signer,
    /// The subscriber's balance account for the token type.
    pub subscriber_token_account: Address,
}

/// The accounts of a revocation.
#[derive(Clone, Copy, Debug, PartialEq, Eq)]
pub struct RevokeLicense {
    /// The publisher's record.
    pub publisher: Address,
    /// The license's token type.
    pub license_mint: Address,
    /// The publisher.
    pub authority: Address,
    /// The subscriber, who gives the license back and must sign.
    pub subscriber: Signer,
    /// The subscriber's balance account for the token type.
    pub subscriber_token_account: Address,
}

/// The accounts of an access check.
#[derive(Clone, Copy, Debug, PartialEq, Eq)]
pub struct VerifyAccess {
    /// The publisher's record.
    pub publisher: Address,
    /// The publisher.
    pub authority: Address,
    /// The subscriber whose access is asked about.
    pub subscriber: Address,
    /// The subscriber's balance account for the token type.
    pub subscriber_token_account: Address,
    /// The license's token type.
    pub license_mint: Address,
}

} // verus!
