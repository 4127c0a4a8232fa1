//! What each operation answers on a given ledger, and what it leaves behind.
//!
//! An operation first looks at the request alone, then at the accounts the
//! request names, then at what they hold. The first finding that stands in
//! its way is the error; an operation that fails leaves the ledger as it
//! was.

use crate::accounts::{Initialize, PurchaseLicense, RevokeLicense, VerifyAccess};
use crate::derivation::publisher_slot;
use crate::error::ErrorCode;
use crate::ledger::LedgerView;
use crate::publisher::Publisher;
use vstd::prelude::*;

verus! {

/// Whether a registration names the accounts it should: the record's address
/// is the one derived from the publisher.
pub open spec fn initialize_accounts_bound(ledger: LedgerView, ctx: Initialize) -> bool {
    publisher_slot(ledger.program_id, ctx.authority.key) == Some(ctx.publisher@)
}

/// The answer to a registration.
pub open spec fn initialize_outcome(ledger: LedgerView, ctx: Initialize) -> Result<(), ErrorCode> {
    if !ctx.authority.is_signer {
        Err(ErrorCode::Unauthorized)
    } else if !initialize_accounts_bound(ledger, ctx) {
        Err(ErrorCode::AccountBindingMismatch)
    } else if ledger.publishers.contains_key(ctx.publisher) {
        Err(ErrorCode::AlreadyInitialized)
    } else {
        Ok(())
    }
}

/// The ledger after a registration.
pub open spec fn after_initialize(ledger: LedgerView, ctx: Initialize, license_price: u64) -> LedgerView {
    if initialize_outcome(ledger, ctx) is Ok {
        ledger.with_publisher(
            ctx.publisher,
            Publisher::fresh(ctx.authority.key, ctx.license_mint, license_price),
        )
    } else {
        ledger
    }
}

/// Whether a purchase names the accounts it should: the publisher's record
/// with this license, an existing token type, and the subscriber's balance
/// account for it.
pub open spec fn purchase_accounts_bound(ledger: LedgerView, ctx: PurchaseLicense) -> bool {
    &&& ledger.publisher_bound(ctx.publisher, ctx.authority, ctx.license_mint)
    &&& ledger.mints.contains_key(ctx.license_mint)
    &&& ledger.token_account_bound(ctx.subscriber_token_account, ctx.subscriber.key, ctx.license_mint)
}

/// The answer to a purchase.
pub open spec fn purchase_outcome(ledger: LedgerView, ctx: PurchaseLicense) -> Result<(), ErrorCode> {
    let record = ledger.publishers[ctx.publisher];
    if !ctx.subscriber.is_signer {
        Err(ErrorCode::Unauthorized)
    } else if !purchase_accounts_bound(ledger, ctx) {
        Err(ErrorCode::AccountBindingMismatch)
    } else if ledger.balance(ctx.subscriber.key) < record.license_price {
        Err(ErrorCode::InsufficientFunds)
    } else if ctx.authority != ctx.subscriber.key && ledger.balance(ctx.authority)
        + record.license_price > u64::MAX {
        Err(ErrorCode::MathOverflow)
    } else if ledger.mints[ctx.license_mint] != ctx.publisher {
        Err(ErrorCode::Unauthorized)
    } else if ledger.token_balance(ctx.subscriber_token_account) == u64::MAX {
        Err(ErrorCode::MathOverflow)
    } else if record.total_subscribers == u64::MAX {
        Err(ErrorCode::MathOverflow)
    } else {
        Ok(())
    }
}

/// The ledger after a purchase: the price paid to the publisher, one token
/// minted to the subscriber, one more subscriber counted.
pub open spec fn after_purchase(ledger: LedgerView, ctx: PurchaseLicense) -> LedgerView {
    let record = ledger.publishers[ctx.publisher];
    if purchase_outcome(ledger, ctx) is Ok {
        ledger.pay(ctx.subscriber.key, ctx.authority, record.license_price).mint_one(
            ctx.subscriber_token_account,
            ctx.subscriber.key,
            ctx.license_mint,
        ).with_publisher(ctx.publisher, record.with_subscribers(record.total_subscribers + 1))
    } else {
        ledger
    }
}

/// Whether a revocation names the accounts it should: the publisher's record
/// with this license, and the subscriber's balance account for it.
pub open spec fn revoke_accounts_bound(ledger: LedgerView, ctx: RevokeLicense) -> bool {
    &&& ledger.publisher_bound(ctx.publisher, ctx.authority, ctx.license_mint)
    &&& ledger.token_account_bound(ctx.subscriber_token_account, ctx.subscriber.key, ctx.license_mint)
}

/// The answer to a revocation.
pub open spec fn revoke_outcome(ledger: LedgerView, ctx: RevokeLicense) -> Result<(), ErrorCode> {
    if !ctx.subscriber.is_signer {
        Err(ErrorCode::Unauthorized)
    } else if !revoke_accounts_bound(ledger, ctx) {
        Err(ErrorCode::AccountBindingMismatch)
    } else if ledger.publishers[ctx.publisher].total_subscribers == 0 {
        Err(ErrorCode::CounterUnderflow)
    } else if ledger.token_balance(ctx.subscriber_token_account) == 0 {
        Err(ErrorCode::InsufficientFunds)
    } else {
        Ok(())
    }
}

/// The ledger after a revocation: one token burnt from the subscriber, one
/// subscriber less counted.
pub open spec fn after_revoke(ledger: LedgerView, ctx: RevokeLicense) -> LedgerView {
    let record = ledger.publishers[ctx.publisher];
    if revoke_outcome(ledger, ctx) is Ok {
        ledger.burn_one(ctx.subscriber_token_account).with_publisher(
            ctx.publisher,
            record.with_subscribers(record.total_subscribers - 1),
        )
    } else {
        ledger
    }
}

/// Whether an access check names the accounts it should: the publisher's
/// record with this license, and the subscriber's balance account for it.
pub open spec fn verify_accounts_bound(ledger: LedgerView, ctx: VerifyAccess) -> bool {
    &&& ledger.publisher_bound(ctx.publisher, ctx.authority, ctx.license_mint)
    &&& ledger.token_account_bound(ctx.subscriber_token_account, ctx.subscriber, ctx.license_mint)
}

/// The answer to an access check: whether the subscriber holds a token.
pub open spec fn verify_outcome(ledger: LedgerView, ctx: VerifyAccess) -> Result<bool, ErrorCode> {
    if !verify_accounts_bound(ledger, ctx) {
        Err(ErrorCode::AccountBindingMismatch)
    } else {
        Ok(ledger.token_balance(ctx.subscriber_token_account) > 0)
    }
}

} // verus!
