//! The four operations. Each is one atomic step on the ledger: it either
//! does all of its work or is refused and changes nothing.

use crate::accounts::{Initialize, PurchaseLicense, RevokeLicense, VerifyAccess};
use crate::derivation::publisher_address;
use crate::error::ErrorCode;
use crate::guarantees::{purchase_moves_price_and_seat, registration_reads_back, revocation_takes_seat};
use crate::ledger::Ledger;
use crate::publisher::Publisher;
use crate::rules::{
    after_initialize, after_purchase, after_revoke, initialize_outcome, purchase_accounts_bound,
    purchase_outcome, revoke_accounts_bound, revoke_outcome, verify_outcome,
};
use vstd::prelude::*;

verus! {

/// Registers a publisher: stores, at the address derived from the publisher,
/// a record with the publisher, the license's token type, the price, and no
/// subscribers. No payment is taken.
///
/// Refused with `Unauthorized` where the publisher did not sign, with
/// `AccountBindingMismatch` where the record's address is not the derived
/// one, and with `AlreadyInitialized` where the publisher is registered
/// already.
pub fn initialize(ledger: &mut Ledger, ctx: Initialize, license_price: u64) -> (result: Result<
    (),
    ErrorCode,
>)
    ensures
        result == initialize_outcome(old(ledger)@, ctx),
        final(ledger)@ == after_initialize(old(ledger)@, ctx, license_price),
        result is Ok ==> {
            &&& final(ledger)@.publishers.contains_key(ctx.publisher)
            &&& final(ledger)@.publishers[ctx.publisher].total_subscribers == 0
            &&& final(ledger)@.publishers[ctx.publisher].license_price == license_price
        },
        result is Err ==> final(ledger)@ == old(ledger)@,
{
    if !ctx.authority.is_signer {
        return Err(ErrorCode::Unauthorized);
    }
    let program_id = ledger.program_id();
    match publisher_address(&program_id, &ctx.authority.key) {
        Some(derived) => {
            if !derived.same(&ctx.publisher) {
                return Err(ErrorCode::AccountBindingMismatch);
            }
        },
        None => {
            return Err(ErrorCode::AccountBindingMismatch);
        },
    }
    if ledger.publisher(&ctx.publisher).is_some() {
        return Err(ErrorCode::AlreadyInitialized);
    }
    proof {
        registration_reads_back(ledger@, ctx, license_price);
    }
    ledger.store_publisher(
        ctx.publisher,
        Publisher::new(ctx.authority.key, ctx.license_mint, license_price),
    );
    Ok(())
}

/// Sells one license: the subscriber pays the record's price to the
/// publisher, one token of the license's type is minted to the subscriber's
/// balance account, which is created if it was not there, and the counter
/// goes up by one. A subscriber who holds a license already may buy another.
///
/// Refused with `Unauthorized` where the subscriber did not sign or the token
/// type's mint authority is not the publisher's record address, with
/// `AccountBindingMismatch` where an account named is not the one that
/// belongs to the publisher, the token type and the subscriber, with
/// `InsufficientFunds` where the subscriber holds less than the price, and
/// with `MathOverflow` where the publisher's balance, the subscriber's token
/// balance or the counter has no room.
pub fn purchase_license(ledger: &mut Ledger, ctx: PurchaseLicense) -> (result: Result<(), ErrorCode>)
    ensures
        result == purchase_outcome(old(ledger)@, ctx),
        final(ledger)@ == after_purchase(old(ledger)@, ctx),
        result is Ok ==> {
            let price = old(ledger)@.publishers[ctx.publisher].license_price;
            &&& ctx.subscriber.key != ctx.authority ==> final(ledger)@.balance(ctx.subscriber.key)
                == old(ledger)@.balance(ctx.subscriber.key) - price
            &&& ctx.subscriber.key != ctx.authority ==> final(ledger)@.balance(ctx.authority)
                == old(ledger)@.balance(ctx.authority) + price
            &&& final(ledger)@.token_balance(ctx.subscriber_token_account) == old(
                ledger,
            )@.token_balance(ctx.subscriber_token_account) + 1
            &&& final(ledger)@.publishers[ctx.publisher].total_subscribers == old(
                ledger,
            )@.publishers[ctx.publisher].total_subscribers + 1
        },
        result is Err ==> final(ledger)@ == old(ledger)@,
        ctx.subscriber.is_signer && purchase_accounts_bound(old(ledger)@, ctx) && old(
            ledger,
        )@.balance(ctx.subscriber.key) < old(ledger)@.publishers[ctx.publisher].license_price
            ==> result == Err::<(), ErrorCode>(ErrorCode::InsufficientFunds),
{
    if !ctx.subscriber.is_signer {
        return Err(ErrorCode::Unauthorized);
    }
    let record = match ledger.bound_publisher(&ctx.publisher, &ctx.authority, &ctx.license_mint) {
        Some(record) => record,
        None => {
            return Err(ErrorCode::AccountBindingMismatch);
        },
    };
    let mint_authority = match ledger.mint_authority(&ctx.license_mint) {
        Some(mint_authority) => mint_authority,
        None => {
            return Err(ErrorCode::AccountBindingMismatch);
        },
    };
    let held = match ledger.bound_token_balance(
        &ctx.subscriber_token_account,
        &ctx.subscriber.key,
        &ctx.license_mint,
    ) {
        Some(held) => held,
        None => {
            return Err(ErrorCode::AccountBindingMismatch);
        },
    };
    let price = record.license_price;
    if ledger.balance(&ctx.subscriber.key) < price {
        return Err(ErrorCode::InsufficientFunds);
    }
    if !ctx.authority.same(&ctx.subscriber.key) && ledger.balance(&ctx.authority).checked_add(
        price,
    ).is_none() {
        return Err(ErrorCode::MathOverflow);
    }
    if !mint_authority.same(&ctx.publisher) {
        return Err(ErrorCode::Unauthorized);
    }
    if held == u64::MAX {
        return Err(ErrorCode::MathOverflow);
    }
    let mut counted = record;
    match counted.record_issuance() {
        Ok(()) => {},
        Err(error) => {
            return Err(error);
        },
    }
    proof {
        purchase_moves_price_and_seat(ledger@, ctx);
    }
    ledger.pay(ctx.subscriber.key, ctx.authority, price);
    ledger.mint_one(ctx.subscriber_token_account, ctx.subscriber.key, ctx.license_mint);
    ledger.store_publisher(ctx.publisher, counted);
    Ok(())
}

/// Takes one license back: one token is burnt from the subscriber's balance
/// account, on the subscriber's own signature, and the counter goes down by
/// one. The balance account stays, even when it is left empty.
///
/// Refused with `Unauthorized` where the subscriber did not sign, with
/// `AccountBindingMismatch` where an account named is not the one that
/// belongs to the publisher, the token type and the subscriber, with
/// `CounterUnderflow` where the counter is zero, and with
/// `InsufficientFunds` where the counter is not zero but the subscriber
/// holds no token.
pub fn revoke_license(ledger: &mut Ledger, ctx: RevokeLicense) -> (result: Result<(), ErrorCode>)
    ensures
        result == revoke_outcome(old(ledger)@, ctx),
        final(ledger)@ == after_revoke(old(ledger)@, ctx),
        result is Ok ==> {
            &&& final(ledger)@.token_balance(ctx.subscriber_token_account) == old(
                ledger,
            )@.token_balance(ctx.subscriber_token_account) - 1
            &&& final(ledger)@.publishers[ctx.publisher].total_subscribers == old(
                ledger,
            )@.publishers[ctx.publisher].total_subscribers - 1
        },
        result is Err ==> final(ledger)@ == old(ledger)@,
        ctx.subscriber.is_signer && revoke_accounts_bound(old(ledger)@, ctx) && old(
            ledger,
        )@.publishers[ctx.publisher].total_subscribers == 0 ==> result == Err::<(), ErrorCode>(
            ErrorCode::CounterUnderflow,
        ),
{
    if !ctx.subscriber.is_signer {
        return Err(ErrorCode::Unauthorized);
    }
    let record = match ledger.bound_publisher(&ctx.publisher, &ctx.authority, &ctx.license_mint) {
        Some(record) => record,
        None => {
            return Err(ErrorCode::AccountBindingMismatch);
        },
    };
    let held = match ledger.bound_token_balance(
        &ctx.subscriber_token_account,
        &ctx.subscriber.key,
        &ctx.license_mint,
    ) {
        Some(held) => held,
        None => {
            return Err(ErrorCode::AccountBindingMismatch);
        },
    };
    let mut counted = record;
    match counted.record_revocation() {
        Ok(()) => {},
        Err(error) => {
            return Err(error);
        },
    }
    if held == 0 {
        return Err(ErrorCode::InsufficientFunds);
    }
    proof {
        revocation_takes_seat(ledger@, ctx);
    }
    ledger.burn_one(ctx.subscriber_token_account);
    ledger.store_publisher(ctx.publisher, counted);
    Ok(())
}

/// Whether the subscriber holds a license of the publisher: `true` exactly
/// when the subscriber's balance of the license's token type is above zero.
/// Reads only, and asks for no signature. A subscriber without a license,
/// or one whose balance account was never created, gets `false`, not an
/// error.
///
/// Refused with `AccountBindingMismatch` where an account named is not the
/// one that belongs to the publisher, the token type and the subscriber.
pub fn verify_access(ledger: &Ledger, ctx: VerifyAccess) -> (result: Result<bool, ErrorCode>)
    ensures
        result == verify_outcome(ledger@, ctx),
        result matches Ok(access) ==> access == (ledger@.token_balance(
            ctx.subscriber_token_account,
        ) > 0),
{
    if ledger.bound_publisher(&ctx.publisher, &ctx.authority, &ctx.license_mint).is_none() {
        return Err(ErrorCode::AccountBindingMismatch);
    }
    match ledger.bound_token_balance(
        &ctx.subscriber_token_account,
        &ctx.subscriber,
        &ctx.license_mint,
    ) {
        Some(held) => Ok(held > 0),
        None => Err(ErrorCode::AccountBindingMismatch),
    }
}

} // verus!
