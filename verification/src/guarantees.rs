//! What the operations guarantee, stated over the ledger's balances, token
//! balances and records, and proved from the answers and after-states that
//! the operations are held to.

use crate::accounts::{Initialize, PurchaseLicense, RevokeLicense, VerifyAccess};
use crate::address::Address;
use crate::error::ErrorCode;
use crate::ledger::LedgerView;
use crate::rules::{
    after_initialize, after_purchase, after_revoke, initialize_accounts_bound, initialize_outcome,
    purchase_accounts_bound, purchase_outcome, revoke_accounts_bound, revoke_outcome, verify_outcome,
};
use vstd::prelude::*;

verus! {

/// Whether an access check asks about the publisher and the subscriber of a
/// purchase.
pub open spec fn asks_about_purchase(check: VerifyAccess, ctx: PurchaseLicense) -> bool {
    &&& check.publisher == ctx.publisher
    &&& check.authority == ctx.authority
    &&& check.license_mint == ctx.license_mint
    &&& check.subscriber == ctx.subscriber.key
    &&& check.subscriber_token_account == ctx.subscriber_token_account
}

/// Whether an access check asks about the publisher and the subscriber of a
/// revocation.
pub open spec fn asks_about_revocation(check: VerifyAccess, ctx: RevokeLicense) -> bool {
    &&& check.publisher == ctx.publisher
    &&& check.authority == ctx.authority
    &&& check.license_mint == ctx.license_mint
    &&& check.subscriber == ctx.subscriber.key
    &&& check.subscriber_token_account == ctx.subscriber_token_account
}

/// A registration that succeeds leaves a record that reads back with the
/// publisher, the token type and the price it was given, and with no
/// subscribers. Nothing else on the ledger changes.
pub proof fn registration_reads_back(ledger: LedgerView, ctx: Initialize, license_price: u64)
    requires
        initialize_outcome(ledger, ctx) is Ok,
    ensures
        ({
            let after = after_initialize(ledger, ctx, license_price);
            &&& after.publishers.contains_key(ctx.publisher)
            &&& after.publishers[ctx.publisher].total_subscribers == 0
            &&& after.publishers[ctx.publisher].license_price == license_price
            &&& after.publishers[ctx.publisher].authority == ctx.authority.key
            &&& after.publishers[ctx.publisher].license_mint == ctx.license_mint
            &&& after.publishers.remove(ctx.publisher) == ledger.publishers
            &&& after.balances == ledger.balances
            &&& after.token_accounts == ledger.token_accounts
            &&& after.mints == ledger.mints
        }),
{
    let after = after_initialize(ledger, ctx, license_price);
    assert(after.publishers.remove(ctx.publisher) =~= ledger.publishers);
}

/// Once a publisher is registered, a second registration by the same
/// publisher, signed and naming the publisher's derived address, is refused
/// with `AlreadyInitialized`, whatever token type and price it gives, and
/// leaves what the first one stored.
pub proof fn second_registration_is_refused(
    ledger: LedgerView,
    first: Initialize,
    first_price: u64,
    second: Initialize,
    second_price: u64,
)
    requires
        initialize_outcome(ledger, first) is Ok,
        second.authority.key == first.authority.key,
        second.authority.is_signer,
        initialize_accounts_bound(ledger, second),
    ensures
        initialize_outcome(after_initialize(ledger, first, first_price), second) == Err::<
            (),
            ErrorCode,
        >(ErrorCode::AlreadyInitialized),
        after_initialize(after_initialize(ledger, first, first_price), second, second_price)
            == after_initialize(ledger, first, first_price),
{
    Address::lemma_view_injective(first.publisher, second.publisher);
}

/// A purchase that succeeds takes exactly the price from the subscriber and
/// gives exactly the price to the publisher (one who buys from themself
/// keeps what they had), adds exactly one token to the subscriber's balance
/// and exactly one to the counter. The record keeps its publisher, token
/// type and price, and nothing else on the ledger changes.
pub proof fn purchase_moves_price_and_seat(ledger: LedgerView, ctx: PurchaseLicense)
    requires
        purchase_outcome(ledger, ctx) is Ok,
    ensures
        ({
            let after = after_purchase(ledger, ctx);
            let record = ledger.publishers[ctx.publisher];
            let price = record.license_price;
            &&& ctx.subscriber.key != ctx.authority ==> after.balance(ctx.subscriber.key)
                == ledger.balance(ctx.subscriber.key) - price
            &&& ctx.subscriber.key != ctx.authority ==> after.balance(ctx.authority)
                == ledger.balance(ctx.authority) + price
            &&& ctx.subscriber.key == ctx.authority ==> after.balance(ctx.authority)
                == ledger.balance(ctx.authority)
            &&& after.token_balance(ctx.subscriber_token_account) == ledger.token_balance(
                ctx.subscriber_token_account,
            ) + 1
            &&& after.publishers[ctx.publisher] == record.with_subscribers(
                record.total_subscribers + 1,
            )
            &&& after.publishers[ctx.publisher].total_subscribers == record.total_subscribers + 1
            &&& forall|other: Address|
                other != ctx.subscriber.key && other != ctx.authority ==> #[trigger] after.balance(
                    other,
                ) == ledger.balance(other)
            &&& forall|other: Address|
                other != ctx.subscriber_token_account ==> #[trigger] after.token_balance(other)
                    == ledger.token_balance(other)
            &&& after.publishers.remove(ctx.publisher) == ledger.publishers.remove(ctx.publisher)
            &&& after.mints == ledger.mints
        }),
{
    let after = after_purchase(ledger, ctx);
    assert(after.publishers.remove(ctx.publisher) =~= ledger.publishers.remove(ctx.publisher));
}

/// A purchase by a subscriber who signed, naming the right accounts, but
/// holding less than the price is refused with `InsufficientFunds`; no
/// balance, no token balance and no counter changes.
pub proof fn purchase_without_funds_is_refused(ledger: LedgerView, ctx: PurchaseLicense)
    requires
        ctx.subscriber.is_signer,
        purchase_accounts_bound(ledger, ctx),
        ledger.balance(ctx.subscriber.key) < ledger.publishers[ctx.publisher].license_price,
    ensures
        purchase_outcome(ledger, ctx) == Err::<(), ErrorCode>(ErrorCode::InsufficientFunds),
        after_purchase(ledger, ctx) == ledger,
{
}

/// A revocation that succeeds takes exactly one token from the subscriber's
/// balance and exactly one from the counter. The record keeps its publisher,
/// token type and price, and nothing else on the ledger changes.
pub proof fn revocation_takes_seat(ledger: LedgerView, ctx: RevokeLicense)
    requires
        revoke_outcome(ledger, ctx) is Ok,
    ensures
        ({
            let after = after_revoke(ledger, ctx);
            let record = ledger.publishers[ctx.publisher];
            &&& after.token_balance(ctx.subscriber_token_account) == ledger.token_balance(
                ctx.subscriber_token_account,
            ) - 1
            &&& after.publishers[ctx.publisher] == record.with_subscribers(
                record.total_subscribers - 1,
            )
            &&& after.publishers[ctx.publisher].total_subscribers == record.total_subscribers - 1
            &&& after.token_accounts.contains_key(ctx.subscriber_token_account)
            &&& forall|other: Address|
                other != ctx.subscriber_token_account ==> #[trigger] after.token_balance(other)
                    == ledger.token_balance(other)
            &&& after.publishers.remove(ctx.publisher) == ledger.publishers.remove(ctx.publisher)
            &&& after.balances == ledger.balances
            &&& after.mints == ledger.mints
        }),
{
    let after = after_revoke(ledger, ctx);
    assert(after.publishers.remove(ctx.publisher) =~= ledger.publishers.remove(ctx.publisher));
}

/// A revocation by a subscriber who signed, naming the right accounts, while
/// the counter is zero is refused with `CounterUnderflow`, whatever the
/// subscriber holds; no token is burnt and nothing else changes.
pub proof fn revocation_at_zero_is_refused(ledger: LedgerView, ctx: RevokeLicense)
    requires
        ctx.subscriber.is_signer,
        revoke_accounts_bound(ledger, ctx),
        ledger.publishers[ctx.publisher].total_subscribers == 0,
    ensures
        revoke_outcome(ledger, ctx) == Err::<(), ErrorCode>(ErrorCode::CounterUnderflow),
        after_revoke(ledger, ctx) == ledger,
{
}

/// Right after a purchase that succeeds, an access check about the same
/// publisher and subscriber answers `true`.
pub proof fn access_follows_purchase(ledger: LedgerView, ctx: PurchaseLicense, check: VerifyAccess)
    requires
        purchase_outcome(ledger, ctx) is Ok,
        asks_about_purchase(check, ctx),
    ensures
        verify_outcome(after_purchase(ledger, ctx), check) == Ok::<bool, ErrorCode>(true),
{
}

/// Right after a revocation that succeeds and takes the subscriber's last
/// token, an access check about the same publisher and subscriber answers
/// `false`.
pub proof fn access_ends_with_last_seat(ledger: LedgerView, ctx: RevokeLicense, check: VerifyAccess)
    requires
        revoke_outcome(ledger, ctx) is Ok,
        ledger.token_balance(ctx.subscriber_token_account) == 1,
        asks_about_revocation(check, ctx),
    ensures
        verify_outcome(after_revoke(ledger, ctx), check) == Ok::<bool, ErrorCode>(false),
{
}

/// An access check never fails for want of a license: whenever it names the
/// right accounts it answers, and the answer is whether the subscriber holds
/// at least one token.
pub proof fn access_is_possession(ledger: LedgerView, check: VerifyAccess)
    ensures
        verify_outcome(ledger, check) is Ok <==> ledger.publisher_bound(
            check.publisher,
            check.authority,
            check.license_mint,
        ) && ledger.token_account_bound(
            check.subscriber_token_account,
            check.subscriber,
            check.license_mint,
        ),
        verify_outcome(ledger, check) is Ok ==> verify_outcome(ledger, check) == Ok::<
            bool,
            ErrorCode,
        >(ledger.token_balance(check.subscriber_token_account) > 0),
{
}

} // verus!
