//! What holds of a ledger after any run of requests: a publisher's counter
//! is the number of licenses issued less the number retracted, and a record
//! keeps the publisher, the token type and the price it was created with.

use crate::accounts::{Initialize, PurchaseLicense, RevokeLicense};
use crate::address::Address;
use crate::ledger::LedgerView;
use crate::rules::{
    after_initialize, after_purchase, after_revoke, purchase_outcome, revoke_outcome,
};
use vstd::prelude::*;

verus! {

/// One request that changes a ledger.
pub enum Request {
    Deposit { account: Address, amount: u64 },
    CreateMint { mint: Address, mint_authority: Address },
    Initialize { ctx: Initialize, license_price: u64 },
    PurchaseLicense { ctx: PurchaseLicense },
    RevokeLicense { ctx: RevokeLicense },
}

/// The ledger after one request, granted or refused.
pub open spec fn step(ledger: LedgerView, request: Request) -> LedgerView {
    match request {
        Request::Deposit { account, amount } => ledger.deposit(account, amount),
        Request::CreateMint { mint, mint_authority } => ledger.create_mint(mint, mint_authority),
        Request::Initialize { ctx, license_price } => after_initialize(ledger, ctx, license_price),
        Request::PurchaseLicense { ctx } => after_purchase(ledger, ctx),
        Request::RevokeLicense { ctx } => after_revoke(ledger, ctx),
    }
}

/// The ledger after a run of requests, the first one first.
pub open spec fn run(ledger: LedgerView, requests: Seq<Request>) -> LedgerView
    decreases requests.len(),
{
    if requests.len() == 0 {
        ledger
    } else {
        step(run(ledger, requests.drop_last()), requests.last())
    }
}

/// Whether `request`, made on `ledger`, issues a license of the publisher
/// whose record is at `slot`.
pub open spec fn issues(ledger: LedgerView, request: Request, slot: Address) -> bool {
    request matches Request::PurchaseLicense { ctx } && ctx.publisher == slot && purchase_outcome(
        ledger,
        ctx,
    ) is Ok
}

/// Whether `request`, made on `ledger`, retracts a license of the publisher
/// whose record is at `slot`.
pub open spec fn retracts(ledger: LedgerView, request: Request, slot: Address) -> bool {
    request matches Request::RevokeLicense { ctx } && ctx.publisher == slot && revoke_outcome(
        ledger,
        ctx,
    ) is Ok
}

/// The number of licenses of the publisher at `slot` that the run issues.
pub open spec fn issued(ledger: LedgerView, requests: Seq<Request>, slot: Address) -> nat
    decreases requests.len(),
{
    if requests.len() == 0 {
        0
    } else {
        let before = requests.drop_last();
        issued(ledger, before, slot) + (if issues(run(ledger, before), requests.last(), slot) {
            1nat
        } else {
            0nat
        })
    }
}

/// The number of licenses of the publisher at `slot` that the run retracts.
pub open spec fn retracted(ledger: LedgerView, requests: Seq<Request>, slot: Address) -> nat
    decreases requests.len(),
{
    if requests.len() == 0 {
        0
    } else {
        let before = requests.drop_last();
        retracted(ledger, before, slot) + (if retracts(run(ledger, before), requests.last(), slot) {
            1nat
        } else {
            0nat
        })
    }
}

/// After any run of requests on a ledger that holds a record at `slot`, the
/// record is still there, with the publisher, the token type and the price
/// it had, and its counter is what it was, plus the licenses issued, less
/// the licenses retracted.
pub proof fn counter_follows_history(ledger: LedgerView, requests: Seq<Request>, slot: Address)
    requires
        ledger.publishers.contains_key(slot),
    ensures
        ({
            let after = run(ledger, requests);
            &&& after.publishers.contains_key(slot)
            &&& after.publishers[slot].authority == ledger.publishers[slot].authority
            &&& after.publishers[slot].license_mint == ledger.publishers[slot].license_mint
            &&& after.publishers[slot].license_price == ledger.publishers[slot].license_price
            &&& after.publishers[slot].total_subscribers == ledger.publishers[slot].total_subscribers
                + issued(ledger, requests, slot) - retracted(ledger, requests, slot)
        }),
    decreases requests.len(),
{
    if requests.len() > 0 {
        counter_follows_history(ledger, requests.drop_last(), slot);
    }
}

/// After any run of requests on a ledger that holds no record at `slot`, a
/// record found there counts the licenses issued less the licenses
/// retracted; while there is none, no license was issued or retracted.
pub proof fn counter_starts_at_zero(ledger: LedgerView, requests: Seq<Request>, slot: Address)
    requires
        !ledger.publishers.contains_key(slot),
    ensures
        ({
            let after = run(ledger, requests);
            &&& retracted(ledger, requests, slot) <= issued(ledger, requests, slot)
            &&& after.publishers.contains_key(slot) ==> after.publishers[slot].total_subscribers
                == issued(ledger, requests, slot) - retracted(ledger, requests, slot)
            &&& !after.publishers.contains_key(slot) ==> issued(ledger, requests, slot) == 0
                && retracted(ledger, requests, slot) == 0
        }),
    decreases requests.len(),
{
    if requests.len() > 0 {
        counter_starts_at_zero(ledger, requests.drop_last(), slot);
    }
}

/// A token type keeps its mint authority through any run of requests.
pub proof fn mint_authority_is_kept(ledger: LedgerView, requests: Seq<Request>, mint: Address)
    requires
        ledger.mints.contains_key(mint),
    ensures
        run(ledger, requests).mints.contains_key(mint),
        run(ledger, requests).mints[mint] == ledger.mints[mint],
    decreases requests.len(),
{
    if requests.len() > 0 {
        mint_authority_is_kept(ledger, requests.drop_last(), mint);
    }
}

} // verus!
