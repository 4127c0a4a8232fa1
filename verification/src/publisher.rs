//! The publisher record and the two steps of its subscriber counter.

use crate::address::Address;
use crate::error::ErrorCode;
use vstd::prelude::*;

verus! {

/// What the registry stores for one publisher.
#[derive(Clone, Copy, Debug, PartialEq, Eq)]
pub struct Publisher {
    /// The publisher: sets the price and receives the payments.
    pub authority: Address,
    /// The token type whose possession is the license.
    pub license_mint: Address,
    /// The price of one license, in the smallest unit of the currency.
    pub license_price: u64,
    /// The number of licenses issued and not retracted.
    pub total_subscribers: u64,
}

impl Publisher {
    /// The record of a publisher who has no subscribers yet.
    pub open spec fn fresh(authority: Address, license_mint: Address, license_price: u64) -> Publisher {
        Publisher { authority, license_mint, license_price, total_subscribers: 0 }
    }

    /// This record with its counter set to `count`.
    pub open spec fn with_subscribers(self, count: int) -> Publisher {
        Publisher { total_subscribers: count as u64, ..self }
    }

    /// The record of a publisher who has no subscribers yet.
    pub fn new(authority: Address, license_mint: Address, license_price: u64) -> (record: Publisher)
        ensures
            record == Publisher::fresh(authority, license_mint, license_price),
    {
        Publisher { authority, license_mint, license_price, total_subscribers: 0 }
    }

    /// Counts one more license. Refused with `MathOverflow`, the record
    /// unchanged, exactly when the counter is at its largest value.
    pub fn record_issuance(&mut self) -> (result: Result<(), ErrorCode>)
        ensures
            old(self).total_subscribers < u64::MAX ==> result is Ok && *final(self) == old(
                self,
            ).with_subscribers(old(self).total_subscribers + 1),
            old(self).total_subscribers == u64::MAX ==> result == Err::<(), ErrorCode>(
                ErrorCode::MathOverflow,
            ) && *final(self) == *old(self),
    {
        match self.total_subscribers.checked_add(1) {
            Some(count) => {
                self.total_subscribers = count;
                Ok(())
            },
            None => Err(ErrorCode::MathOverflow),
        }
    }

    /// Counts one license less. Refused with `CounterUnderflow`, the record
    /// unchanged, exactly when the counter is zero.
    pub fn record_revocation(&mut self) -> (result: Result<(), ErrorCode>)
        ensures
            old(self).total_subscribers > 0 ==> result is Ok && *final(self) == old(
                self,
            ).with_subscribers(old(self).total_subscribers - 1),
            old(self).total_subscribers == 0 ==> result == Err::<(), ErrorCode>(
                ErrorCode::CounterUnderflow,
            ) && *final(self) == *old(self),
    {
        match self.total_subscribers.checked_sub(1) {
            Some(count) => {
                self.total_subscribers = count;
                Ok(())
            },
            None => Err(ErrorCode::CounterUnderflow),
        }
    }
}

} // verus!
