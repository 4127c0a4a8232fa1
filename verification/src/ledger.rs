//! The ledger that the operations act on: currency balances, token types
//! with their mint authority, token balance accounts and publisher records,
//! each kept under the address of its account.

use crate::accounts::TokenAccount;
use crate::address::Address;
use crate::derivation::{associated_token_address, publisher_address, publisher_slot, token_account_slot};
use crate::error::ErrorCode;
use crate::publisher::Publisher;
use crate::store::AddressMap;
use vstd::prelude::*;

verus! {

/// What a ledger holds, as mathematical maps.
pub struct LedgerView {
    /// The address of the program that owns the publisher records.
    pub program_id: Address,
    /// The publisher records, each under its derived address.
    pub publishers: Map<Address, Publisher>,
    /// The currency that each wallet holds. A wallet that is not in the map
    /// holds nothing.
    pub balances: Map<Address, u64>,
    /// The token types, each with the address that may mint it.
    pub mints: Map<Address, Address>,
    /// The token balance accounts.
    pub token_accounts: Map<Address, TokenAccount>,
}

impl LedgerView {
    /// The ledger of `program_id` on which nothing has happened yet.
    pub open spec fn empty(program_id: Address) -> LedgerView {
        LedgerView {
            program_id,
            publishers: Map::empty(),
            balances: Map::empty(),
            mints: Map::empty(),
            token_accounts: Map::empty(),
        }
    }

    /// The currency that `account` holds.
    pub open spec fn balance(self, account: Address) -> u64 {
        if self.balances.contains_key(account) {
            self.balances[account]
        } else {
            0
        }
    }

    /// The tokens that the balance account `token_account` holds; none where
    /// the account was never created.
    pub open spec fn token_balance(self, token_account: Address) -> u64 {
        if self.token_accounts.contains_key(token_account) {
            self.token_accounts[token_account].amount
        } else {
            0
        }
    }

    /// The ledger after `amount` was added to what `account` holds, or the
    /// ledger as it is where the sum does not fit.
    pub open spec fn deposit(self, account: Address, amount: u64) -> LedgerView {
        if self.balance(account) + amount <= u64::MAX {
            LedgerView {
                balances: self.balances.insert(account, (self.balance(account) + amount) as u64),
                ..self
            }
        } else {
            self
        }
    }

    /// The ledger after the token type `mint` was created, to be minted by
    /// `mint_authority`, or the ledger as it is where the type exists.
    pub open spec fn create_mint(self, mint: Address, mint_authority: Address) -> LedgerView {
        if self.mints.contains_key(mint) {
            self
        } else {
            LedgerView { mints: self.mints.insert(mint, mint_authority), ..self }
        }
    }

    /// The ledger after `from` has paid `amount` to `to`.
    pub open spec fn pay(self, from: Address, to: Address, amount: u64) -> LedgerView {
        let debited = LedgerView {
            balances: self.balances.insert(from, (self.balance(from) - amount) as u64),
            ..self
        };
        LedgerView {
            balances: debited.balances.insert(to, (debited.balance(to) + amount) as u64),
            ..debited
        }
    }

    /// The ledger after one token of `mint` was minted to `token_account`,
    /// the balance account of `owner`, which is created if it was not there.
    pub open spec fn mint_one(self, token_account: Address, owner: Address, mint: Address) -> LedgerView {
        LedgerView {
            token_accounts: self.token_accounts.insert(
                token_account,
                TokenAccount { mint, owner, amount: (self.token_balance(token_account) + 1) as u64 },
            ),
            ..self
        }
    }

    /// The ledger after one token was burnt from `token_account`, which stays
    /// in place even when it is left empty.
    pub open spec fn burn_one(self, token_account: Address) -> LedgerView {
        LedgerView {
            token_accounts: self.token_accounts.insert(
                token_account,
                TokenAccount {
                    amount: (self.token_balance(token_account) - 1) as u64,
                    ..self.token_accounts[token_account]
                },
            ),
            ..self
        }
    }

    /// The ledger with `record` stored at `slot`.
    pub open spec fn with_publisher(self, slot: Address, record: Publisher) -> LedgerView {
        LedgerView { publishers: self.publishers.insert(slot, record), ..self }
    }

    /// Whether `slot` holds the record of the publisher `authority`, with
    /// `mint` as its license: the address is the one derived from the
    /// publisher, a record is stored there, and the record names both.
    pub open spec fn publisher_bound(self, slot: Address, authority: Address, mint: Address) -> bool {
        &&& publisher_slot(self.program_id, authority) == Some(slot@)
        &&& self.publishers.contains_key(slot)
        &&& self.publishers[slot].authority == authority
        &&& self.publishers[slot].license_mint == mint
    }

    /// Whether `token_account` is the balance account of `owner` for `mint`:
    /// the address is the one derived from the two, and what is stored there,
    /// if anything, names both.
    pub open spec fn token_account_bound(self, token_account: Address, owner: Address, mint: Address) -> bool {
        &&& token_account_slot(owner, mint) == Some(token_account@)
        &&& self.token_accounts.contains_key(token_account) ==> {
            &&& self.token_accounts[token_account].owner == owner
            &&& self.token_accounts[token_account].mint == mint
        }
    }
}

/// A ledger of accounts.
pub struct Ledger {
    program_id: Address,
    publishers: AddressMap<Publisher>,
    balances: AddressMap<u64>,
    mints: AddressMap<Address>,
    token_accounts: AddressMap<TokenAccount>,
}

impl View for Ledger {
    type V = LedgerView;

    closed spec fn view(&self) -> LedgerView {
        LedgerView {
            program_id: self.program_id,
            publishers: self.publishers@,
            balances: self.balances@,
            mints: self.mints@,
            token_accounts: self.token_accounts@,
        }
    }
}

impl Ledger {
    /// The ledger of `program_id` on which nothing has happened yet.
    pub fn new(program_id: Address) -> (ledger: Ledger)
        ensures
            ledger@ == LedgerView::empty(program_id),
    {
        Ledger {
            program_id,
            publishers: AddressMap::new(),
            balances: AddressMap::new(),
            mints: AddressMap::new(),
            token_accounts: AddressMap::new(),
        }
    }

    /// The address of the program that owns the publisher records.
    pub fn program_id(&self) -> (program_id: Address)
        ensures
            program_id == self@.program_id,
    {
        self.program_id
    }

    /// The currency that `account` holds.
    pub fn balance(&self, account: &Address) -> (amount: u64)
        ensures
            amount == self@.balance(*account),
    {
        match self.balances.get(account) {
            Some(amount) => amount,
            None => 0,
        }
    }

    /// The tokens that the balance account `token_account` holds.
    pub fn token_balance(&self, token_account: &Address) -> (amount: u64)
        ensures
            amount == self@.token_balance(*token_account),
    {
        match self.token_accounts.get(token_account) {
            Some(account) => account.amount,
            None => 0,
        }
    }

    /// The record stored at `slot`, if there is one.
    pub fn publisher(&self, slot: &Address) -> (record: Option<Publisher>)
        ensures
            record == (if self@.publishers.contains_key(*slot) {
                Some(self@.publishers[*slot])
            } else {
                None
            }),
    {
        self.publishers.get(slot)
    }

    /// The token balance account stored at `token_account`, if there is one.
    pub fn token_account(&self, token_account: &Address) -> (account: Option<TokenAccount>)
        ensures
            account == (if self@.token_accounts.contains_key(*token_account) {
                Some(self@.token_accounts[*token_account])
            } else {
                None
            }),
    {
        self.token_accounts.get(token_account)
    }

    /// The address that may mint the token type `mint`, if the type exists.
    pub fn mint_authority(&self, mint: &Address) -> (authority: Option<Address>)
        ensures
            authority == (if self@.mints.contains_key(*mint) {
                Some(self@.mints[*mint])
            } else {
                None
            }),
    {
        self.mints.get(mint)
    }

    /// Adds `amount` to what `account` holds. Refused with `MathOverflow`,
    /// the ledger unchanged, exactly when the sum does not fit.
    pub fn deposit(&mut self, account: Address, amount: u64) -> (result: Result<(), ErrorCode>)
        ensures
            result == (if old(self)@.balance(account) + amount <= u64::MAX {
                Ok::<(), ErrorCode>(())
            } else {
                Err::<(), ErrorCode>(ErrorCode::MathOverflow)
            }),
            final(self)@ == old(self)@.deposit(account, amount),
            result is Ok ==> final(self)@.balance(account) == old(self)@.balance(account) + amount,
            result is Err ==> final(self)@ == old(self)@,
    {
        match self.balance(&account).checked_add(amount) {
            Some(sum) => {
                self.balances.insert(account, sum);
                Ok(())
            },
            None => Err(ErrorCode::MathOverflow),
        }
    }

    /// Creates the token type `mint`, to be minted by `mint_authority`.
    /// Refused with `AlreadyInitialized`, the ledger unchanged, exactly when
    /// the type exists: a token type keeps the mint authority it was created
    /// with.
    pub fn create_mint(&mut self, mint: Address, mint_authority: Address) -> (result: Result<
        (),
        ErrorCode,
    >)
        ensures
            result == (if old(self)@.mints.contains_key(mint) {
                Err::<(), ErrorCode>(ErrorCode::AlreadyInitialized)
            } else {
                Ok::<(), ErrorCode>(())
            }),
            final(self)@ == old(self)@.create_mint(mint, mint_authority),
            result is Ok ==> final(self)@.mints[mint] == mint_authority,
            result is Err ==> final(self)@ == old(self)@,
    {
        match self.mints.get(&mint) {
            Some(_) => Err(ErrorCode::AlreadyInitialized),
            None => {
                self.mints.insert(mint, mint_authority);
                Ok(())
            },
        }
    }

    /// The record at `slot`, if `slot` holds the record of the publisher
    /// `authority` with `mint` as its license.
    pub fn bound_publisher(&self, slot: &Address, authority: &Address, mint: &Address) -> (record:
        Option<Publisher>)
        ensures
            record == (if self@.publisher_bound(*slot, *authority, *mint) {
                Some(self@.publishers[*slot])
            } else {
                None
            }),
    {
        match publisher_address(&self.program_id, authority) {
            Some(derived) => {
                if !derived.same(slot) {
                    return None;
                }
            },
            None => {
                return None;
            },
        }
        match self.publishers.get(slot) {
            Some(record) => {
                if record.authority.same(authority) && record.license_mint.same(mint) {
                    Some(record)
                } else {
                    None
                }
            },
            None => None,
        }
    }

    /// The tokens held at `token_account`, if it is the balance account of
    /// `owner` for `mint`.
    pub fn bound_token_balance(&self, token_account: &Address, owner: &Address, mint: &Address) -> (amount:
        Option<u64>)
        ensures
            amount == (if self@.token_account_bound(*token_account, *owner, *mint) {
                Some(self@.token_balance(*token_account))
            } else {
                None
            }),
    {
        match associated_token_address(owner, mint) {
            Some(derived) => {
                if !derived.same(token_account) {
                    return None;
                }
            },
            None => {
                return None;
            },
        }
        match self.token_accounts.get(token_account) {
            Some(account) => {
                if account.owner.same(owner) && account.mint.same(mint) {
                    Some(account.amount)
                } else {
                    None
                }
            },
            None => Some(0),
        }
    }

    /// Stores `record` at `slot`, in place of what was stored there: the way
    /// to bring in a record that was kept elsewhere.
    pub fn store_publisher(&mut self, slot: Address, record: Publisher)
        ensures
            final(self)@ == old(self)@.with_publisher(slot, record),
    {
        self.publishers.insert(slot, record);
    }

    /// Moves `amount` of currency from `from` to `to`.
    pub(crate) fn pay(&mut self, from: Address, to: Address, amount: u64)
        requires
            old(self)@.balance(from) >= amount,
            from != to ==> old(self)@.balance(to) + amount <= u64::MAX,
        ensures
            final(self)@ == old(self)@.pay(from, to, amount),
    {
        let remaining = self.balance(&from) - amount;
        self.store_balance(from, remaining);
        let received = self.balance(&to) + amount;
        self.store_balance(to, received);
    }

    /// Mints one token of `mint` to `token_account`, the balance account of
    /// `owner`.
    pub(crate) fn mint_one(&mut self, token_account: Address, owner: Address, mint: Address)
        requires
            old(self)@.token_balance(token_account) < u64::MAX,
        ensures
            final(self)@ == old(self)@.mint_one(token_account, owner, mint),
    {
        let amount = self.token_balance(&token_account) + 1;
        self.store_token_account(token_account, TokenAccount { mint, owner, amount });
    }

    /// Burns one token from `token_account`.
    pub(crate) fn burn_one(&mut self, token_account: Address)
        requires
            old(self)@.token_balance(token_account) > 0,
        ensures
            final(self)@ == old(self)@.burn_one(token_account),
    {
        match self.token_accounts.get(&token_account) {
            Some(account) => {
                let amount = account.amount - 1;
                self.store_token_account(
                    token_account,
                    TokenAccount { mint: account.mint, owner: account.owner, amount },
                );
            },
            None => {},
        }
    }

    /// Sets what `account` holds to `amount`.
    pub(crate) fn store_balance(&mut self, account: Address, amount: u64)
        ensures
            final(self)@ == (LedgerView {
                balances: old(self)@.balances.insert(account, amount),
                ..old(self)@
            }),
    {
        self.balances.insert(account, amount);
    }

    /// Stores `account` at `token_account`, in place of what was stored
    /// there: the way to bring in a balance that was kept elsewhere.
    pub fn store_token_account(&mut self, token_account: Address, account: TokenAccount)
        ensures
            final(self)@ == (LedgerView {
                token_accounts: old(self)@.token_accounts.insert(token_account, account),
                ..old(self)@
            }),
    {
        self.token_accounts.insert(token_account, account);
    }
}

} // verus!
