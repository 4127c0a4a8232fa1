//! License gating over a ledger of accounts: a publisher registers a priced
//! license backed by a seat token, subscribers pay for a seat, give it back,
//! and anyone can ask whether a subscriber holds one.
//!
//! The ledger is the library's own: wallets with their currency, token types
//! with their mint authority, token balance accounts and publisher records,
//! each under its address. The four operations are steps on it, and each
//! either does all of its work or is refused and changes nothing. `rules`
//! says what every operation answers and leaves behind, `program` holds the
//! operations, `guarantees` and `history` prove what follows for balances,
//! counters and records.
//!
//! One thing is taken on trust: the search for a program-derived address,
//! which `derivation` hands to `anchor_lang`.

pub mod accounts;
pub mod address;
pub mod derivation;
pub mod error;
pub mod guarantees;
pub mod history;
pub mod ledger;
pub mod program;
pub mod publisher;
pub mod rules;
pub mod store;

pub use accounts::{Initialize, PurchaseLicense, RevokeLicense, Signer, TokenAccount, VerifyAccess};
pub use address::Address;
pub use error::ErrorCode;
pub use ledger::Ledger;
pub use program::{initialize, purchase_license, revoke_license, verify_access};
pub use publisher::Publisher;
