//! Confidential-asset accounting on a resource-accounted ledger.
//!
//! Three subsystems share one encrypted-arithmetic service: a token ledger
//! whose balances are opaque encrypted handles (`token`), an order-matching
//! engine that escrows and settles encrypted amounts (`orderbook`), and a
//! shielded note pool that hides transfer graphs behind commitments and
//! nullifiers (`shielded`).
//!
//! The external collaborators — the encrypted-arithmetic service, the
//! succinct-proof verifier, and the address-unique accumulator — are held at
//! their interfaces: `cipher::CipherEngine` and `shielded::Accumulator` state
//! exactly what each call returns, and every rule this crate enforces on top
//! of them is proved.

pub mod associated_token;
pub mod cipher;
pub mod matching;
pub mod memo;
pub mod orderbook;
pub mod shielded;
pub mod token;
pub mod token_2022;
pub mod errors;
pub mod types;
pub mod wrap;
