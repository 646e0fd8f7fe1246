//! Compliance accounting engine for a tokenized security.
//!
//! The library tracks which wallets may hold a regulated asset and what
//! accounting changes each authorized mutation produces:
//!
//! * role-based access control over a four-bit permission mask
//!   ([`roles`]), and the mint authorization it gates ([`asset`]),
//! * the holder / group / holder-group / security-associated-account data
//!   graph with its counter invariants ([`restrictions`], [`graph_laws`]),
//! * a Merkle-committed dividend distributor with replay-safe claims
//!   ([`merkle`], [`distributor`], [`reclaimer`]),
//! * signer-hash derivation for escrow authorities ([`signer_hash`]).
//!
//! Every public operation is total over the states its `requires` admits:
//! it either applies all of its updates or returns an error and changes
//! nothing.  Token movement, account allocation and freeze side effects are
//! the host's business; the library only decides whether an operation is
//! authorized and what the resulting ledger state is.

pub mod keys;
pub mod errors;
pub mod roles;
pub mod asset;
pub mod restrictions;
pub mod graph_laws;
pub mod merkle;
pub mod distributor;
pub mod reclaimer;
pub mod signer_hash;
