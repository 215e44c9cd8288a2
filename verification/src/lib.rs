//! Sizing, validation, rollover-fee derivation and one-shot initialization of
//! a batched address Merkle tree account: a Merkle-tree-backed record of an
//! append-only set of addresses, organized into fixed-size batches so that a
//! succinct proof system can verify updates.
//!
//! The crate derives the exact byte length such an account needs from its
//! batching, bloom-filter and root-history parameters, enforces the
//! cross-field invariants that keep the tree provable, computes the
//! per-operation fee that funds the tree's eventual rollover, and writes the
//! initial account representation into a caller-provided buffer.

pub mod constants;
pub mod errors;
pub mod fee;
pub mod metadata;
pub mod params;
pub mod pubkey;
pub mod serialize;
pub mod size;
pub mod tree;
pub mod validate;
