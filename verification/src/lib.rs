//! Merkle-root multisig metadata: the attestation data that lets a
//! destination-chain verifier contract accept a cross-chain message.
//!
//! A message is authentic when validators whose weights sum to a threshold
//! have signed a checkpoint of the origin chain's merkle tree that covers
//! the message's leaf. The metadata names such a checkpoint, carries the
//! signatures, and proves that the leaf lies under the checkpoint's root.
//!
//! - [`primitives`]: fixed-width byte values.
//! - [`hash`]: Keccak-256, the tree's hash.
//! - [`merkle`]: the tree, proofs of membership, and their replay.
//! - [`checkpoint`], [`validator`]: checkpoints, attestations, validator
//!   sets.
//! - [`syncer`]: the locator of the quorum checkpoint in a range.
//! - [`tree_index`]: the local index of the tree.
//! - [`metadata`]: the metadata and the failures.
//! - [`fetch`]: the decisions of one attempt, step by step.
//! - [`builder`]: the builder, which puts the parts together.

pub mod builder;
pub mod checkpoint;
pub mod fetch;
pub mod hash;
pub mod merkle;
pub mod metadata;
pub mod primitives;
pub mod syncer;
pub mod tree_index;
pub mod validator;
