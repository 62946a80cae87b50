//! Checkpoints of the origin chain's merkle tree and what validators say of
//! them.

use crate::primitives::{Signature, H160, H256};
use vstd::prelude::*;
use vstd::std_specs::cmp::PartialEqSpecImpl;

verus! {

/// The state of the merkle tree after a leaf was inserted: `root` is the
/// root of the tree that holds the leaves `0..=index`.
#[derive(Clone, Copy, Debug)]
pub struct Checkpoint {
    pub root: H256,
    pub index: u32,
}

impl PartialEq for Checkpoint {
    /// Same root and same index.
    fn eq(&self, other: &Self) -> (r: bool) {
        self.root == other.root && self.index == other.index
    }
}

impl Eq for Checkpoint {

}

impl PartialEqSpecImpl for Checkpoint {
    open spec fn obeys_eq_spec() -> bool {
        true
    }

    open spec fn eq_spec(&self, other: &Self) -> bool {
        *self == *other
    }
}

/// One validator's attestation of a checkpoint, as it was found in the
/// storage for the lane from `origin_domain` to `destination_domain`. The
/// record is taken to be authentic: `signature` is `validator`'s signature
/// of `checkpoint`.
#[derive(Clone, Copy, Debug, PartialEq, Eq)]
pub struct SignedCheckpoint {
    pub origin_domain: u32,
    pub destination_domain: u32,
    pub checkpoint: Checkpoint,
    pub validator: H160,
    pub signature: Signature,
}

/// A checkpoint together with the signatures of validators whose weights
/// sum to the threshold weight or more.
#[derive(Clone, Debug, PartialEq, Eq)]
pub struct QuorumCheckpoint {
    pub checkpoint: Checkpoint,
    pub signatures: Vec<Signature>,
}

/// What a [`QuorumCheckpoint`] states.
pub struct QuorumCheckpointView {
    pub checkpoint: Checkpoint,
    pub signatures: Seq<Signature>,
}

impl View for QuorumCheckpoint {
    type V = QuorumCheckpointView;

    open spec fn view(&self) -> QuorumCheckpointView {
        QuorumCheckpointView { checkpoint: self.checkpoint, signatures: self.signatures@ }
    }
}

} // verus!
