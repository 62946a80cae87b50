//! The metadata that the verifier contract is given, and the ways in which
//! building it can fail.

use crate::checkpoint::{QuorumCheckpoint, QuorumCheckpointView};
use crate::merkle::{MerkleProof, MerkleProofView, ProofError};
use crate::primitives::H256;
use vstd::prelude::*;

verus! {

/// One field of the metadata that a verifier contract expects. A scheme
/// fixes which fields it sends, and in which order.
#[derive(Clone, Copy, Debug, PartialEq, Eq, Structural)]
pub enum MetadataToken {
    /// The root of the signed checkpoint.
    CheckpointMerkleRoot,
    /// The index of the signed checkpoint.
    CheckpointIndex,
    /// The address of the tree hook that the checkpoint was taken from.
    CheckpointMerkleTreeHook,
    /// The identifier of the message at the checkpoint's index.
    MessageId,
    /// The sibling path of the message's leaf.
    MerkleProof,
    /// The leaf index of the message.
    MessageMerkleLeafIndex,
    /// The validators' signatures.
    Signatures,
}

/// A message sent from the origin domain to the destination domain.
#[derive(Clone, Debug, PartialEq, Eq)]
pub struct Message {
    pub id: H256,
    pub origin: u32,
    pub destination: u32,
    pub body: Vec<u8>,
}

impl Message {
    /// The identifier of the message.
    pub fn id(&self) -> (id: H256)
        ensures
            id == self.id,
    {
        self.id
    }
}

/// What the verifier contract needs to accept a message: a checkpoint that
/// a quorum has signed, the message's leaf index, and, for the schemes
/// that prove membership, the merkle proof of that leaf.
#[derive(Clone, Debug, PartialEq, Eq)]
pub struct MultisigMetadata {
    pub checkpoint: QuorumCheckpoint,
    pub merkle_leaf_index: u32,
    pub merkle_proof: Option<MerkleProof>,
}

/// What a [`MultisigMetadata`] states.
pub struct MultisigMetadataView {
    pub checkpoint: QuorumCheckpointView,
    pub merkle_leaf_index: u32,
    pub merkle_proof: Option<MerkleProofView>,
}

impl View for MultisigMetadata {
    type V = MultisigMetadataView;

    open spec fn view(&self) -> MultisigMetadataView {
        MultisigMetadataView {
            checkpoint: self.checkpoint@,
            merkle_leaf_index: self.merkle_leaf_index,
            merkle_proof: match self.merkle_proof {
                Some(found) => Some(found@),
                None => None,
            },
        }
    }
}

impl MultisigMetadata {
    /// Puts the three parts together.
    pub fn new(
        checkpoint: QuorumCheckpoint,
        merkle_leaf_index: u32,
        merkle_proof: Option<MerkleProof>,
    ) -> (out: Self)
        ensures
            out == (MultisigMetadata { checkpoint, merkle_leaf_index, merkle_proof }),
    {
        MultisigMetadata { checkpoint, merkle_leaf_index, merkle_proof }
    }
}

/// The operation that a [`MetadataError`] reports on, for the operator's
/// eyes: one fixed text for every failure of this scheme.
pub const ERROR_CONTEXT: &'static str = "fetching merkle-root multisig metadata";

/// A failure that ends an attempt to build metadata: something is broken
/// or out of reach, as opposed to not there yet. Each failure carries its
/// cause; where the cause lies with a collaborator, it is the
/// collaborator's own account of it.
#[derive(Clone, Debug, PartialEq, Eq)]
pub enum MetadataError {
    /// The local tree index could not be asked for the message's leaf.
    LeafIndexLookup(String),
    /// The checkpoint storage could not be searched.
    CheckpointFetch(String),
    /// No proof could be made against the checkpoint that was found.
    ProofGeneration(ProofError),
    /// The verifier contract could not be asked for its validators.
    ValidatorRegistry(String),
}

impl MetadataError {
    /// The operation that failed: [`ERROR_CONTEXT`].
    pub fn context(&self) -> (label: &'static str)
        ensures
            label == ERROR_CONTEXT,
    {
        ERROR_CONTEXT
    }
}

/// What `outcome` states: the view of the metadata, nothing, or the error.
pub open spec fn outcome_view(outcome: Result<Option<MultisigMetadata>, MetadataError>) -> Result<
    Option<MultisigMetadataView>,
    MetadataError,
> {
    match outcome {
        Ok(Some(metadata)) => Ok(Some(metadata@)),
        Ok(None) => Ok(None),
        Err(e) => Err(e),
    }
}

} // verus!
