//! The decisions of one attempt to build merkle-root multisig metadata.
//!
//! The attempt asks up to four questions, each of which depends on the
//! answer to the one before: how far the tree is known, which leaf the
//! message has, which checkpoint in between a quorum has signed, and what
//! the proof against that checkpoint is. Whoever drives the attempt gets
//! the answers, from wherever they come; [`FetchState::advance`] decides
//! what follows from each. An answer of "nothing yet" ends the attempt
//! with `Ok(None)`; a failure ends it with an error.

use crate::checkpoint::{Checkpoint, QuorumCheckpoint};
use crate::merkle::{MerkleProof, ProofError};
use crate::metadata::{MetadataError, MultisigMetadata};
use crate::primitives::H256;
use vstd::prelude::*;

verus! {

/// How far an attempt has come.
#[derive(Debug, PartialEq, Eq)]
pub enum FetchState {
    /// Waiting to learn the highest leaf index that is known locally.
    AwaitingHighestLeafIndex { message_id: H256 },
    /// Waiting to learn the leaf index of the message.
    AwaitingLeafIndex { message_id: H256, highest_leaf_index: u32 },
    /// Waiting for a quorum checkpoint between the message's leaf and the
    /// highest known leaf.
    AwaitingCheckpoint { leaf_index: u32, highest_leaf_index: u32 },
    /// Waiting for the proof of the message's leaf against the checkpoint.
    AwaitingProof { leaf_index: u32, checkpoint: QuorumCheckpoint },
    /// The attempt is over, with this outcome.
    Finished(Result<Option<MultisigMetadata>, MetadataError>),
}

/// What the driver of an attempt is to do next.
#[derive(Clone, Copy, Debug, PartialEq, Eq)]
pub enum FetchAction {
    /// Ask the local tree index for the highest known leaf index.
    QueryHighestLeafIndex,
    /// Ask the local tree index for the leaf index of this message.
    QueryLeafIndex { message_id: H256 },
    /// Ask the locator for a quorum checkpoint with an index in
    /// `low..=high`.
    FetchCheckpointInRange { low: u32, high: u32 },
    /// Ask the proof generator for the proof of this leaf against this
    /// checkpoint.
    ComputeProof { leaf_index: u32, checkpoint: Checkpoint },
    /// Hand the outcome back: the attempt is over.
    Return,
}

/// An answer that the driver brings back.
#[derive(Debug, PartialEq, Eq)]
pub enum FetchEvent {
    /// The highest known leaf index; `None` while the tree is not synced.
    HighestLeafIndex(Option<u32>),
    /// The leaf index of the message; `Ok(None)` while the message has not
    /// been inserted into the tree.
    LeafIndex(Result<Option<u32>, String>),
    /// The quorum checkpoint; `Ok(None)` while there is none in the range.
    CheckpointInRange(Result<Option<QuorumCheckpoint>, String>),
    /// The proof.
    Proof(Result<MerkleProof, ProofError>),
}

impl FetchState {
    /// The state in which an attempt for the message `message_id` begins.
    pub open spec fn initial(message_id: H256) -> FetchState {
        FetchState::AwaitingHighestLeafIndex { message_id }
    }

    /// What is to be done in this state.
    pub open spec fn action(self) -> FetchAction {
        match self {
            FetchState::AwaitingHighestLeafIndex { .. } => FetchAction::QueryHighestLeafIndex,
            FetchState::AwaitingLeafIndex { message_id, .. } => FetchAction::QueryLeafIndex {
                message_id,
            },
            FetchState::AwaitingCheckpoint {
                leaf_index,
                highest_leaf_index,
            } => FetchAction::FetchCheckpointInRange { low: leaf_index, high: highest_leaf_index },
            FetchState::AwaitingProof { leaf_index, checkpoint } => FetchAction::ComputeProof {
                leaf_index,
                checkpoint: checkpoint.checkpoint,
            },
            FetchState::Finished(_) => FetchAction::Return,
        }
    }

    /// The state that follows when `event` arrives in this state. An
    /// answer to a question that is not pending changes nothing.
    pub open spec fn after(self, event: FetchEvent) -> FetchState {
        match self {
            FetchState::AwaitingHighestLeafIndex { message_id } => match event {
                FetchEvent::HighestLeafIndex(Some(highest_leaf_index)) => {
                    FetchState::AwaitingLeafIndex { message_id, highest_leaf_index }
                },
                FetchEvent::HighestLeafIndex(None) => FetchState::Finished(Ok(None)),
                _ => self,
            },
            FetchState::AwaitingLeafIndex { message_id, highest_leaf_index } => match event {
                FetchEvent::LeafIndex(Ok(Some(leaf_index))) => FetchState::AwaitingCheckpoint {
                    leaf_index,
                    highest_leaf_index,
                },
                FetchEvent::LeafIndex(Ok(None)) => FetchState::Finished(Ok(None)),
                FetchEvent::LeafIndex(Err(cause)) => FetchState::Finished(
                    Err(MetadataError::LeafIndexLookup(cause)),
                ),
                _ => self,
            },
            FetchState::AwaitingCheckpoint { leaf_index, highest_leaf_index } => match event {
                FetchEvent::CheckpointInRange(Ok(Some(checkpoint))) => FetchState::AwaitingProof {
                    leaf_index,
                    checkpoint,
                },
                FetchEvent::CheckpointInRange(Ok(None)) => FetchState::Finished(Ok(None)),
                FetchEvent::CheckpointInRange(Err(cause)) => FetchState::Finished(
                    Err(MetadataError::CheckpointFetch(cause)),
                ),
                _ => self,
            },
            FetchState::AwaitingProof { leaf_index, checkpoint } => match event {
                FetchEvent::Proof(Ok(merkle_proof)) => FetchState::Finished(
                    Ok(
                        Some(
                            MultisigMetadata {
                                checkpoint,
                                merkle_leaf_index: leaf_index,
                                merkle_proof: Some(merkle_proof),
                            },
                        ),
                    ),
                ),
                FetchEvent::Proof(Err(e)) => FetchState::Finished(
                    Err(MetadataError::ProofGeneration(e)),
                ),
                _ => self,
            },
            FetchState::Finished(_) => self,
        }
    }

    /// The outcome, once the attempt is over.
    pub open spec fn outcome(self) -> Option<Result<Option<MultisigMetadata>, MetadataError>> {
        match self {
            FetchState::Finished(outcome) => Some(outcome),
            _ => None,
        }
    }

    /// Begins an attempt for the message `message_id`.
    pub fn start(message_id: H256) -> (out: (FetchState, FetchAction))
        ensures
            out.0 == FetchState::initial(message_id),
            out.1 == out.0.action(),
    {
        (FetchState::AwaitingHighestLeafIndex { message_id }, FetchAction::QueryHighestLeafIndex)
    }

    /// What is to be done in this state.
    pub fn pending_action(&self) -> (action: FetchAction)
        ensures
            action == self.action(),
    {
        match self {
            FetchState::AwaitingHighestLeafIndex { .. } => FetchAction::QueryHighestLeafIndex,
            FetchState::AwaitingLeafIndex { message_id, .. } => FetchAction::QueryLeafIndex {
                message_id: *message_id,
            },
            FetchState::AwaitingCheckpoint {
                leaf_index,
                highest_leaf_index,
            } => FetchAction::FetchCheckpointInRange { low: *leaf_index, high: *highest_leaf_index },
            FetchState::AwaitingProof { leaf_index, checkpoint } => FetchAction::ComputeProof {
                leaf_index: *leaf_index,
                checkpoint: checkpoint.checkpoint,
            },
            FetchState::Finished(_) => FetchAction::Return,
        }
    }

    /// Takes the answer `event` and decides how the attempt goes on: the
    /// next state, and what is to be done in it.
    pub fn advance(self, event: FetchEvent) -> (out: (FetchState, FetchAction))
        ensures
            out.0 == self.after(event),
            out.1 == out.0.action(),
    {
        let next: FetchState = match self {
            FetchState::AwaitingHighestLeafIndex { message_id } => match event {
                FetchEvent::HighestLeafIndex(Some(highest_leaf_index)) => {
                    FetchState::AwaitingLeafIndex { message_id, highest_leaf_index }
                },
                FetchEvent::HighestLeafIndex(None) => FetchState::Finished(Ok(None)),
                _ => FetchState::AwaitingHighestLeafIndex { message_id },
            },
            FetchState::AwaitingLeafIndex { message_id, highest_leaf_index } => match event {
                FetchEvent::LeafIndex(Ok(Some(leaf_index))) => FetchState::AwaitingCheckpoint {
                    leaf_index,
                    highest_leaf_index,
                },
                FetchEvent::LeafIndex(Ok(None)) => FetchState::Finished(Ok(None)),
                FetchEvent::LeafIndex(Err(cause)) => FetchState::Finished(
                    Err(MetadataError::LeafIndexLookup(cause)),
                ),
                _ => FetchState::AwaitingLeafIndex { message_id, highest_leaf_index },
            },
            FetchState::AwaitingCheckpoint { leaf_index, highest_leaf_index } => match event {
                FetchEvent::CheckpointInRange(Ok(Some(checkpoint))) => FetchState::AwaitingProof {
                    leaf_index,
                    checkpoint,
                },
                FetchEvent::CheckpointInRange(Ok(None)) => FetchState::Finished(Ok(None)),
                FetchEvent::CheckpointInRange(Err(cause)) => FetchState::Finished(
                    Err(MetadataError::CheckpointFetch(cause)),
                ),
                _ => FetchState::AwaitingCheckpoint { leaf_index, highest_leaf_index },
            },
            FetchState::AwaitingProof { leaf_index, checkpoint } => match event {
                FetchEvent::Proof(Ok(merkle_proof)) => FetchState::Finished(
                    Ok(Some(MultisigMetadata::new(checkpoint, leaf_index, Some(merkle_proof)))),
                ),
                FetchEvent::Proof(Err(e)) => FetchState::Finished(
                    Err(MetadataError::ProofGeneration(e)),
                ),
                _ => FetchState::AwaitingProof { leaf_index, checkpoint },
            },
            FetchState::Finished(outcome) => FetchState::Finished(outcome),
        };
        let action: FetchAction = next.pending_action();
        (next, action)
    }

    /// The outcome, once the attempt is over; `None` before that.
    pub fn into_outcome(self) -> (out: Option<Result<Option<MultisigMetadata>, MetadataError>>)
        ensures
            out == self.outcome(),
    {
        match self {
            FetchState::Finished(outcome) => Some(outcome),
            _ => None,
        }
    }
}

/// The outcome of an attempt, from the four answers that it may ask for.
/// Each answer counts only if the ones before it let the attempt go on.
pub open spec fn fetch_outcome(
    highest_leaf_index: Option<u32>,
    leaf_index: Result<Option<u32>, String>,
    checkpoint: Result<Option<QuorumCheckpoint>, String>,
    merkle_proof: Result<MerkleProof, ProofError>,
) -> Result<Option<MultisigMetadata>, MetadataError> {
    if highest_leaf_index is None {
        Ok(None)
    } else {
        match leaf_index {
            Err(cause) => Err(MetadataError::LeafIndexLookup(cause)),
            Ok(None) => Ok(None),
            Ok(Some(merkle_leaf_index)) => match checkpoint {
                Err(cause) => Err(MetadataError::CheckpointFetch(cause)),
                Ok(None) => Ok(None),
                Ok(Some(quorum)) => match merkle_proof {
                    Err(e) => Err(MetadataError::ProofGeneration(e)),
                    Ok(found) => Ok(
                        Some(
                            MultisigMetadata {
                                checkpoint: quorum,
                                merkle_leaf_index,
                                merkle_proof: Some(found),
                            },
                        ),
                    ),
                },
            },
        }
    }
}

/// An attempt that is given the four answers in turn ends with the outcome
/// that [`fetch_outcome`] states, for whichever message it was begun.
pub proof fn lemma_attempt_ends_with_fetch_outcome(
    message_id: H256,
    highest_leaf_index: Option<u32>,
    leaf_index: Result<Option<u32>, String>,
    checkpoint: Result<Option<QuorumCheckpoint>, String>,
    merkle_proof: Result<MerkleProof, ProofError>,
)
    ensures
        FetchState::initial(message_id).after(FetchEvent::HighestLeafIndex(highest_leaf_index)).after(
            FetchEvent::LeafIndex(leaf_index),
        ).after(FetchEvent::CheckpointInRange(checkpoint)).after(FetchEvent::Proof(merkle_proof))
            == FetchState::Finished(
            fetch_outcome(highest_leaf_index, leaf_index, checkpoint, merkle_proof),
        ),
{
}

/// A message without a recorded leaf index ends the attempt with an empty
/// success, never with an error, whatever else is known.
pub proof fn lemma_unrecorded_message_is_unavailable(
    highest_leaf_index: Option<u32>,
    checkpoint: Result<Option<QuorumCheckpoint>, String>,
    merkle_proof: Result<MerkleProof, ProofError>,
)
    ensures
        fetch_outcome(highest_leaf_index, Ok(None), checkpoint, merkle_proof) == Ok::<
            Option<MultisigMetadata>,
            MetadataError,
        >(None),
{
}

} // verus!
