//! The builder of merkle-root multisig metadata.

use crate::checkpoint::{Checkpoint, SignedCheckpoint};
use crate::fetch::{FetchAction, FetchEvent, FetchState};
use crate::merkle::{
    branch_root, get_proof_spec, lemma_proof_round_trip, proof_outcome_view, MerkleProof,
    MerkleTree, ProofError,
};
use crate::metadata::{
    outcome_view, Message, MetadataError, MetadataToken, MultisigMetadata, MultisigMetadataView,
};
use crate::primitives::H256;
use crate::syncer::{lemma_located_qualifies, locate, MultisigCheckpointSyncer, RangeQuery};
use crate::tree_index::{leaf_index_of, LocalTreeIndex};
use crate::validator::{
    unit_validator_requirements, unit_weighted, UnitValidatorReport, ValidatorWithWeight, Weight,
};
use vstd::prelude::*;

verus! {

/// What every metadata builder for messages on one lane works from: the
/// two domains, the local index of the origin chain's tree, and the tree
/// data that proofs are made from.
#[derive(Clone, Debug)]
pub struct MessageMetadataBuilder {
    pub origin_domain: u32,
    pub destination_domain: u32,
    pub tree_index: LocalTreeIndex,
    pub prover: MerkleTree,
}

impl MessageMetadataBuilder {
    /// Puts the parts together.
    pub fn new(
        origin_domain: u32,
        destination_domain: u32,
        tree_index: LocalTreeIndex,
        prover: MerkleTree,
    ) -> (out: Self)
        ensures
            out == (MessageMetadataBuilder { origin_domain, destination_domain, tree_index, prover }),
    {
        MessageMetadataBuilder { origin_domain, destination_domain, tree_index, prover }
    }

    /// The domain that messages come from.
    pub fn origin_domain(&self) -> (domain: u32)
        ensures
            domain == self.origin_domain,
    {
        self.origin_domain
    }

    /// The domain that messages go to.
    pub fn destination_domain(&self) -> (domain: u32)
        ensures
            domain == self.destination_domain,
    {
        self.destination_domain
    }

    /// The highest leaf index that is known locally.
    pub fn highest_known_leaf_index(&self) -> (highest: Option<u32>)
        ensures
            highest == self.tree_index.highest(),
    {
        self.tree_index.highest_known_leaf_index()
    }

    /// The leaf index recorded for the message `message_id`, if any.
    pub fn get_merkle_leaf_id_by_message_id(&self, message_id: H256) -> (found: Option<u32>)
        ensures
            found == leaf_index_of(self.tree_index.insertions(), message_id),
    {
        self.tree_index.leaf_index_for_message_id(&message_id)
    }

    /// The proof that leaf `leaf_index` belongs to the tree that
    /// `checkpoint` commits to. A proof that comes back leads to
    /// `checkpoint.root`.
    pub fn get_proof(&self, leaf_index: u32, checkpoint: Checkpoint) -> (r: Result<
        MerkleProof,
        ProofError,
    >)
        ensures
            proof_outcome_view(r) == get_proof_spec(
                self.prover@,
                leaf_index,
                checkpoint.index,
                checkpoint.root@,
            ),
            r matches Ok(found) ==> found@.root() == checkpoint.root@,
    {
        self.prover.get_proof(leaf_index, checkpoint.index, &checkpoint.root)
    }
}

/// The fields that the merkle-root scheme sends, in the order in which the
/// verifier contract reads them.
pub open spec fn merkle_root_token_layout() -> Seq<MetadataToken> {
    seq![
        MetadataToken::CheckpointMerkleTreeHook,
        MetadataToken::MessageMerkleLeafIndex,
        MetadataToken::MessageId,
        MetadataToken::MerkleProof,
        MetadataToken::CheckpointIndex,
        MetadataToken::Signatures,
    ]
}

/// The metadata for the message `message_id`, from what `base` knows and
/// what is `published`: nothing while the tree is not synced, while the
/// message has no leaf, or while no checkpoint between the message's leaf
/// and the highest known leaf has a quorum; else the quorum checkpoint of
/// the smallest index with the proof against it, or the reason why there
/// is no such proof.
pub open spec fn fetch_metadata_spec(
    base: MessageMetadataBuilder,
    validators: Seq<ValidatorWithWeight>,
    threshold_weight: Weight,
    message_id: H256,
    published: Seq<SignedCheckpoint>,
) -> Result<Option<MultisigMetadataView>, MetadataError> {
    match base.tree_index.highest() {
        None => Ok(None),
        Some(highest_leaf_index) => match leaf_index_of(base.tree_index.insertions(), message_id) {
            None => Ok(None),
            Some(leaf_index) => match locate(
                published,
                RangeQuery {
                    validators,
                    threshold_weight,
                    low: leaf_index,
                    high: highest_leaf_index,
                    origin: base.origin_domain,
                    destination: base.destination_domain,
                },
            ) {
                None => Ok(None),
                Some(quorum) => match get_proof_spec(
                    base.prover@,
                    leaf_index,
                    quorum.checkpoint.index,
                    quorum.checkpoint.root@,
                ) {
                    Err(e) => Err(MetadataError::ProofGeneration(e)),
                    Ok(found) => Ok(
                        Some(
                            MultisigMetadataView {
                                checkpoint: quorum,
                                merkle_leaf_index: leaf_index,
                                merkle_proof: Some(found),
                            },
                        ),
                    ),
                },
            },
        },
    }
}

/// A message without a recorded leaf index gets an empty success, never
/// an error.
pub proof fn lemma_unrecorded_message_fetches_nothing(
    base: MessageMetadataBuilder,
    validators: Seq<ValidatorWithWeight>,
    threshold_weight: Weight,
    message_id: H256,
    published: Seq<SignedCheckpoint>,
)
    requires
        leaf_index_of(base.tree_index.insertions(), message_id) is None,
    ensures
        fetch_metadata_spec(base, validators, threshold_weight, message_id, published) == Ok::<
            Option<MultisigMetadataView>,
            MetadataError,
        >(None),
{
}

/// Metadata that is handed out never commits to a root other than the one
/// that the quorum signed: the proof in it, replayed, reconstructs the
/// root of the signed checkpoint, and that checkpoint lies between the
/// message's leaf and the highest known leaf. Where the tree data holds
/// the message's identifier at the message's leaf, the replay from that
/// identifier, as the verifier contract makes it, reconstructs that root
/// too.
pub proof fn lemma_fetched_proof_leads_to_signed_root(
    base: MessageMetadataBuilder,
    validators: Seq<ValidatorWithWeight>,
    threshold_weight: Weight,
    message_id: H256,
    published: Seq<SignedCheckpoint>,
)
    requires
        fetch_metadata_spec(base, validators, threshold_weight, message_id, published) matches Ok(
            Some(_),
        ),
    ensures
        ({
            let metadata = fetch_metadata_spec(
                base,
                validators,
                threshold_weight,
                message_id,
                published,
            )->Ok_0->0;
            &&& metadata.merkle_proof matches Some(found)
            &&& found.root() == metadata.checkpoint.checkpoint.root@
            &&& found.index == metadata.merkle_leaf_index
            &&& Some(metadata.merkle_leaf_index) == leaf_index_of(
                base.tree_index.insertions(),
                message_id,
            )
            &&& metadata.merkle_leaf_index <= metadata.checkpoint.checkpoint.index
            &&& base.tree_index.highest() matches Some(highest)
            &&& metadata.checkpoint.checkpoint.index <= highest
            &&& base.prover@[metadata.merkle_leaf_index as int] == message_id@ ==> branch_root(
                message_id@,
                found.path,
                metadata.merkle_leaf_index as int,
            ) == metadata.checkpoint.checkpoint.root@
        }),
{
    let highest_leaf_index = base.tree_index.highest()->0;
    let leaf_index = leaf_index_of(base.tree_index.insertions(), message_id)->0;
    let query = RangeQuery {
        validators,
        threshold_weight,
        low: leaf_index,
        high: highest_leaf_index,
        origin: base.origin_domain,
        destination: base.destination_domain,
    };
    let chosen = lemma_located_qualifies(published, query);
    let quorum = locate(published, query)->0;
    lemma_proof_round_trip(base.prover@, leaf_index, quorum.checkpoint.index);
}

/// The builder of metadata for the merkle-root multisig scheme: the
/// verifier contract is shown a checkpoint that a quorum of validators has
/// signed and a merkle proof that the message's leaf lies under that
/// checkpoint's root.
#[derive(Clone, Debug)]
pub struct MerkleRootMultisigMetadataBuilder(pub MessageMetadataBuilder);

impl MerkleRootMultisigMetadataBuilder {
    /// A builder that works from `base`.
    pub fn new(base: MessageMetadataBuilder) -> (out: Self)
        ensures
            out.0 == base,
    {
        MerkleRootMultisigMetadataBuilder(base)
    }

    /// What the builder works from.
    pub fn base(&self) -> (base: &MessageMetadataBuilder)
        ensures
            *base == self.0,
    {
        &self.0
    }

    /// The fields that this scheme sends, in order.
    pub fn token_layout(&self) -> (layout: Vec<MetadataToken>)
        ensures
            layout@ == merkle_root_token_layout(),
    {
        let mut layout: Vec<MetadataToken> = Vec::with_capacity(6);
        layout.push(MetadataToken::CheckpointMerkleTreeHook);
        layout.push(MetadataToken::MessageMerkleLeafIndex);
        layout.push(MetadataToken::MessageId);
        layout.push(MetadataToken::MerkleProof);
        layout.push(MetadataToken::CheckpointIndex);
        layout.push(MetadataToken::Signatures);
        layout
    }

    /// Builds the metadata for `message`, or finds that it cannot be built
    /// yet.
    ///
    /// `Ok(None)` says "not yet": the tree is not synced, the message has
    /// no leaf, or no checkpoint between the message's leaf and the
    /// highest known leaf has been signed by a quorum. An error says that
    /// something is broken: a checkpoint with a quorum was found, but no
    /// proof against it can be made from the local tree.
    pub fn fetch_metadata(
        &self,
        validators: &[ValidatorWithWeight],
        threshold_weight: Weight,
        message: &Message,
        checkpoint_syncer: &MultisigCheckpointSyncer,
    ) -> (r: Result<Option<MultisigMetadata>, MetadataError>)
        ensures
            outcome_view(r) == fetch_metadata_spec(
                self.0,
                validators@,
                threshold_weight,
                message.id,
                checkpoint_syncer@,
            ),
            leaf_index_of(self.0.tree_index.insertions(), message.id) is None ==> r == Ok::<
                Option<MultisigMetadata>,
                MetadataError,
            >(None),
            r matches Ok(Some(metadata)) ==> metadata@.merkle_proof matches Some(found)
                && found.root() == metadata.checkpoint.checkpoint.root@,
    {
        let (state, action) = FetchState::start(message.id());
        let (state, action) = state.advance(
            FetchEvent::HighestLeafIndex(self.0.highest_known_leaf_index()),
        );
        let (state, action) = match action {
            FetchAction::QueryLeafIndex { message_id } => state.advance(
                FetchEvent::LeafIndex(Ok(self.0.get_merkle_leaf_id_by_message_id(message_id))),
            ),
            _ => (state, action),
        };
        let (state, action) = match action {
            FetchAction::FetchCheckpointInRange { low, high } => state.advance(
                FetchEvent::CheckpointInRange(
                    Ok(
                        checkpoint_syncer.fetch_checkpoint_in_range(
                            validators,
                            threshold_weight,
                            low,
                            high,
                            self.0.origin_domain(),
                            self.0.destination_domain(),
                        ),
                    ),
                ),
            ),
            _ => (state, action),
        };
        let (state, action) = match action {
            FetchAction::ComputeProof { leaf_index, checkpoint } => state.advance(
                FetchEvent::Proof(self.0.get_proof(leaf_index, checkpoint)),
            ),
            _ => (state, action),
        };
        match state.into_outcome() {
            Some(outcome) => outcome,
            None => {
                // With all four answers given, the attempt is over.
                proof {
                    assert(false);
                }
                Ok(None)
            },
        }
    }

    /// The validator set and the threshold weight that the verifier
    /// contract asks for, from the answer that the contract gave when it
    /// was asked. This scheme's contract is of the unit-weight kind: it
    /// reports addresses and a count, every validator weighs 1, and the
    /// count is the threshold weight. A contract that could not be asked
    /// is a failure, with the cause that was given.
    pub fn ism_validator_requirements(&self, reported: Result<UnitValidatorReport, String>) -> (r:
        Result<(Vec<ValidatorWithWeight>, Weight), MetadataError>)
        ensures
            reported matches Ok(report) ==> (r matches Ok(out) && out.0@ == unit_weighted(
                report.validators@,
            ) && out.1 == report.threshold),
            reported matches Err(cause) ==> r == Err::<
                (Vec<ValidatorWithWeight>, Weight),
                MetadataError,
            >(MetadataError::ValidatorRegistry(cause)),
    {
        match reported {
            Ok(report) => Ok(unit_validator_requirements(&report)),
            Err(cause) => Err(MetadataError::ValidatorRegistry(cause)),
        }
    }
}

} // verus!
