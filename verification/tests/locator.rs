use merkle_root_multisig::checkpoint::{Checkpoint, QuorumCheckpoint, SignedCheckpoint};
use merkle_root_multisig::primitives::{Signature, H160, H256};
use merkle_root_multisig::syncer::MultisigCheckpointSyncer;
use merkle_root_multisig::validator::ValidatorWithWeight;

const ORIGIN: u32 = 11;
const DESTINATION: u32 = 22;

fn address(n: u8) -> H160 {
    H160::from_bytes([n; 20])
}

fn root(n: u8) -> H256 {
    H256::from_bytes([n; 32])
}

fn signature(validator: u8, index: u32) -> Signature {
    let mut bytes = [validator; 65];
    bytes[61..65].copy_from_slice(&index.to_be_bytes());
    Signature::from_bytes(bytes)
}

fn checkpoint(index: u32) -> Checkpoint {
    Checkpoint { root: root(index as u8), index }
}

fn signed(validator: u8, index: u32) -> SignedCheckpoint {
    SignedCheckpoint {
        origin_domain: ORIGIN,
        destination_domain: DESTINATION,
        checkpoint: checkpoint(index),
        validator: address(validator),
        signature: signature(validator, index),
    }
}

fn syncer_with(records: &[SignedCheckpoint]) -> MultisigCheckpointSyncer {
    let mut syncer = MultisigCheckpointSyncer::new();
    for record in records {
        syncer.record(*record);
    }
    syncer
}

const A: u8 = 0xa1;
const B: u8 = 0xb2;
const C: u8 = 0xc3;

fn weighted_set() -> Vec<ValidatorWithWeight> {
    vec![
        ValidatorWithWeight::new(address(A), 1),
        ValidatorWithWeight::new(address(B), 1),
        ValidatorWithWeight::new(address(C), 2),
    ]
}

fn locate(
    syncer: &MultisigCheckpointSyncer,
    validators: &Vec<ValidatorWithWeight>,
    threshold: u64,
    low: u32,
    high: u32,
) -> Option<QuorumCheckpoint> {
    syncer.fetch_checkpoint_in_range(validators, threshold, low, high, ORIGIN, DESTINATION)
}

#[test]
fn checkpoint_signed_below_the_threshold_is_rejected() {
    let syncer = syncer_with(&[signed(A, 5), signed(B, 5)]);
    assert_eq!(syncer.signer_weight(&weighted_set(), ORIGIN, DESTINATION, &checkpoint(5)), 2);
    assert_eq!(locate(&syncer, &weighted_set(), 3, 0, 10), None);
}

#[test]
fn checkpoint_signed_at_the_threshold_is_accepted() {
    let syncer = syncer_with(&[signed(A, 5), signed(C, 5)]);
    assert_eq!(syncer.signer_weight(&weighted_set(), ORIGIN, DESTINATION, &checkpoint(5)), 3);
    assert_eq!(
        locate(&syncer, &weighted_set(), 3, 0, 10),
        Some(QuorumCheckpoint {
            checkpoint: checkpoint(5),
            signatures: vec![signature(A, 5), signature(C, 5)],
        })
    );
}

#[test]
fn quorum_is_met_at_the_threshold_and_not_one_below() {
    let syncer = syncer_with(&[signed(A, 5), signed(B, 5), signed(C, 5)]);
    assert_eq!(syncer.signer_weight(&weighted_set(), ORIGIN, DESTINATION, &checkpoint(5)), 4);
    assert!(locate(&syncer, &weighted_set(), 3, 0, 10).is_some());
    assert!(locate(&syncer, &weighted_set(), 4, 0, 10).is_some());
    assert_eq!(locate(&syncer, &weighted_set(), 5, 0, 10), None);
}

#[test]
fn empty_range_finds_nothing() {
    let syncer = syncer_with(&[signed(A, 11), signed(C, 11), signed(A, 12), signed(C, 12)]);
    assert_eq!(locate(&syncer, &weighted_set(), 3, 12, 10), None);
    assert_eq!(locate(&syncer, &weighted_set(), 0, 12, 10), None);
    assert_eq!(locate(&syncer, &weighted_set(), 3, u32::MAX, 0), None);
    assert!(locate(&syncer, &weighted_set(), 3, 10, 12).is_some());
}

#[test]
fn smallest_index_with_a_quorum_is_returned() {
    let syncer = syncer_with(&[
        signed(A, 9),
        signed(C, 9),
        signed(A, 4),
        signed(C, 7),
        signed(A, 7),
        signed(B, 4),
    ]);
    let expected = QuorumCheckpoint {
        checkpoint: checkpoint(7),
        signatures: vec![signature(A, 7), signature(C, 7)],
    };
    for _ in 0..3 {
        assert_eq!(locate(&syncer, &weighted_set(), 3, 0, 10), Some(expected.clone()));
    }
    assert_eq!(locate(&syncer, &weighted_set(), 2, 0, 10).unwrap().checkpoint, checkpoint(4));
    assert_eq!(locate(&syncer, &weighted_set(), 3, 8, 10).unwrap().checkpoint, checkpoint(9));
}

#[test]
fn range_bounds_are_inclusive() {
    let syncer = syncer_with(&[signed(C, 5), signed(A, 5)]);
    assert!(locate(&syncer, &weighted_set(), 3, 5, 5).is_some());
    assert!(locate(&syncer, &weighted_set(), 3, 5, 9).is_some());
    assert!(locate(&syncer, &weighted_set(), 3, 1, 5).is_some());
}

#[test]
fn checkpoint_above_the_range_is_rejected() {
    let syncer = syncer_with(&[signed(A, 11), signed(B, 11), signed(C, 11)]);
    assert_eq!(locate(&syncer, &weighted_set(), 3, 3, 10), None);
    assert!(locate(&syncer, &weighted_set(), 3, 3, 11).is_some());
}

#[test]
fn checkpoint_below_the_range_is_rejected() {
    let syncer = syncer_with(&[signed(A, 2), signed(B, 2), signed(C, 2)]);
    assert_eq!(locate(&syncer, &weighted_set(), 3, 3, 10), None);
}

#[test]
fn nothing_published_finds_nothing() {
    let syncer = MultisigCheckpointSyncer::new();
    assert_eq!(locate(&syncer, &weighted_set(), 1, 0, u32::MAX), None);
    assert_eq!(locate(&syncer, &weighted_set(), 0, 0, u32::MAX), None);
}

#[test]
fn signatures_come_in_the_order_of_the_validator_set() {
    let syncer = syncer_with(&[signed(C, 5), signed(B, 5), signed(A, 5)]);
    assert_eq!(
        locate(&syncer, &weighted_set(), 4, 0, 10),
        Some(QuorumCheckpoint {
            checkpoint: checkpoint(5),
            signatures: vec![signature(A, 5), signature(B, 5), signature(C, 5)],
        })
    );
    let reversed = vec![
        ValidatorWithWeight::new(address(C), 2),
        ValidatorWithWeight::new(address(A), 1),
    ];
    assert_eq!(
        locate(&syncer, &reversed, 3, 0, 10).unwrap().signatures,
        vec![signature(C, 5), signature(A, 5)]
    );
}

#[test]
fn signers_outside_the_validator_set_do_not_count() {
    let syncer = syncer_with(&[signed(0x01, 5), signed(0x02, 5), signed(0x03, 5), signed(A, 5)]);
    assert_eq!(syncer.signer_weight(&weighted_set(), ORIGIN, DESTINATION, &checkpoint(5)), 1);
    assert_eq!(locate(&syncer, &weighted_set(), 2, 0, 10), None);
    assert_eq!(
        locate(&syncer, &weighted_set(), 1, 0, 10).unwrap().signatures,
        vec![signature(A, 5)]
    );
}

#[test]
fn repeated_attestation_counts_once_and_the_first_signature_is_kept() {
    let mut again = signed(A, 5);
    again.signature = Signature::from_bytes([0xee; 65]);
    let syncer = syncer_with(&[signed(A, 5), again, again, signed(B, 5)]);
    assert_eq!(syncer.signer_weight(&weighted_set(), ORIGIN, DESTINATION, &checkpoint(5)), 2);
    assert_eq!(locate(&syncer, &weighted_set(), 3, 0, 10), None);
    assert_eq!(
        locate(&syncer, &weighted_set(), 2, 0, 10).unwrap().signatures,
        vec![signature(A, 5), signature(B, 5)]
    );
}

#[test]
fn signatures_of_different_roots_at_one_index_are_not_summed() {
    let mut other = signed(C, 5);
    other.checkpoint.root = root(0x77);
    let syncer = syncer_with(&[signed(A, 5), other]);
    assert_eq!(locate(&syncer, &weighted_set(), 3, 0, 10), None);
    assert_eq!(locate(&syncer, &weighted_set(), 1, 0, 10).unwrap().checkpoint, checkpoint(5));
    assert_eq!(
        locate(&syncer, &weighted_set(), 2, 0, 10),
        Some(QuorumCheckpoint { checkpoint: other.checkpoint, signatures: vec![other.signature] })
    );
}

#[test]
fn first_published_wins_among_roots_at_the_same_index() {
    let mut other = signed(C, 5);
    other.checkpoint.root = root(0x77);
    let first = syncer_with(&[other, signed(A, 5)]);
    assert_eq!(locate(&first, &weighted_set(), 1, 0, 10).unwrap().checkpoint, other.checkpoint);
    let second = syncer_with(&[signed(A, 5), other]);
    assert_eq!(locate(&second, &weighted_set(), 1, 0, 10).unwrap().checkpoint, checkpoint(5));
}

#[test]
fn other_lanes_are_not_searched() {
    let mut elsewhere = signed(C, 5);
    elsewhere.origin_domain = ORIGIN + 1;
    let mut other_destination = signed(B, 5);
    other_destination.destination_domain = DESTINATION + 1;
    let syncer = syncer_with(&[signed(A, 5), elsewhere, other_destination]);
    assert_eq!(syncer.signer_weight(&weighted_set(), ORIGIN, DESTINATION, &checkpoint(5)), 1);
    assert_eq!(locate(&syncer, &weighted_set(), 2, 0, 10), None);
    assert_eq!(
        syncer.fetch_checkpoint_in_range(&weighted_set(), 2, 0, 10, ORIGIN + 1, DESTINATION),
        Some(QuorumCheckpoint {
            checkpoint: checkpoint(5),
            signatures: vec![elsewhere.signature],
        })
    );
}

#[test]
fn threshold_above_the_total_weight_is_never_met() {
    let syncer = syncer_with(&[signed(A, 5), signed(B, 5), signed(C, 5)]);
    assert_eq!(locate(&syncer, &weighted_set(), 5, 0, 10), None);
    assert_eq!(locate(&syncer, &weighted_set(), u64::MAX, 0, 10), None);
}

#[test]
fn large_weights_are_summed_without_wrapping() {
    let heavy = vec![
        ValidatorWithWeight::new(address(A), u64::MAX),
        ValidatorWithWeight::new(address(B), u64::MAX),
    ];
    let syncer = syncer_with(&[signed(A, 5), signed(B, 5)]);
    assert_eq!(
        syncer.signer_weight(&heavy, ORIGIN, DESTINATION, &checkpoint(5)),
        2 * u128::from(u64::MAX)
    );
    assert!(locate(&syncer, &heavy, u64::MAX, 0, 10).is_some());
}

#[test]
fn empty_validator_set_meets_only_a_zero_threshold() {
    let syncer = syncer_with(&[signed(A, 5)]);
    let nobody: Vec<ValidatorWithWeight> = Vec::new();
    assert_eq!(locate(&syncer, &nobody, 1, 0, 10), None);
    assert_eq!(
        locate(&syncer, &nobody, 0, 0, 10),
        Some(QuorumCheckpoint { checkpoint: checkpoint(5), signatures: Vec::new() })
    );
}

#[test]
fn unreadable_storage_leaves_its_validator_unsigned() {
    let mut syncer = MultisigCheckpointSyncer::new();
    syncer.record_fetched(Ok(vec![signed(A, 5), signed(A, 6)]));
    syncer.record_fetched(Err(String::from("bucket unreachable")));
    syncer.record_fetched(Ok(Vec::new()));
    syncer.record_fetched(Ok(vec![signed(C, 6)]));
    assert_eq!(syncer.signer_weight(&weighted_set(), ORIGIN, DESTINATION, &checkpoint(5)), 1);
    assert_eq!(syncer.signer_weight(&weighted_set(), ORIGIN, DESTINATION, &checkpoint(6)), 3);
    assert_eq!(
        locate(&syncer, &weighted_set(), 3, 0, 10),
        Some(QuorumCheckpoint {
            checkpoint: checkpoint(6),
            signatures: vec![signature(A, 6), signature(C, 6)],
        })
    );
    assert_eq!(locate(&syncer, &weighted_set(), 4, 0, 10), None);
}
