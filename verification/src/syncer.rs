//! The quorum checkpoint locator: among the attestations that validators
//! have published, it finds the checkpoint with the smallest index in a
//! range of leaf indices that enough validators, by weight, have signed.

use crate::checkpoint::{Checkpoint, QuorumCheckpoint, QuorumCheckpointView, SignedCheckpoint};
use crate::primitives::{Signature, H160};
use crate::validator::{total_weight, ValidatorWithWeight, Weight};
use vstd::prelude::*;

verus! {

/// What the locator is asked: the validator set, the weight that the
/// signers must reach, the inclusive range `low..=high` of checkpoint
/// indices, and the lane whose storage is searched.
pub struct RangeQuery {
    pub validators: Seq<ValidatorWithWeight>,
    pub threshold_weight: Weight,
    pub low: u32,
    pub high: u32,
    pub origin: u32,
    pub destination: u32,
}

/// `record` is `validator`'s attestation of `checkpoint` on the lane from
/// `origin` to `destination`.
pub open spec fn attests(
    record: SignedCheckpoint,
    origin: u32,
    destination: u32,
    checkpoint: Checkpoint,
    validator: H160,
) -> bool {
    &&& record.origin_domain == origin
    &&& record.destination_domain == destination
    &&& record.checkpoint == checkpoint
    &&& record.validator == validator
}

/// `validator` has published an attestation of `checkpoint` on the lane.
pub open spec fn has_signed(
    published: Seq<SignedCheckpoint>,
    origin: u32,
    destination: u32,
    checkpoint: Checkpoint,
    validator: H160,
) -> bool {
    exists|i: int|
        0 <= i < published.len() && attests(
            #[trigger] published[i],
            origin,
            destination,
            checkpoint,
            validator,
        )
}

/// Record `i` is the earliest attestation of `checkpoint` by `validator` on
/// the lane.
pub open spec fn is_first_attestation(
    published: Seq<SignedCheckpoint>,
    origin: u32,
    destination: u32,
    checkpoint: Checkpoint,
    validator: H160,
    i: int,
) -> bool {
    &&& 0 <= i < published.len()
    &&& attests(published[i], origin, destination, checkpoint, validator)
    &&& forall|j: int|
        0 <= j < i ==> !attests(#[trigger] published[j], origin, destination, checkpoint, validator)
}

/// The signature under `validator`'s earliest attestation of `checkpoint`
/// on the lane.
pub open spec fn signature_of(
    published: Seq<SignedCheckpoint>,
    origin: u32,
    destination: u32,
    checkpoint: Checkpoint,
    validator: H160,
) -> Signature {
    let first = choose|i: int|
        is_first_attestation(published, origin, destination, checkpoint, validator, i);
    published[first].signature
}

/// The summed weight of those of `validators` that have signed
/// `checkpoint` on the lane.
pub open spec fn signer_weight(
    published: Seq<SignedCheckpoint>,
    validators: Seq<ValidatorWithWeight>,
    origin: u32,
    destination: u32,
    checkpoint: Checkpoint,
) -> nat
    decreases validators.len(),
{
    if validators.len() == 0 {
        0
    } else {
        let before = signer_weight(
            published,
            validators.drop_last(),
            origin,
            destination,
            checkpoint,
        );
        if has_signed(published, origin, destination, checkpoint, validators.last().validator) {
            before + validators.last().weight as nat
        } else {
            before
        }
    }
}

/// The signatures of those of `validators` that have signed `checkpoint`
/// on the lane, in the order of the validator set.
pub open spec fn collected_signatures(
    published: Seq<SignedCheckpoint>,
    validators: Seq<ValidatorWithWeight>,
    origin: u32,
    destination: u32,
    checkpoint: Checkpoint,
) -> Seq<Signature>
    decreases validators.len(),
{
    if validators.len() == 0 {
        Seq::empty()
    } else {
        let before = collected_signatures(
            published,
            validators.drop_last(),
            origin,
            destination,
            checkpoint,
        );
        if has_signed(published, origin, destination, checkpoint, validators.last().validator) {
            before.push(
                signature_of(
                    published,
                    origin,
                    destination,
                    checkpoint,
                    validators.last().validator,
                ),
            )
        } else {
            before
        }
    }
}

/// Quorum: the signers' weight reaches the threshold.
pub open spec fn meets_quorum(signers: nat, threshold_weight: Weight) -> bool {
    signers >= threshold_weight
}

/// Record `i` lies on the lane of `query`, the index of its checkpoint
/// lies in the range of `query`, and the validators of `query` that have
/// signed its checkpoint meet the quorum.
pub open spec fn qualifies(published: Seq<SignedCheckpoint>, query: RangeQuery, i: int) -> bool {
    &&& 0 <= i < published.len()
    &&& published[i].origin_domain == query.origin
    &&& published[i].destination_domain == query.destination
    &&& query.low <= published[i].checkpoint.index <= query.high
    &&& meets_quorum(
        signer_weight(
            published,
            query.validators,
            query.origin,
            query.destination,
            published[i].checkpoint,
        ),
        query.threshold_weight,
    )
}

/// Record `i` is preferred to record `j`: its checkpoint has the smaller
/// index, or the same index and `i` was published no later.
pub open spec fn precedes(published: Seq<SignedCheckpoint>, i: int, j: int) -> bool {
    published[i].checkpoint.index < published[j].checkpoint.index || (published[i].checkpoint.index
        == published[j].checkpoint.index && i <= j)
}

/// Record `i` qualifies and is preferred to every record that qualifies.
pub open spec fn is_selected(published: Seq<SignedCheckpoint>, query: RangeQuery, i: int) -> bool {
    &&& qualifies(published, query, i)
    &&& forall|j: int| #[trigger] qualifies(published, query, j) ==> precedes(published, i, j)
}

/// The answer to `query`: the checkpoint of the selected record with the
/// signatures collected for it, or nothing if no record qualifies.
pub open spec fn locate(published: Seq<SignedCheckpoint>, query: RangeQuery) -> Option<
    QuorumCheckpointView,
> {
    if exists|i: int| is_selected(published, query, i) {
        let chosen = choose|i: int| is_selected(published, query, i);
        Some(
            QuorumCheckpointView {
                checkpoint: published[chosen].checkpoint,
                signatures: collected_signatures(
                    published,
                    query.validators,
                    query.origin,
                    query.destination,
                    published[chosen].checkpoint,
                ),
            },
        )
    } else {
        None
    }
}

/// What `found` states: the view of the quorum checkpoint, if there is one.
pub open spec fn located_view(found: Option<QuorumCheckpoint>) -> Option<QuorumCheckpointView> {
    match found {
        Some(quorum) => Some(quorum@),
        None => None,
    }
}

/// At most one record is selected.
pub proof fn lemma_selected_is_unique(
    published: Seq<SignedCheckpoint>,
    query: RangeQuery,
    i: int,
    j: int,
)
    requires
        is_selected(published, query, i),
        is_selected(published, query, j),
    ensures
        i == j,
{
    assert(precedes(published, i, j));
    assert(precedes(published, j, i));
}

/// Among the first `n` records, if any qualifies, one qualifies and is
/// preferred to all that qualify.
proof fn lemma_some_record_leads(published: Seq<SignedCheckpoint>, query: RangeQuery, n: int) -> (lead:
    int)
    requires
        0 <= n <= published.len(),
        exists|j: int| 0 <= j < n && qualifies(published, query, j),
    ensures
        0 <= lead < n,
        qualifies(published, query, lead),
        forall|j: int|
            0 <= j < n && #[trigger] qualifies(published, query, j) ==> precedes(
                published,
                lead,
                j,
            ),
    decreases n,
{
    let last = n - 1;
    if exists|j: int| 0 <= j < last && qualifies(published, query, j) {
        let before = lemma_some_record_leads(published, query, last);
        if qualifies(published, query, last) && published[last].checkpoint.index
            < published[before].checkpoint.index {
            last
        } else {
            before
        }
    } else {
        last
    }
}

/// If any record qualifies, the locator answers with a checkpoint: the one
/// of the selected record.
pub proof fn lemma_locate_finds(published: Seq<SignedCheckpoint>, query: RangeQuery, i: int) -> (chosen:
    int)
    requires
        qualifies(published, query, i),
    ensures
        is_selected(published, query, chosen),
        locate(published, query) matches Some(found) && found.checkpoint
            == published[chosen].checkpoint,
        published[chosen].checkpoint.index <= published[i].checkpoint.index,
{
    let lead = lemma_some_record_leads(published, query, published.len() as int);
    assert(is_selected(published, query, lead));
    let chosen = choose|k: int| is_selected(published, query, k);
    lemma_selected_is_unique(published, query, lead, chosen);
    assert(precedes(published, lead, i));
    chosen
}

/// What the locator answers with is the checkpoint of a record that
/// qualifies: it lies in the range, and its signers meet the quorum.
pub proof fn lemma_located_qualifies(published: Seq<SignedCheckpoint>, query: RangeQuery) -> (chosen:
    int)
    requires
        locate(published, query) is Some,
    ensures
        qualifies(published, query, chosen),
        locate(published, query)->0.checkpoint == published[chosen].checkpoint,
{
    choose|k: int| is_selected(published, query, k)
}

/// An empty range, with its lower bound above its upper bound, holds no
/// checkpoint: the locator answers "not found".
pub proof fn lemma_empty_range_locates_nothing(published: Seq<SignedCheckpoint>, query: RangeQuery)
    requires
        query.low > query.high,
    ensures
        locate(published, query) is None,
{
}

/// The quorum is inclusive. A checkpoint in the range whose signers weigh
/// exactly the threshold is accepted: the locator answers with a
/// checkpoint. A checkpoint whose signers weigh one less than the
/// threshold is rejected: whatever the locator answers with, it is not
/// that checkpoint.
pub proof fn lemma_quorum_is_inclusive(published: Seq<SignedCheckpoint>, query: RangeQuery, i: int)
    requires
        0 <= i < published.len(),
        published[i].origin_domain == query.origin,
        published[i].destination_domain == query.destination,
        query.low <= published[i].checkpoint.index <= query.high,
    ensures
        signer_weight(
            published,
            query.validators,
            query.origin,
            query.destination,
            published[i].checkpoint,
        ) == query.threshold_weight ==> locate(published, query) is Some,
        signer_weight(
            published,
            query.validators,
            query.origin,
            query.destination,
            published[i].checkpoint,
        ) + 1 == query.threshold_weight ==> !qualifies(published, query, i) && (locate(
            published,
            query,
        ) matches Some(found) ==> found.checkpoint != published[i].checkpoint),
{
    let signers = signer_weight(
        published,
        query.validators,
        query.origin,
        query.destination,
        published[i].checkpoint,
    );
    if signers == query.threshold_weight {
        let chosen = lemma_locate_finds(published, query, i);
    }
    if signers + 1 == query.threshold_weight && locate(published, query) is Some {
        let chosen = lemma_located_qualifies(published, query);
    }
}

/// The tie-break: of two checkpoints in the range that both meet the
/// quorum, the locator never answers with the one of the larger index. Its
/// answer is a function of the question and of what is published, so the
/// same question gets the same answer every time.
pub proof fn lemma_smaller_index_is_preferred(
    published: Seq<SignedCheckpoint>,
    query: RangeQuery,
    i: int,
    j: int,
)
    requires
        qualifies(published, query, i),
        qualifies(published, query, j),
        published[i].checkpoint.index < published[j].checkpoint.index,
    ensures
        locate(published, query) matches Some(found) && found.checkpoint.index
            <= published[i].checkpoint.index && found.checkpoint != published[j].checkpoint,
{
    let chosen = lemma_locate_finds(published, query, i);
}

/// A threshold above the weight of the whole validator set is out of
/// reach: no checkpoint meets the quorum.
pub proof fn lemma_threshold_out_of_reach(published: Seq<SignedCheckpoint>, query: RangeQuery)
    requires
        query.threshold_weight > total_weight(query.validators),
    ensures
        locate(published, query) is None,
{
    if locate(published, query) is Some {
        let chosen = lemma_located_qualifies(published, query);
        lemma_signer_weight_bounded(
            published,
            query.validators,
            query.origin,
            query.destination,
            published[chosen].checkpoint,
        );
    }
}

/// The validators that signed weigh no more than the whole set.
pub proof fn lemma_signer_weight_bounded(
    published: Seq<SignedCheckpoint>,
    validators: Seq<ValidatorWithWeight>,
    origin: u32,
    destination: u32,
    checkpoint: Checkpoint,
)
    ensures
        signer_weight(published, validators, origin, destination, checkpoint) <= total_weight(
            validators,
        ),
    decreases validators.len(),
{
    if validators.len() > 0 {
        lemma_signer_weight_bounded(
            published,
            validators.drop_last(),
            origin,
            destination,
            checkpoint,
        );
    }
}

/// The attestations that validators have published, in the order in which
/// they were recorded. This is where the locator looks.
#[derive(Clone, Debug)]
pub struct MultisigCheckpointSyncer {
    published: Vec<SignedCheckpoint>,
}

impl View for MultisigCheckpointSyncer {
    type V = Seq<SignedCheckpoint>;

    closed spec fn view(&self) -> Seq<SignedCheckpoint> {
        self.published@
    }
}

impl MultisigCheckpointSyncer {
    /// A syncer that knows of no attestation.
    pub fn new() -> (syncer: Self)
        ensures
            syncer@ == Seq::<SignedCheckpoint>::empty(),
    {
        MultisigCheckpointSyncer { published: Vec::new() }
    }

    /// Records one more attestation, after those recorded so far.
    pub fn record(&mut self, attestation: SignedCheckpoint)
        ensures
            final(self)@ == old(self)@.push(attestation),
    {
        self.published.push(attestation);
    }

    /// Takes in what one validator's storage gave for a search: every
    /// attestation that was read, in the order given. A storage that could
    /// not be read adds nothing, which leaves that validator as one that
    /// has not signed; it does not fail the search.
    pub fn record_fetched(&mut self, fetched: Result<Vec<SignedCheckpoint>, String>)
        ensures
            fetched matches Ok(attestations) ==> final(self)@ == old(self)@ + attestations@,
            fetched is Err ==> final(self)@ == old(self)@,
    {
        match fetched {
            Ok(attestations) => {
                let mut i: usize = 0;
                while i < attestations.len()
                    invariant
                        i <= attestations.len(),
                        self@ == old(self)@ + attestations@.take(i as int),
                    decreases attestations.len() - i,
                {
                    self.published.push(attestations[i]);
                    i += 1;
                }
            },
            Err(_) => {},
        }
    }

    /// The position of the earliest attestation of `checkpoint` by
    /// `validator` on the lane, if there is one.
    fn find_attestation(
        &self,
        origin: u32,
        destination: u32,
        checkpoint: &Checkpoint,
        validator: &H160,
    ) -> (r: Option<usize>)
        ensures
            r matches Some(i) ==> is_first_attestation(
                self@,
                origin,
                destination,
                *checkpoint,
                *validator,
                i as int,
            ),
            r is None ==> !has_signed(self@, origin, destination, *checkpoint, *validator),
    {
        let mut i: usize = 0;
        while i < self.published.len()
            invariant
                i <= self.published.len(),
                forall|j: int|
                    0 <= j < i ==> !attests(
                        #[trigger] self.published@[j],
                        origin,
                        destination,
                        *checkpoint,
                        *validator,
                    ),
            decreases self.published.len() - i,
        {
            let record: &SignedCheckpoint = &self.published[i];
            if record.origin_domain == origin && record.destination_domain == destination
                && record.checkpoint == *checkpoint && record.validator == *validator {
                return Some(i);
            }
            i += 1;
        }
        None
    }

    /// The summed weight of those of `validators` that have signed
    /// `checkpoint` on the lane.
    pub fn signer_weight(
        &self,
        validators: &[ValidatorWithWeight],
        origin: u32,
        destination: u32,
        checkpoint: &Checkpoint,
    ) -> (weight: u128)
        ensures
            weight == signer_weight(self@, validators@, origin, destination, *checkpoint),
    {
        let mut weight: u128 = 0;
        let mut i: usize = 0;
        while i < validators.len()
            invariant
                i <= validators.len(),
                weight == signer_weight(
                    self@,
                    validators@.take(i as int),
                    origin,
                    destination,
                    *checkpoint,
                ),
                weight <= i * 0xffff_ffff_ffff_ffff,
            decreases validators.len() - i,
        {
            let member: &ValidatorWithWeight = &validators[i];
            proof {
                assert(validators@.take(i + 1).drop_last() == validators@.take(i as int));
                assert((i + 1) * 0xffff_ffff_ffff_ffff <= 0xffff_ffff_ffff_ffff
                    * 0xffff_ffff_ffff_ffff) by (nonlinear_arith)
                    requires
                        i + 1 <= 0xffff_ffff_ffff_ffff,
                ;
            }
            if self.find_attestation(origin, destination, checkpoint, &member.validator).is_some() {
                weight = weight + member.weight as u128;
            }
            i += 1;
        }
        assert(validators@.take(i as int) == validators@);
        weight
    }

    /// The signatures of those of `validators` that have signed
    /// `checkpoint` on the lane, in the order of the validator set.
    fn collect_signatures(
        &self,
        validators: &[ValidatorWithWeight],
        origin: u32,
        destination: u32,
        checkpoint: &Checkpoint,
    ) -> (signatures: Vec<Signature>)
        ensures
            signatures@ == collected_signatures(
                self@,
                validators@,
                origin,
                destination,
                *checkpoint,
            ),
    {
        let mut signatures: Vec<Signature> = Vec::new();
        let mut i: usize = 0;
        while i < validators.len()
            invariant
                i <= validators.len(),
                signatures@ == collected_signatures(
                    self@,
                    validators@.take(i as int),
                    origin,
                    destination,
                    *checkpoint,
                ),
            decreases validators.len() - i,
        {
            let member: &ValidatorWithWeight = &validators[i];
            proof {
                assert(validators@.take(i + 1).drop_last() == validators@.take(i as int));
            }
            match self.find_attestation(origin, destination, checkpoint, &member.validator) {
                Some(at) => {
                    proof {
                        let first = choose|k: int|
                            is_first_attestation(
                                self@,
                                origin,
                                destination,
                                *checkpoint,
                                member.validator,
                                k,
                            );
                        assert(first == at) by {
                            if first < at {
                                assert(!attests(
                                    self@[first],
                                    origin,
                                    destination,
                                    *checkpoint,
                                    member.validator,
                                ));
                            } else if at < first {
                                assert(!attests(
                                    self@[at as int],
                                    origin,
                                    destination,
                                    *checkpoint,
                                    member.validator,
                                ));
                            }
                        }
                    }
                    signatures.push(self.published[at].signature);
                },
                None => {},
            }
            i += 1;
        }
        assert(validators@.take(i as int) == validators@);
        signatures
    }

    /// Looks for a checkpoint with an index in `low..=high` that
    /// `validators` have signed with at least `threshold_weight`, on the
    /// lane from `origin` to `destination`. Of several such checkpoints the
    /// one with the smallest index is returned, and of several with that
    /// index the one that was published first. An empty range, and a range
    /// without such a checkpoint, give `None`.
    pub fn fetch_checkpoint_in_range(
        &self,
        validators: &[ValidatorWithWeight],
        threshold_weight: Weight,
        low: u32,
        high: u32,
        origin: u32,
        destination: u32,
    ) -> (found: Option<QuorumCheckpoint>)
        ensures
            located_view(found) == locate(
                self@,
                (RangeQuery {
                    validators: validators@,
                    threshold_weight,
                    low,
                    high,
                    origin,
                    destination,
                }),
            ),
            found is Some <==> exists|i: int|
                qualifies(
                    self@,
                    (RangeQuery {
                        validators: validators@,
                        threshold_weight,
                        low,
                        high,
                        origin,
                        destination,
                    }),
                    i,
                ),
            low > high ==> found is None,
            found matches Some(quorum) ==> low <= quorum.checkpoint.index <= high,
    {
        let ghost query = RangeQuery {
            validators: validators@,
            threshold_weight,
            low,
            high,
            origin,
            destination,
        };
        let mut best: Option<usize> = None;
        let mut i: usize = 0;
        while i < self.published.len()
            invariant
                i <= self.published.len(),
                query == (RangeQuery {
                    validators: validators@,
                    threshold_weight,
                    low,
                    high,
                    origin,
                    destination,
                }),
                match best {
                    Some(lead) => {
                        &&& lead < i
                        &&& qualifies(self@, query, lead as int)
                        &&& forall|j: int|
                            0 <= j < i && #[trigger] qualifies(self@, query, j) ==> precedes(
                                self@,
                                lead as int,
                                j,
                            )
                    },
                    None => forall|j: int| 0 <= j < i ==> !#[trigger] qualifies(self@, query, j),
                },
            decreases self.published.len() - i,
        {
            let record: &SignedCheckpoint = &self.published[i];
            if record.origin_domain == origin && record.destination_domain == destination && low
                <= record.checkpoint.index && record.checkpoint.index <= high {
                let improves: bool = match best {
                    Some(lead) => record.checkpoint.index < self.published[lead].checkpoint.index,
                    None => true,
                };
                if improves {
                    let weight: u128 = self.signer_weight(
                        validators,
                        origin,
                        destination,
                        &record.checkpoint,
                    );
                    if weight >= threshold_weight as u128 {
                        best = Some(i);
                    }
                }
            }
            i += 1;
        }
        match best {
            Some(lead) => {
                let checkpoint: Checkpoint = self.published[lead].checkpoint;
                let signatures: Vec<Signature> = self.collect_signatures(
                    validators,
                    origin,
                    destination,
                    &checkpoint,
                );
                proof {
                    assert(is_selected(self@, query, lead as int));
                    let chosen = choose|k: int| is_selected(self@, query, k);
                    lemma_selected_is_unique(self@, query, lead as int, chosen);
                }
                Some(QuorumCheckpoint { checkpoint, signatures })
            },
            None => {
                assert(forall|k: int| !is_selected(self@, query, k));
                None
            },
        }
    }
}

} // verus!
