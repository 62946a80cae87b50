//! What is known locally of the origin chain's merkle tree: which message
//! went into which leaf, and how far the tree has been seen to grow.

use crate::primitives::H256;
use vstd::prelude::*;

verus! {

/// The record that the message `message_id` was inserted as leaf
/// `leaf_index`.
#[derive(Clone, Copy, Debug, PartialEq, Eq)]
pub struct MerkleTreeInsertion {
    pub leaf_index: u32,
    pub message_id: H256,
}

/// The leaf index recorded for `message_id`: that of the earliest record
/// that names the message.
pub open spec fn leaf_index_of(insertions: Seq<MerkleTreeInsertion>, message_id: H256) -> Option<
    u32,
>
    decreases insertions.len(),
{
    if insertions.len() == 0 {
        None
    } else {
        match leaf_index_of(insertions.drop_last(), message_id) {
            Some(leaf_index) => Some(leaf_index),
            None => if insertions.last().message_id == message_id {
                Some(insertions.last().leaf_index)
            } else {
                None
            },
        }
    }
}

/// No message is named by two of `insertions`: a message is given a leaf
/// at most once.
pub open spec fn each_message_once(insertions: Seq<MerkleTreeInsertion>) -> bool {
    forall|i: int, j: int|
        0 <= i < j < insertions.len() ==> (#[trigger] insertions[i]).message_id
            != (#[trigger] insertions[j]).message_id
}

/// The larger of what was known and what was seen.
pub open spec fn raised(known: Option<u32>, seen: u32) -> Option<u32> {
    match known {
        Some(highest) if highest >= seen => Some(highest),
        _ => Some(seen),
    }
}

/// The local index of the origin chain's tree.
#[derive(Clone, Debug)]
pub struct LocalTreeIndex {
    highest_known_leaf_index: Option<u32>,
    insertions: Vec<MerkleTreeInsertion>,
}

impl LocalTreeIndex {
    /// The highest leaf index seen so far; `None` while the tree has not
    /// been synced at all.
    pub closed spec fn highest(&self) -> Option<u32> {
        self.highest_known_leaf_index
    }

    /// The insertions recorded so far, in the order in which they were
    /// recorded.
    pub closed spec fn insertions(&self) -> Seq<MerkleTreeInsertion> {
        self.insertions@
    }

    /// An index that has seen nothing yet.
    pub fn new() -> (index: Self)
        ensures
            index.highest() is None,
            index.insertions() == Seq::<MerkleTreeInsertion>::empty(),
    {
        LocalTreeIndex { highest_known_leaf_index: None, insertions: Vec::new() }
    }

    /// Takes note that the tree has been seen to hold leaf `leaf_index`.
    /// The highest known leaf index never goes down.
    pub fn observe_leaf_index(&mut self, leaf_index: u32)
        ensures
            final(self).highest() == raised(old(self).highest(), leaf_index),
            final(self).insertions() == old(self).insertions(),
    {
        let known: bool = match self.highest_known_leaf_index {
            Some(highest) => highest >= leaf_index,
            None => false,
        };
        if !known {
            self.highest_known_leaf_index = Some(leaf_index);
        }
    }

    /// Records that the message `message_id` was inserted as leaf
    /// `leaf_index`, unless a leaf is already recorded for that message:
    /// then nothing changes, and the answer is `false`.
    pub fn record_insertion(&mut self, leaf_index: u32, message_id: H256) -> (recorded: bool)
        ensures
            recorded == (leaf_index_of(old(self).insertions(), message_id) is None),
            recorded ==> final(self).insertions() == old(self).insertions().push(
                MerkleTreeInsertion { leaf_index, message_id },
            ),
            !recorded ==> final(self).insertions() == old(self).insertions(),
            final(self).highest() == old(self).highest(),
            each_message_once(old(self).insertions()) ==> each_message_once(
                final(self).insertions(),
            ),
    {
        if self.leaf_index_for_message_id(&message_id).is_some() {
            return false;
        }
        proof {
            lemma_unrecorded_message_is_nowhere(self.insertions@, message_id);
        }
        self.insertions.push(MerkleTreeInsertion { leaf_index, message_id });
        true
    }

    /// The highest leaf index that is known.
    pub fn highest_known_leaf_index(&self) -> (highest: Option<u32>)
        ensures
            highest == self.highest(),
    {
        self.highest_known_leaf_index
    }

    /// The leaf index recorded for the message `message_id`, if any.
    pub fn leaf_index_for_message_id(&self, message_id: &H256) -> (found: Option<u32>)
        ensures
            found == leaf_index_of(self.insertions(), *message_id),
    {
        let mut i: usize = 0;
        while i < self.insertions.len()
            invariant
                i <= self.insertions.len(),
                leaf_index_of(self.insertions@.take(i as int), *message_id) is None,
            decreases self.insertions.len() - i,
        {
            assert(self.insertions@.take(i + 1).drop_last() == self.insertions@.take(i as int));
            if self.insertions[i].message_id == *message_id {
                proof {
                    lemma_earlier_record_counts(self.insertions@, *message_id, i + 1);
                }
                return Some(self.insertions[i].leaf_index);
            }
            i += 1;
        }
        assert(self.insertions@.take(i as int) == self.insertions@);
        None
    }
}

/// What was found among the first `n` insertions is what is found among
/// all of them.
proof fn lemma_earlier_record_counts(insertions: Seq<MerkleTreeInsertion>, message_id: H256, n: int)
    requires
        0 <= n <= insertions.len(),
        leaf_index_of(insertions.take(n), message_id) is Some,
    ensures
        leaf_index_of(insertions, message_id) == leaf_index_of(insertions.take(n), message_id),
    decreases insertions.len(),
{
    if n < insertions.len() {
        assert(insertions.drop_last().take(n) == insertions.take(n));
        lemma_earlier_record_counts(insertions.drop_last(), message_id, n);
    } else {
        assert(insertions.take(n) == insertions);
    }
}

/// A message for which no leaf index is found is named by no record.
proof fn lemma_unrecorded_message_is_nowhere(insertions: Seq<MerkleTreeInsertion>, message_id: H256)
    requires
        leaf_index_of(insertions, message_id) is None,
    ensures
        forall|i: int|
            0 <= i < insertions.len() ==> (#[trigger] insertions[i]).message_id != message_id,
    decreases insertions.len(),
{
    if insertions.len() > 0 {
        lemma_unrecorded_message_is_nowhere(insertions.drop_last(), message_id);
        assert forall|i: int| 0 <= i < insertions.len() implies (#[trigger] insertions[i]).message_id
            != message_id by {
            if i < insertions.len() - 1 {
                assert(insertions[i] == insertions.drop_last()[i]);
            }
        }
    }
}

} // verus!
