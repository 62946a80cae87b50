//! The merkle tree of the origin chain and proofs of membership in it.
//!
//! The tree has a fixed depth of [`TREE_DEPTH`]. Its leaves are filled from
//! the left in the order of insertion; every leaf that has not been
//! inserted yet counts as 32 zero bytes. An inner node is the Keccak-256
//! digest of its two children, left child first.

use crate::hash::{hash_concat, hash_pair, keccak256, keccak256_collides};
use crate::primitives::{FixedBytes, H256};
use vstd::arithmetic::power2::{lemma2_to64, lemma_pow2_unfold, pow2};
use vstd::prelude::*;

verus! {

/// The depth of the tree: the number of siblings in a proof.
pub const TREE_DEPTH: usize = 32;

/// The largest number of leaves that the tree takes.
pub const MAX_LEAVES: u64 = 0xffff_ffff;

/// The digests that `hashes` hold, in the same order.
pub open spec fn digests(hashes: Seq<H256>) -> Seq<Seq<u8>> {
    Seq::new(hashes.len(), |i: int| hashes[i]@)
}

/// The leaf that stands for "nothing inserted here": 32 zero bytes.
pub open spec fn zero_leaf() -> Seq<u8> {
    Seq::new(32, |i: int| 0u8)
}

/// The digest of a subtree of height `level` without any inserted leaf.
pub open spec fn zero_hash(level: nat) -> Seq<u8>
    decreases level,
{
    if level == 0 {
        zero_leaf()
    } else {
        hash_pair(zero_hash((level - 1) as nat), zero_hash((level - 1) as nat))
    }
}

/// The digest of the node at height `level` (leaves are at height 0) and at
/// `position` from the left, in the tree whose inserted leaves are `leaves`.
pub open spec fn node_hash(leaves: Seq<Seq<u8>>, level: nat, position: int) -> Seq<u8>
    decreases level,
{
    if level == 0 {
        if 0 <= position < leaves.len() {
            leaves[position]
        } else {
            zero_leaf()
        }
    } else {
        hash_pair(
            node_hash(leaves, (level - 1) as nat, 2 * position),
            node_hash(leaves, (level - 1) as nat, 2 * position + 1),
        )
    }
}

/// The root of the tree whose inserted leaves are `leaves`.
pub open spec fn tree_root(leaves: Seq<Seq<u8>>) -> Seq<u8> {
    node_hash(leaves, TREE_DEPTH as nat, 0)
}

/// The position, at height `level`, of the node above leaf `index`.
pub open spec fn ancestor(index: int, level: nat) -> int
    decreases level,
{
    if level == 0 {
        index
    } else {
        ancestor(index, (level - 1) as nat) / 2
    }
}

/// The position of the other child of the parent of `position`.
pub open spec fn sibling(position: int) -> int {
    if position % 2 == 0 {
        position + 1
    } else {
        position - 1
    }
}

/// The siblings on the way from leaf `index` up to height `depth`, lowest
/// first.
pub open spec fn sibling_path(leaves: Seq<Seq<u8>>, index: int, depth: nat) -> Seq<Seq<u8>> {
    Seq::new(depth, |level: int| node_hash(leaves, level as nat, sibling(ancestor(index, level as nat))))
}

/// The digest that a verifier reaches at `height` when it starts from
/// `leaf` at `index` and combines it with the first `height` siblings of
/// `path`: at each level the bit of `index` for that level says whether the
/// running digest is the left or the right child.
pub open spec fn branch_node(leaf: Seq<u8>, path: Seq<Seq<u8>>, index: int, height: nat) -> Seq<u8>
    decreases height,
{
    if height == 0 {
        leaf
    } else {
        let below = branch_node(leaf, path, index, (height - 1) as nat);
        if ancestor(index, (height - 1) as nat) % 2 == 0 {
            hash_pair(below, path[height - 1])
        } else {
            hash_pair(path[height - 1], below)
        }
    }
}

/// The root that a verifier recomputes from `leaf`, `index` and the whole
/// of `path`.
pub open spec fn branch_root(leaf: Seq<u8>, path: Seq<Seq<u8>>, index: int) -> Seq<u8> {
    branch_node(leaf, path, index, path.len())
}

/// What a [`MerkleProof`] states.
pub struct MerkleProofView {
    pub leaf: Seq<u8>,
    pub index: u32,
    pub path: Seq<Seq<u8>>,
}

impl MerkleProofView {
    /// The root that the proof leads to.
    pub open spec fn root(self) -> Seq<u8> {
        branch_root(self.leaf, self.path, self.index as int)
    }
}

/// The proof that the tree with the leaves `0..=root_index` of `leaves`
/// holds leaf `leaf_index`.
pub open spec fn proof_at(leaves: Seq<Seq<u8>>, leaf_index: u32, root_index: u32) -> MerkleProofView {
    MerkleProofView {
        leaf: leaves[leaf_index as int],
        index: leaf_index,
        path: sibling_path(leaves.take(root_index + 1), leaf_index as int, TREE_DEPTH as nat),
    }
}

/// Halving a leaf index `level` times leaves less than `2^(limit - level)`
/// when the index is less than `2^limit`.
proof fn lemma_ancestor_bound(index: int, level: nat, limit: nat)
    requires
        0 <= index < pow2(limit),
        level <= limit,
    ensures
        0 <= ancestor(index, level) < pow2((limit - level) as nat),
    decreases level,
{
    if level > 0 {
        lemma_ancestor_bound(index, (level - 1) as nat, limit);
        lemma_pow2_unfold((limit - level + 1) as nat);
    }
}

/// Below the first `height` siblings of its own path, a leaf climbs to its
/// ancestor at `height`.
proof fn lemma_branch_node_is_ancestor(leaves: Seq<Seq<u8>>, index: int, depth: nat, height: nat)
    requires
        0 <= index,
        height <= depth,
    ensures
        branch_node(node_hash(leaves, 0, index), sibling_path(leaves, index, depth), index, height)
            == node_hash(leaves, height, ancestor(index, height)),
    decreases height,
{
    if height > 0 {
        let lower = (height - 1) as nat;
        lemma_branch_node_is_ancestor(leaves, index, depth, lower);
        let position = ancestor(index, lower);
        assert(sibling_path(leaves, index, depth)[height - 1] == node_hash(
            leaves,
            lower,
            sibling(position),
        ));
        assert(ancestor(index, height) == position / 2);
        if position % 2 == 0 {
            assert(2 * (position / 2) == position);
        } else {
            assert(2 * (position / 2) + 1 == position);
        }
    }
}

/// Round trip: the sibling path of a leaf, replayed from that leaf,
/// reconstructs exactly the root of the tree it was taken from.
pub proof fn lemma_proof_round_trip(leaves: Seq<Seq<u8>>, leaf_index: u32, root_index: u32)
    requires
        leaf_index <= root_index < leaves.len(),
    ensures
        proof_at(leaves, leaf_index, root_index).root() == tree_root(leaves.take(root_index + 1)),
{
    let covered = leaves.take(root_index + 1);
    lemma_branch_node_is_ancestor(covered, leaf_index as int, TREE_DEPTH as nat, TREE_DEPTH as nat);
    lemma2_to64();
    lemma_ancestor_bound(leaf_index as int, 32, 32);
}

/// `corrupted` is `path` with the sibling at `level` replaced by another
/// digest, and with no other change.
pub open spec fn corrupted_at(path: Seq<Seq<u8>>, corrupted: Seq<Seq<u8>>, level: int) -> bool {
    &&& corrupted.len() == path.len()
    &&& 0 <= level < path.len()
    &&& corrupted[level] != path[level]
    &&& forall|l: int| 0 <= l < path.len() && l != level ==> corrupted[l] == path[l]
}

/// Two different pairs of children either hash to different digests or
/// show a collision.
proof fn lemma_pairs_differ(left: Seq<u8>, right: Seq<u8>, other_left: Seq<u8>, other_right: Seq<u8>)
    requires
        (left == other_left && right != other_right) || (left != other_left && right
            == other_right),
    ensures
        hash_pair(left, right) != hash_pair(other_left, other_right) || keccak256_collides(),
{
    let a = left + right;
    let b = other_left + other_right;
    if a == b {
        if left == other_left {
            assert(right =~= a.subrange(left.len() as int, a.len() as int));
            assert(other_right =~= b.subrange(left.len() as int, b.len() as int));
        } else {
            assert(a.len() == left.len() + right.len());
            assert(b.len() == other_left.len() + right.len());
            assert(left =~= a.subrange(0, left.len() as int));
            assert(other_left =~= b.subrange(0, left.len() as int));
        }
    }
    if keccak256(a) == keccak256(b) {
        assert(keccak256_collides());
    }
}

/// Up to the corrupted level both paths climb through the same digests;
/// above it they climb through different ones, or there is a collision.
proof fn lemma_corruption_climbs(
    leaf: Seq<u8>,
    path: Seq<Seq<u8>>,
    corrupted: Seq<Seq<u8>>,
    index: int,
    level: int,
    height: nat,
)
    requires
        corrupted_at(path, corrupted, level),
        height <= path.len(),
    ensures
        height <= level ==> branch_node(leaf, corrupted, index, height) == branch_node(
            leaf,
            path,
            index,
            height,
        ),
        height > level ==> branch_node(leaf, corrupted, index, height) != branch_node(
            leaf,
            path,
            index,
            height,
        ) || keccak256_collides(),
    decreases height,
{
    if height > 0 {
        let lower = (height - 1) as nat;
        lemma_corruption_climbs(leaf, path, corrupted, index, level, lower);
        let below = branch_node(leaf, path, index, lower);
        let other_below = branch_node(leaf, corrupted, index, lower);
        if height > level && !keccak256_collides() {
            if ancestor(index, lower) % 2 == 0 {
                lemma_pairs_differ(below, path[height - 1], other_below, corrupted[height - 1]);
            } else {
                lemma_pairs_differ(path[height - 1], below, corrupted[height - 1], other_below);
            }
        }
    }
}

/// Corrupting any single sibling makes the replay miss the root: with one
/// sibling replaced, the proof still reconstructs the same root only if
/// Keccak-256 collides on two of the inputs that the replays hash.
pub proof fn lemma_corrupted_sibling_misses_the_root(
    leaf: Seq<u8>,
    path: Seq<Seq<u8>>,
    corrupted: Seq<Seq<u8>>,
    index: int,
    level: int,
)
    requires
        corrupted_at(path, corrupted, level),
    ensures
        branch_root(leaf, corrupted, index) != branch_root(leaf, path, index)
            || keccak256_collides(),
{
    lemma_corruption_climbs(leaf, path, corrupted, index, level, path.len());
}

/// A proof that one leaf belongs to a tree: the leaf, its index, and the
/// sibling digests on the way to the root, lowest first.
#[derive(Clone, Debug, PartialEq, Eq)]
pub struct MerkleProof {
    pub leaf: H256,
    pub index: u32,
    pub path: Vec<H256>,
}

impl View for MerkleProof {
    type V = MerkleProofView;

    open spec fn view(&self) -> MerkleProofView {
        MerkleProofView { leaf: self.leaf@, index: self.index, path: digests(self.path@) }
    }
}

impl MerkleProof {
    /// Replays the proof as the verifier contract does and returns the
    /// root that it reaches.
    pub fn root(&self) -> (out: H256)
        ensures
            out@ == self@.root(),
    {
        let mut current: H256 = self.leaf;
        let mut position: u32 = self.index;
        let mut level: usize = 0;
        while level < self.path.len()
            invariant
                level <= self.path.len(),
                position == ancestor(self.index as int, level as nat),
                current@ == branch_node(
                    self.leaf@,
                    digests(self.path@),
                    self.index as int,
                    level as nat,
                ),
            decreases self.path.len() - level,
        {
            let next: H256 = if position % 2 == 0 {
                hash_concat(&current, &self.path[level])
            } else {
                hash_concat(&self.path[level], &current)
            };
            current = next;
            position = position / 2;
            level += 1;
        }
        current
    }
}

/// Why the tree took no further leaf.
#[derive(Clone, Copy, Debug, PartialEq, Eq)]
pub enum TreeError {
    /// The tree already holds [`MAX_LEAVES`] leaves.
    Full,
}

/// Why no proof was produced.
#[derive(Clone, Copy, Debug, PartialEq, Eq)]
pub enum ProofError {
    /// The tree data does not reach the index that the root is asked for:
    /// only `count` leaves are known.
    TreeDataMissing { root_index: u32, count: usize },
    /// The leaf was inserted after the root that the proof is asked
    /// against, so that root does not cover it.
    LeafAfterRoot { leaf_index: u32, root_index: u32 },
    /// The tree's own root at `root_index` is not the root that was asked
    /// for.
    RootMismatch { root_index: u32 },
}

/// The outcome of asking the tree with the leaves `leaves` for a proof of
/// leaf `leaf_index` against its root at `root_index`.
pub open spec fn prove_spec(leaves: Seq<Seq<u8>>, leaf_index: u32, root_index: u32) -> Result<
    MerkleProofView,
    ProofError,
> {
    if root_index >= leaves.len() {
        Err(ProofError::TreeDataMissing { root_index, count: leaves.len() as usize })
    } else if leaf_index > root_index {
        Err(ProofError::LeafAfterRoot { leaf_index, root_index })
    } else {
        Ok(proof_at(leaves, leaf_index, root_index))
    }
}

/// The outcome of asking for the same proof against a given `root`: the
/// proof is only handed out if the tree's own root at `root_index` is that
/// root.
pub open spec fn get_proof_spec(
    leaves: Seq<Seq<u8>>,
    leaf_index: u32,
    root_index: u32,
    root: Seq<u8>,
) -> Result<MerkleProofView, ProofError> {
    match prove_spec(leaves, leaf_index, root_index) {
        Err(e) => Err(e),
        Ok(found) => if tree_root(leaves.take(root_index + 1)) == root {
            Ok(found)
        } else {
            Err(ProofError::RootMismatch { root_index })
        },
    }
}

/// What `outcome` states: the view of the proof, or the error.
pub open spec fn proof_outcome_view(outcome: Result<MerkleProof, ProofError>) -> Result<
    MerkleProofView,
    ProofError,
> {
    match outcome {
        Ok(found) => Ok(found@),
        Err(e) => Err(e),
    }
}

/// The leaves of the origin chain's tree that are known locally, in the
/// order of insertion.
#[derive(Clone, Debug)]
pub struct MerkleTree {
    leaves: Vec<H256>,
}

impl View for MerkleTree {
    type V = Seq<Seq<u8>>;

    closed spec fn view(&self) -> Seq<Seq<u8>> {
        digests(self.leaves@)
    }
}

/// The nodes one level above `nodes`; `zero` stands in for a missing right
/// child.
fn next_level(nodes: &Vec<H256>, zero: &H256) -> (out: Vec<H256>)
    ensures
        out.len() == (nodes.len() + 1) / 2,
        forall|j: int|
            0 <= j < out.len() ==> #[trigger] out[j]@ == hash_pair(
                nodes[2 * j]@,
                if 2 * j + 1 < nodes.len() {
                    nodes[2 * j + 1]@
                } else {
                    zero@
                },
            ),
{
    let len: usize = nodes.len();
    let mut out: Vec<H256> = Vec::new();
    let mut i: usize = 0;
    while i < len
        invariant
            len == nodes.len(),
            i <= len,
            i % 2 == 0 || i == len,
            out.len() == (i + 1) / 2,
            forall|j: int|
                0 <= j < out.len() ==> #[trigger] out[j]@ == hash_pair(
                    nodes[2 * j]@,
                    if 2 * j + 1 < nodes.len() {
                        nodes[2 * j + 1]@
                    } else {
                        zero@
                    },
                ),
        decreases len - i,
    {
        if len - i >= 2 {
            out.push(hash_concat(&nodes[i], &nodes[i + 1]));
            i += 2;
        } else {
            out.push(hash_concat(&nodes[i], zero));
            i = len;
        }
    }
    out
}

impl MerkleTree {
    /// A tree without leaves.
    pub fn new() -> (tree: Self)
        ensures
            tree@ == Seq::<Seq<u8>>::empty(),
    {
        MerkleTree { leaves: Vec::new() }
    }

    /// The number of leaves inserted so far.
    pub fn count(&self) -> (n: usize)
        ensures
            n == self@.len(),
    {
        self.leaves.len()
    }

    /// Inserts `leaf` as the next leaf and returns its index; a full tree
    /// stays as it is.
    pub fn ingest(&mut self, leaf: H256) -> (r: Result<u32, TreeError>)
        ensures
            old(self)@.len() < MAX_LEAVES ==> r == Ok::<u32, TreeError>(old(self)@.len() as u32)
                && final(self)@ == old(self)@.push(leaf@),
            old(self)@.len() >= MAX_LEAVES ==> r == Err::<u32, TreeError>(TreeError::Full)
                && final(self)@ == old(self)@,
    {
        let count: usize = self.leaves.len();
        if count as u64 >= MAX_LEAVES {
            return Err(TreeError::Full);
        }
        self.leaves.push(leaf);
        Ok(count as u32)
    }

    /// The root of the tree as it was when leaf `index` had just been
    /// inserted, if the tree data reaches that far.
    pub fn root_at(&self, index: u32) -> (r: Option<H256>)
        ensures
            r is Some <==> index < self@.len(),
            r matches Some(root) ==> root@ == tree_root(self@.take(index + 1)),
    {
        if index as usize >= self.leaves.len() {
            return None;
        }
        let (_, root) = self.ascend(index, index as usize + 1);
        Some(root)
    }

    /// Proves that leaf `leaf_index` belongs to the tree as it was when
    /// leaf `root_index` had just been inserted. The tree keeps its leaves
    /// and nothing else, so every proof hashes the covered leaves anew.
    pub fn prove(&self, leaf_index: u32, root_index: u32) -> (r: Result<MerkleProof, ProofError>)
        ensures
            proof_outcome_view(r) == prove_spec(self@, leaf_index, root_index),
            r matches Ok(found) ==> found@.root() == tree_root(self@.take(root_index + 1)),
    {
        let count: usize = self.leaves.len();
        if root_index as usize >= count {
            return Err(ProofError::TreeDataMissing { root_index, count });
        }
        if leaf_index > root_index {
            return Err(ProofError::LeafAfterRoot { leaf_index, root_index });
        }
        proof {
            lemma_proof_round_trip(self@, leaf_index, root_index);
        }
        let (path, _) = self.ascend(leaf_index, root_index as usize + 1);
        Ok(MerkleProof { leaf: self.leaves[leaf_index as usize], index: leaf_index, path })
    }

    /// Proves that leaf `leaf_index` belongs to the tree with the root
    /// `root`, which is claimed to be the tree's root at `root_index`. The
    /// proof is replayed before it is handed out, so that a proof that
    /// comes back leads to `root`.
    pub fn get_proof(&self, leaf_index: u32, root_index: u32, root: &H256) -> (r: Result<
        MerkleProof,
        ProofError,
    >)
        ensures
            proof_outcome_view(r) == get_proof_spec(self@, leaf_index, root_index, root@),
            r matches Ok(found) ==> found@.root() == root@,
    {
        let found: MerkleProof = match self.prove(leaf_index, root_index) {
            Ok(found) => found,
            Err(e) => {
                return Err(e);
            },
        };
        let replayed: H256 = found.root();
        proof {
            FixedBytes::lemma_view_injective(replayed, *root);
        }
        if replayed == *root {
            Ok(found)
        } else {
            Err(ProofError::RootMismatch { root_index })
        }
    }

    /// The sibling path of leaf `position` and the root, both in the tree
    /// of the first `count` leaves.
    fn ascend(&self, position: u32, count: usize) -> (out: (Vec<H256>, H256))
        requires
            position < count <= self@.len(),
        ensures
            digests(out.0@) == sibling_path(self@.take(count as int), position as int, TREE_DEPTH as nat),
            out.1@ == tree_root(self@.take(count as int)),
    {
        let ghost covered = self@.take(count as int);
        let mut nodes: Vec<H256> = Vec::new();
        let mut i: usize = 0;
        while i < count
            invariant
                i <= count <= self.leaves.len(),
                nodes.len() == i,
                forall|j: int| 0 <= j < i ==> nodes[j] == self.leaves[j],
            decreases count - i,
        {
            nodes.push(self.leaves[i]);
            i += 1;
        }
        let mut zero: H256 = H256::zero();
        let mut path: Vec<H256> = Vec::new();
        let mut at: usize = position as usize;
        let mut level: usize = 0;
        while level < TREE_DEPTH
            invariant
                level <= TREE_DEPTH,
                covered == self@.take(count as int),
                zero@ == zero_hash(level as nat),
                at == ancestor(position as int, level as nat),
                at < nodes.len(),
                forall|j: int|
                    0 <= j < nodes.len() ==> #[trigger] nodes[j]@ == node_hash(
                        covered,
                        level as nat,
                        j,
                    ),
                forall|j: int|
                    j >= nodes.len() ==> #[trigger] node_hash(covered, level as nat, j)
                        == zero_hash(level as nat),
                path.len() == level,
                forall|l: int|
                    0 <= l < level ==> #[trigger] path[l]@ == node_hash(
                        covered,
                        l as nat,
                        sibling(ancestor(position as int, l as nat)),
                    ),
            decreases TREE_DEPTH - level,
        {
            let beside: usize = if at % 2 == 0 {
                at + 1
            } else {
                at - 1
            };
            let step: H256 = if beside < nodes.len() {
                nodes[beside]
            } else {
                zero
            };
            path.push(step);
            let above: Vec<H256> = next_level(&nodes, &zero);
            let zero_above: H256 = hash_concat(&zero, &zero);
            proof {
                let up = (level + 1) as nat;
                assert forall|j: int| 0 <= j < above.len() implies #[trigger] above[j]@
                    == node_hash(covered, up, j) by {
                    assert(nodes[2 * j]@ == node_hash(covered, level as nat, 2 * j));
                    if 2 * j + 1 < nodes.len() {
                        assert(nodes[2 * j + 1]@ == node_hash(covered, level as nat, 2 * j + 1));
                    } else {
                        assert(node_hash(covered, level as nat, 2 * j + 1) == zero_hash(
                            level as nat,
                        ));
                    }
                }
                assert forall|j: int| j >= above.len() implies #[trigger] node_hash(covered, up, j)
                    == zero_hash(up) by {
                    assert(node_hash(covered, level as nat, 2 * j) == zero_hash(level as nat));
                    assert(node_hash(covered, level as nat, 2 * j + 1) == zero_hash(level as nat));
                }
            }
            nodes = above;
            zero = zero_above;
            at = at / 2;
            level += 1;
        }
        assert(digests(path@) =~= sibling_path(covered, position as int, TREE_DEPTH as nat));
        proof {
            lemma2_to64();
            lemma_ancestor_bound(position as int, 32, 32);
        }
        (path, nodes[0])
    }
}

} // verus!
