use merkle_root_multisig::hash::hash_concat;
use merkle_root_multisig::merkle::{MerkleProof, MerkleTree, ProofError, TREE_DEPTH};
use merkle_root_multisig::primitives::H256;

fn hex_digit(c: u8) -> u8 {
    match c {
        b'0'..=b'9' => c - b'0',
        b'a'..=b'f' => c - b'a' + 10,
        _ => panic!("not a hex digit"),
    }
}

fn h256(hex: &str) -> H256 {
    let text = hex.as_bytes();
    assert_eq!(text.len(), 64);
    let mut bytes = [0u8; 32];
    for i in 0..32 {
        bytes[i] = hex_digit(text[2 * i]) * 16 + hex_digit(text[2 * i + 1]);
    }
    H256::from_bytes(bytes)
}

fn leaf(n: u8) -> H256 {
    let mut bytes = [0u8; 32];
    bytes[31] = n;
    H256::from_bytes(bytes)
}

fn tree_of(count: u8) -> MerkleTree {
    let mut tree = MerkleTree::new();
    for n in 1..=count {
        assert_eq!(tree.ingest(leaf(n)), Ok(u32::from(n) - 1));
    }
    tree
}

#[test]
fn zero_is_thirty_two_zero_bytes() {
    assert_eq!(H256::zero().bytes, [0u8; 32]);
    assert_eq!(H256::zero(), H256::from_bytes([0u8; 32]));
    assert_ne!(H256::zero(), leaf(1));
}

#[test]
fn hash_concat_is_keccak256_of_the_sixty_four_bytes() {
    let zero = H256::zero();
    let level_one = hash_concat(&zero, &zero);
    assert_eq!(
        level_one,
        h256("ad3228b676f7d3cd4284a5443f17f1962b36e491b30a40b2405849e597ba5fb5")
    );
    let level_two = hash_concat(&level_one, &level_one);
    assert_eq!(
        level_two,
        h256("b4c11951957c6f8f642c4af61cd6b24640fec6dc7fc607ee8206a99e92410d30")
    );
    assert_ne!(level_one, zero);
}

#[test]
fn hash_concat_depends_on_the_order_of_its_arguments() {
    let a = leaf(1);
    let b = leaf(2);
    assert_ne!(hash_concat(&a, &b), hash_concat(&b, &a));
    assert_eq!(
        hash_concat(&leaf(3), &leaf(4)),
        h256("2e174c10e159ea99b867ce3205125c24a42d128804e4070ed6fcc8cc98166aa0")
    );
}

#[test]
fn empty_tree_has_no_root_and_no_proof() {
    let tree = MerkleTree::new();
    assert_eq!(tree.count(), 0);
    assert_eq!(tree.root_at(0), None);
    assert_eq!(
        tree.prove(0, 0),
        Err(ProofError::TreeDataMissing { root_index: 0, count: 0 })
    );
}

#[test]
fn ingest_numbers_the_leaves_from_zero() {
    let mut tree = MerkleTree::new();
    assert_eq!(tree.ingest(leaf(7)), Ok(0));
    assert_eq!(tree.ingest(leaf(7)), Ok(1));
    assert_eq!(tree.ingest(leaf(9)), Ok(2));
    assert_eq!(tree.count(), 3);
}

#[test]
fn roots_match_the_verifier_contracts_tree() {
    let tree = tree_of(5);
    assert_eq!(
        tree.root_at(0),
        Some(h256("21db8421fb719c4d28af3cda6aeee3388f75e2cc467bfc7b950d32a425f7d355"))
    );
    assert_eq!(
        tree.root_at(1),
        Some(h256("ed910e47f3c21d47debc7c730c32e06da6c54ba6b88b2378a61018f206903982"))
    );
    assert_eq!(
        tree.root_at(2),
        Some(h256("9384545e9aa4ebf1b8beb19916049a38744f06ef954a3f45560632d84ce6d533"))
    );
    assert_eq!(
        tree.root_at(4),
        Some(h256("5f213be2fc640249a552ca4702de66233832cb68b9df97e230cc872d5f6cb9f9"))
    );
    assert_eq!(tree.root_at(5), None);
}

#[test]
fn root_at_an_index_does_not_depend_on_later_leaves() {
    let small = tree_of(3);
    let large = tree_of(9);
    for index in 0..3 {
        assert_eq!(small.root_at(index), large.root_at(index));
    }
    assert_ne!(large.root_at(2), large.root_at(3));
}

#[test]
fn proof_holds_the_siblings_lowest_first() {
    let tree = tree_of(5);
    let found = tree.prove(1, 3).unwrap();
    assert_eq!(found.leaf, leaf(2));
    assert_eq!(found.index, 1);
    assert_eq!(found.path.len(), TREE_DEPTH);
    assert_eq!(found.path.len(), 32);
    assert_eq!(found.path[0], leaf(1));
    assert_eq!(
        found.path[1],
        h256("2e174c10e159ea99b867ce3205125c24a42d128804e4070ed6fcc8cc98166aa0")
    );
    assert_eq!(
        found.path[2],
        h256("b4c11951957c6f8f642c4af61cd6b24640fec6dc7fc607ee8206a99e92410d30")
    );
    assert_eq!(
        found.path[3],
        h256("21ddb9a356815c3fac1026b6dec5df3124afbadb485c9ba5a3e3398a04b7ba85")
    );
    assert_eq!(
        found.path[31],
        h256("8448818bb4ae4562849e949e17ac16e0be16688e156b5cf15e098c627c0056a9")
    );
}

#[test]
fn proof_of_the_last_leaf_meets_empty_subtrees() {
    let tree = tree_of(5);
    let found = tree.prove(4, 4).unwrap();
    assert_eq!(found.leaf, leaf(5));
    assert_eq!(found.path[0], H256::zero());
    assert_eq!(
        found.path[1],
        h256("ad3228b676f7d3cd4284a5443f17f1962b36e491b30a40b2405849e597ba5fb5")
    );
    assert_eq!(
        found.path[2],
        h256("a9bb8c3f1f12e9aa903a50c47f314b57610a3ab32f2d463293f58836def38d36")
    );
}

#[test]
fn replayed_proof_reconstructs_the_root() {
    let tree = tree_of(9);
    for root_index in 0..9u32 {
        let root = tree.root_at(root_index).unwrap();
        for leaf_index in 0..=root_index {
            let found = tree.prove(leaf_index, root_index).unwrap();
            assert_eq!(found.root(), root);
            assert_eq!(tree.get_proof(leaf_index, root_index, &root), Ok(found));
        }
    }
}

#[test]
fn corrupting_any_single_sibling_breaks_the_proof() {
    let tree = tree_of(6);
    let root = tree.root_at(5).unwrap();
    let found = tree.prove(2, 5).unwrap();
    assert_eq!(found.root(), root);
    for level in 0..32 {
        let mut bytes = found.path[level].bytes;
        bytes[level] ^= 0x01;
        let mut path = found.path.clone();
        path[level] = H256::from_bytes(bytes);
        let corrupted = MerkleProof { leaf: found.leaf, index: found.index, path };
        assert_ne!(corrupted.root(), root);
    }
}

#[test]
fn proof_replayed_for_another_leaf_or_index_misses_the_root() {
    let tree = tree_of(6);
    let root = tree.root_at(5).unwrap();
    let found = tree.prove(2, 5).unwrap();
    let other_leaf = MerkleProof { leaf: leaf(9), index: 2, path: found.path.clone() };
    assert_ne!(other_leaf.root(), root);
    let other_index = MerkleProof { leaf: found.leaf, index: 3, path: found.path.clone() };
    assert_ne!(other_index.root(), root);
}

#[test]
fn proof_without_siblings_replays_to_its_leaf() {
    let bare = MerkleProof { leaf: leaf(4), index: 0, path: Vec::new() };
    assert_eq!(bare.root(), leaf(4));
}

#[test]
fn prove_fails_where_the_tree_data_ends() {
    let tree = tree_of(3);
    assert_eq!(
        tree.prove(1, 3),
        Err(ProofError::TreeDataMissing { root_index: 3, count: 3 })
    );
    assert_eq!(
        tree.prove(7, 3),
        Err(ProofError::TreeDataMissing { root_index: 3, count: 3 })
    );
    assert!(tree.prove(2, 2).is_ok());
}

#[test]
fn prove_fails_for_a_leaf_after_the_root() {
    let tree = tree_of(3);
    assert_eq!(
        tree.prove(2, 1),
        Err(ProofError::LeafAfterRoot { leaf_index: 2, root_index: 1 })
    );
}

#[test]
fn get_proof_fails_against_a_root_that_is_not_the_trees() {
    let tree = tree_of(3);
    let right = tree.root_at(2).unwrap();
    let wrong = tree.root_at(1).unwrap();
    assert!(tree.get_proof(0, 2, &right).is_ok());
    assert_eq!(
        tree.get_proof(0, 2, &wrong),
        Err(ProofError::RootMismatch { root_index: 2 })
    );
    assert_eq!(
        tree.get_proof(0, 5, &right),
        Err(ProofError::TreeDataMissing { root_index: 5, count: 3 })
    );
    assert_eq!(
        tree.get_proof(2, 1, &wrong),
        Err(ProofError::LeafAfterRoot { leaf_index: 2, root_index: 1 })
    );
}
