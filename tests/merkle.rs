use bridge::merkle::{compute_merkle_root, instruction_in_merkle_tree, PathNode};
use sha3::{Digest, Keccak256};

fn keccak(data: &[u8]) -> [u8; 32] {
    Keccak256::digest(data).into()
}

fn node(a: &bridge::hash::Hash, b: &bridge::hash::Hash) -> bridge::hash::Hash {
    let mut data = a.0.to_vec();
    data.extend_from_slice(&b.0);
    bridge::hash::Hash(keccak(&data))
}

fn leaf(n: u8) -> bridge::hash::Hash {
    bridge::hash::Hash(keccak(&[n, n, n]))
}

fn step(sibling: bridge::hash::Hash, is_left: bool) -> PathNode {
    PathNode { sibling, is_left }
}

const ZERO: bridge::hash::Hash = bridge::hash::Hash([0u8; 32]);

// A tree of three leaves: the third is unpaired and paired with itself.
fn tree() -> ([bridge::hash::Hash; 3], bridge::hash::Hash, bridge::hash::Hash, bridge::hash::Hash) {
    let leaves = [leaf(0), leaf(1), leaf(2)];
    let left = node(&leaves[0], &leaves[1]);
    let right = node(&leaves[2], &leaves[2]);
    let root = node(&left, &right);
    (leaves, left, right, root)
}

#[test]
fn merkle_paths_rebuild_known_root() {
    let (leaves, left, right, root) = tree();
    let path0 = vec![step(leaves[1], false), step(right, false)];
    let path1 = vec![step(leaves[0], true), step(right, false)];
    let path2 = vec![step(ZERO, false), step(left, true)];
    assert_eq!(compute_merkle_root(&leaves[0], &path0).0, root.0);
    assert_eq!(compute_merkle_root(&leaves[1], &path1).0, root.0);
    assert_eq!(compute_merkle_root(&leaves[2], &path2).0, root.0);
    assert!(instruction_in_merkle_tree(&leaves[0], &root, &path0));
    assert!(instruction_in_merkle_tree(&leaves[1], &root, &path1));
    assert!(instruction_in_merkle_tree(&leaves[2], &root, &path2));
}

#[test]
fn merkle_empty_path_is_the_leaf() {
    let l = leaf(9);
    assert!(instruction_in_merkle_tree(&l, &l, &vec![]));
    assert!(!instruction_in_merkle_tree(&l, &leaf(8), &vec![]));
}

#[test]
fn merkle_tampered_sibling_is_refused() {
    let (leaves, _left, right, root) = tree();
    let mut bad = leaves[1];
    bad.0[5] ^= 1;
    let path = vec![step(bad, false), step(right, false)];
    assert!(!instruction_in_merkle_tree(&leaves[0], &root, &path));
}

#[test]
fn merkle_flipped_side_is_refused() {
    let (leaves, _left, right, root) = tree();
    let path = vec![step(leaves[1], true), step(right, false)];
    assert!(!instruction_in_merkle_tree(&leaves[0], &root, &path));
}

#[test]
fn merkle_zero_sibling_duplicates_the_node() {
    let l = leaf(3);
    let path = vec![step(ZERO, false)];
    assert_eq!(compute_merkle_root(&l, &path).0, node(&l, &l).0);
    let path = vec![step(ZERO, true)];
    assert_eq!(compute_merkle_root(&l, &path).0, node(&ZERO, &l).0);
}

#[test]
fn merkle_step_hashes_with_keccak() {
    let empty: [u8; 32] = [
        0xc5, 0xd2, 0x46, 0x01, 0x86, 0xf7, 0x23, 0x3c, 0x92, 0x7e, 0x7d, 0xb2, 0xdc, 0xc7, 0x03,
        0xc0, 0xe5, 0x00, 0xb6, 0x53, 0xca, 0x82, 0x27, 0x3b, 0x7b, 0xfa, 0xd8, 0x04, 0x5d, 0x85,
        0xa4, 0x70,
    ];
    assert_eq!(keccak(&[]), empty);
    let l = leaf(4);
    let s = leaf(5);
    let mut data = l.0.to_vec();
    data.extend_from_slice(&s.0);
    let root = compute_merkle_root(&l, &vec![step(s, false)]);
    assert_eq!(root.0, keccak(&data));
    assert_ne!(root.0, l.0);
}
