use crate::hash::{concat, hash_keccak, keccak_of, zero_hash};
use vstd::prelude::*;

verus! {

/// One level of a Merkle path: the sibling of the running node, and whether
/// that sibling is the left child.
#[derive(Debug, Clone, Copy)]
pub struct PathNode {
    pub sibling: crate::hash::Hash,
    pub is_left: bool,
}

/// The parent of `current` and the sibling `sibling`. A zero sibling on the
/// right stands for an unpaired node, which is hashed with itself.
pub open spec fn merkle_step(current: Seq<u8>, sibling: Seq<u8>, is_left: bool) -> Seq<u8> {
    if is_left {
        keccak_of(sibling + current)
    } else if sibling == zero_hash() {
        keccak_of(current + current)
    } else {
        keccak_of(current + sibling)
    }
}

/// The root reached from `leaf` by the levels of `path`, lowest first.
pub open spec fn merkle_root(leaf: Seq<u8>, path: Seq<PathNode>) -> Seq<u8>
    decreases path.len(),
{
    if path.len() == 0 {
        leaf
    } else {
        merkle_step(merkle_root(leaf, path.drop_last()), path.last().sibling@, path.last().is_left)
    }
}

/// Rebuilds the root from `leaf` along `path`.
pub fn compute_merkle_root(leaf: &crate::hash::Hash, path: &Vec<PathNode>) -> (r: crate::hash::Hash)
    ensures
        r@ == merkle_root(leaf@, path@),
{
    let mut current = crate::hash::Hash(leaf.0);
    let mut i: usize = 0;
    while i < path.len()
        invariant
            i <= path@.len(),
            current@ == merkle_root(leaf@, path@.subrange(0, i as int)),
        decreases path@.len() - i,
    {
        let node = &path[i];
        let ghost prefix = path@.subrange(0, i as int + 1);
        assert(prefix.drop_last() == path@.subrange(0, i as int));
        let data = if node.is_left {
            concat(node.sibling.0.as_slice(), current.0.as_slice())
        } else if node.sibling.is_zero() {
            concat(current.0.as_slice(), current.0.as_slice())
        } else {
            concat(current.0.as_slice(), node.sibling.0.as_slice())
        };
        current = hash_keccak(data.as_slice());
        i = i + 1;
    }
    assert(path@.subrange(0, path@.len() as int) == path@);
    current
}

/// Whether `path` leads from `leaf` to `root`.
pub fn instruction_in_merkle_tree(leaf: &crate::hash::Hash, root: &crate::hash::Hash, path: &Vec<PathNode>) -> (r: bool)
    ensures
        r == (merkle_root(leaf@, path@) == root@),
{
    let built = compute_merkle_root(leaf, path);
    built.equals(root)
}

} // verus!
