//! A Merkle tree with a power-of-two number of leaves (the friendly shape for
//! zk-SNARK circuits). A full binary tree over `LEAVES` leaves has exactly
//! `2 * LEAVES - 1` nodes and depth `log2(LEAVES)`; both facts are contracts
//! here, checked against the stored nodes.

use vstd::arithmetic::power2::is_pow2;
use vstd::arithmetic::power2::is_pow2_exists;
use vstd::arithmetic::power2::is_pow2_equiv;
use vstd::arithmetic::power2::lemma_pow2_strictly_increases;
use vstd::arithmetic::power2::pow2;
use vstd::prelude::*;

use crate::bool_assertions::log2;

verus! {

/// One node's hash value.
pub type NodeHash = [u8; 32];

/// `n` is `pow2(e)` for some `e`: the same property `is_pow2` decides, named
/// through the exponent so depth proofs can pick the exponent up.
pub proof fn lemma_pow2_witness(n: nat)
    requires
        is_pow2(n as int),
    ensures
        exists|e: nat| pow2(e) == n,
{
    broadcast use is_pow2_equiv;

    assert(is_pow2_exists(n as int));
    let e = choose|i: nat| vstd::arithmetic::power::pow(2, i) == n as int;
    assert(pow2(e) == n);
}

/// A full binary hash tree over `LEAVES` leaves, `LEAVES` a power of two.
pub struct MerkleTree<const LEAVES: usize> {
    nodes: Vec<NodeHash>,
}

impl<const LEAVES: usize> MerkleTree<LEAVES> {
    pub closed spec fn view_nodes(self) -> Seq<NodeHash> {
        self.nodes@
    }

    /// The shape of every tree: a power-of-two leaf count and the full
    /// complement of `2 * LEAVES - 1` nodes.
    pub open spec fn wf(self) -> bool {
        &&& is_pow2(LEAVES as int)
        &&& self.view_nodes().len() == 2 * LEAVES - 1
    }

    /// An all-zero tree. The leaf count must be a power of two, and small
    /// enough that the node count fits a `usize`.
    pub fn new() -> (r: MerkleTree<LEAVES>)
        requires
            is_pow2(LEAVES as int),
            LEAVES <= usize::MAX / 2,
        ensures
            r.wf(),
            forall|i: int|
                0 <= i < r.view_nodes().len() ==> r.view_nodes()[i]@ == Seq::new(32, |j: int| 0u8),
    {
        proof {
            reveal(is_pow2);
        }
        let count = 2 * LEAVES - 1;
        let mut nodes: Vec<NodeHash> = Vec::new();
        let mut i: usize = 0;
        while i < count
            invariant
                i <= count,
                nodes@.len() == i,
                forall|j: int| 0 <= j < i ==> nodes@[j]@ == Seq::new(32, |k: int| 0u8),
            decreases count - i,
        {
            let node: NodeHash = [0u8; 32];
            proof {
                assert(node@ =~= Seq::new(32, |k: int| 0u8));
            }
            nodes.push(node);
            i = i + 1;
        }
        MerkleTree { nodes }
    }

    /// The tree's depth: the exponent that gives the leaf count.
    pub fn depth(&self) -> (d: usize)
        requires
            self.wf(),
        ensures
            pow2(d as nat) == LEAVES,
    {
        proof {
            reveal(is_pow2);
        }
        let d = log2(LEAVES);
        proof {
            lemma_pow2_witness(LEAVES as nat);
            let e = choose|e: nat| pow2(e) == LEAVES as nat;
            if e < d as nat {
                lemma_pow2_strictly_increases(e, d as nat);
            } else if e > d as nat + 1 {
                lemma_pow2_strictly_increases(d as nat + 1, e);
            }
            assert(pow2(d as nat) == LEAVES as nat);
        }
        d
    }

    /// How many leaves the tree has.
    pub fn leaf_count(&self) -> (n: usize)
        ensures
            n == LEAVES,
    {
        LEAVES
    }

    /// How many nodes the full tree holds: `2 * LEAVES - 1`.
    pub fn total_nodes(&self) -> (n: usize)
        requires
            self.wf(),
        ensures
            n == 2 * LEAVES - 1,
    {
        self.nodes.len()
    }
}

/// A Merkle inclusion proof: one sibling hash per level, and the branch taken
/// at each level (`false` for left, `true` for right).
pub struct MerkleProof<const LEAVES: usize> {
    siblings: Vec<NodeHash>,
    path: Vec<bool>,
}

impl<const LEAVES: usize> MerkleProof<LEAVES> {
    pub closed spec fn view_siblings(self) -> Seq<NodeHash> {
        self.siblings@
    }

    pub closed spec fn view_path(self) -> Seq<bool> {
        self.path@
    }

    /// One entry per level: both lists are as long as the tree is deep.
    pub open spec fn wf(self) -> bool {
        &&& pow2(self.view_siblings().len() as nat) == LEAVES
        &&& self.view_path().len() == self.view_siblings().len()
    }

    /// A proof from its sibling hashes and its branch directions; one of
    /// each per level.
    pub fn new(siblings: Vec<NodeHash>, path: Vec<bool>) -> (r: MerkleProof<LEAVES>)
        requires
            pow2(siblings@.len() as nat) == LEAVES,
            path@.len() == siblings@.len(),
        ensures
            r.wf(),
            r.view_siblings() == siblings@,
            r.view_path() == path@,
    {
        MerkleProof { siblings, path }
    }
}

} // verus!
