//! Composite hashing built on the SHA-256 engine: domain-tagged double
//! hashing and a binary Merkle-tree accumulator.

use vstd::prelude::*;

use crate::crypto::sha256::{sha256_spec, Sha256Riscv, MAX_MESSAGE_LEN};

verus! {

/// The all-zero digest returned for an empty Merkle tree.
pub open spec fn zero_digest() -> Seq<u8> {
    Seq::new(32, |i: int| 0u8)
}

/// SHA-256 applied twice.
pub open spec fn double_sha256_spec(msg: Seq<u8>) -> Seq<u8>
    recommends
        msg.len() <= MAX_MESSAGE_LEN,
{
    sha256_spec(sha256_spec(msg))
}

/// A leaf digest: the data prefixed with the 0x00 domain tag, then double
/// hashed, so a leaf can never collide with a branch for chosen inputs.
pub open spec fn merkle_leaf_spec(data: Seq<u8>) -> Seq<u8>
    recommends
        data.len() + 1 <= MAX_MESSAGE_LEN,
{
    double_sha256_spec(seq![0x00u8] + data)
}

/// A branch digest: the two children prefixed with the 0x01 domain tag,
/// then double hashed.
pub open spec fn merkle_branch_spec(left: Seq<u8>, right: Seq<u8>) -> Seq<u8>
    recommends
        left.len() == 32,
        right.len() == 32,
{
    double_sha256_spec(seq![0x01u8] + left + right)
}

/// One level of pairwise reduction: adjacent pairs are branch-hashed and an
/// unpaired final element is carried forward unchanged.
pub open spec fn merkle_level_spec(level: Seq<Seq<u8>>) -> Seq<Seq<u8>> {
    Seq::new(
        ((level.len() + 1) / 2) as nat,
        |i: int|
            if 2 * i + 1 < level.len() {
                merkle_branch_spec(level[2 * i], level[2 * i + 1])
            } else {
                level[2 * i]
            },
    )
}

/// The Merkle root of a sequence of digests: the all-zero digest for an
/// empty sequence, the single element unchanged for one, and otherwise the
/// root of the pairwise-reduced next level.
pub open spec fn merkle_root_spec(leaves: Seq<Seq<u8>>) -> Seq<u8>
    decreases leaves.len(),
{
    if leaves.len() == 0 {
        zero_digest()
    } else if leaves.len() == 1 {
        leaves[0]
    } else {
        merkle_root_spec(merkle_level_spec(leaves))
    }
}

/// A Merkle root over a single leaf is that leaf unchanged.
pub proof fn lemma_merkle_root_single(leaf: Seq<u8>)
    ensures
        merkle_root_spec(seq![leaf]) == leaf,
{
}

/// A Merkle root over four leaves is the branch hash of the two pairwise
/// branch hashes.
pub proof fn lemma_merkle_root_four(l0: Seq<u8>, l1: Seq<u8>, l2: Seq<u8>, l3: Seq<u8>)
    ensures
        merkle_root_spec(seq![l0, l1, l2, l3]) == merkle_branch_spec(
            merkle_branch_spec(l0, l1),
            merkle_branch_spec(l2, l3),
        ),
{
    let leaves = seq![l0, l1, l2, l3];
    let level1 = merkle_level_spec(leaves);
    assert(level1 =~= seq![merkle_branch_spec(l0, l1), merkle_branch_spec(l2, l3)]);
    let level2 = merkle_level_spec(level1);
    assert(level2 =~= seq![merkle_branch_spec(merkle_branch_spec(l0, l1), merkle_branch_spec(l2, l3))]);
    assert(merkle_root_spec(leaves) == merkle_root_spec(level1));
    assert(merkle_root_spec(level1) == merkle_root_spec(level2));
    assert(merkle_root_spec(level2) == level2[0]);
}

/// A Merkle root over three leaves pairs the first two and carries the
/// third forward: the root is the branch hash of that pair with the third.
pub proof fn lemma_merkle_root_three(l0: Seq<u8>, l1: Seq<u8>, l2: Seq<u8>)
    ensures
        merkle_root_spec(seq![l0, l1, l2]) == merkle_branch_spec(merkle_branch_spec(l0, l1), l2),
{
    let leaves = seq![l0, l1, l2];
    let level1 = merkle_level_spec(leaves);
    assert(level1 =~= seq![merkle_branch_spec(l0, l1), l2]);
    let level2 = merkle_level_spec(level1);
    assert(level2 =~= seq![merkle_branch_spec(merkle_branch_spec(l0, l1), l2)]);
    assert(merkle_root_spec(leaves) == merkle_root_spec(level1));
    assert(merkle_root_spec(level1) == merkle_root_spec(level2));
    assert(merkle_root_spec(level2) == level2[0]);
}

/// Apply SHA-256 twice, defeating length-extension style structure.
pub fn double_sha256(data: &[u8]) -> (digest: [u8; 32])
    requires
        data@.len() <= MAX_MESSAGE_LEN,
    ensures
        digest@ == double_sha256_spec(data@),
{
    let first = Sha256Riscv::hash(data);
    proof {
        assert(sha256_spec(data@).len() == 32);
    }
    Sha256Riscv::hash(first.as_slice())
}

/// Concatenate two digests and double hash the 64-byte result.
pub fn hash_combine(a: &[u8; 32], b: &[u8; 32]) -> (digest: [u8; 32])
    ensures
        digest@ == double_sha256_spec(a@ + b@),
{
    let mut combined: [u8; 64] = [0u8; 64];
    let mut i: usize = 0;
    while i < 32
        invariant
            i <= 32,
            forall|j: int| 0 <= j < i ==> combined@[j] == a@[j],
        decreases 32 - i,
    {
        combined[i] = a[i];
        i = i + 1;
    }
    let mut i: usize = 0;
    while i < 32
        invariant
            i <= 32,
            forall|j: int| 0 <= j < 32 ==> combined@[j] == a@[j],
            forall|j: int| 0 <= j < i ==> combined@[32 + j] == b@[j],
        decreases 32 - i,
    {
        combined[32 + i] = b[i];
        i = i + 1;
    }
    proof {
        assert(combined@ =~= a@ + b@);
    }
    double_sha256(combined.as_slice())
}

/// The leaf hash of raw data: 0x00 tag, then double SHA-256.
pub fn merkle_leaf(data: &[u8]) -> (digest: [u8; 32])
    requires
        data@.len() + 1 <= MAX_MESSAGE_LEN,
    ensures
        digest@ == merkle_leaf_spec(data@),
{
    let mut prefixed: Vec<u8> = Vec::new();
    prefixed.push(0x00);
    let mut i: usize = 0;
    while i < data.len()
        invariant
            i <= data@.len(),
            prefixed@ == seq![0x00u8] + data@.take(i as int),
        decreases data@.len() - i,
    {
        prefixed.push(data[i]);
        proof {
            assert(prefixed@ =~= seq![0x00u8] + data@.take(i + 1));
        }
        i = i + 1;
    }
    proof {
        assert(prefixed@ =~= seq![0x00u8] + data@);
    }
    double_sha256(prefixed.as_slice())
}

/// The branch hash of two child digests: 0x01 tag, then double SHA-256.
pub fn merkle_branch(left: &[u8; 32], right: &[u8; 32]) -> (digest: [u8; 32])
    ensures
        digest@ == merkle_branch_spec(left@, right@),
{
    let mut combined: [u8; 65] = [0u8; 65];
    combined[0] = 0x01;
    let mut i: usize = 0;
    while i < 32
        invariant
            i <= 32,
            combined@[0] == 0x01u8,
            forall|j: int| 0 <= j < i ==> combined@[1 + j] == left@[j],
        decreases 32 - i,
    {
        combined[1 + i] = left[i];
        i = i + 1;
    }
    let mut i: usize = 0;
    while i < 32
        invariant
            i <= 32,
            combined@[0] == 0x01u8,
            forall|j: int| 0 <= j < 32 ==> combined@[1 + j] == left@[j],
            forall|j: int| 0 <= j < i ==> combined@[33 + j] == right@[j],
        decreases 32 - i,
    {
        combined[33 + i] = right[i];
        i = i + 1;
    }
    proof {
        assert(combined@ =~= seq![0x01u8] + left@ + right@);
    }
    double_sha256(combined.as_slice())
}

/// The views of a sequence of 32-byte digests.
pub open spec fn digest_views(s: Seq<[u8; 32]>) -> Seq<Seq<u8>> {
    Seq::new(s.len(), |i: int| s[i]@)
}

/// Reduce a sequence of leaf digests to its Merkle root by repeated
/// pairwise branching, carrying any unpaired final element forward.
pub fn calculate_merkle_root(leaves: &[[u8; 32]]) -> (digest: [u8; 32])
    ensures
        digest@ == merkle_root_spec(digest_views(leaves@)),
{
    if leaves.is_empty() {
        let zero: [u8; 32] = [0u8; 32];
        proof {
            vstd::array::axiom_spec_array_fill_for_copy_type::<u8, 32>(0u8);
            assert(zero@ =~= zero_digest());
        }
        return zero;
    }
    if leaves.len() == 1 {
        let digest = *vstd::slice::slice_index_get(leaves, 0);
        return digest;
    }
    let mut level: Vec<[u8; 32]> = vstd::slice::slice_to_vec(leaves);
    proof {
        assert(digest_views(level@) =~~= digest_views(leaves@));
    }
    while level.len() > 1
        invariant
            level@.len() >= 1,
            merkle_root_spec(digest_views(level@)) == merkle_root_spec(digest_views(leaves@)),
        decreases level@.len(),
    {
        let ghost cur = digest_views(level@);
        let mut next: Vec<[u8; 32]> = Vec::new();
        let mut i: usize = 0;
        while i < level.len()
            invariant
                i % 2 == 0 || i == level@.len(),
                i <= level@.len(),
                level@.len() >= 2,
                cur == digest_views(level@),
                next@.len() == (i + 1) as int / 2,
                forall|j: int| 0 <= j < next@.len() ==> next@[j]@ == merkle_level_spec(cur)[j],
            decreases level@.len() - i,
        {
            let ghost half = i as int / 2;
            proof {
                vstd::arithmetic::div_mod::lemma_fundamental_div_mod(i as int, 2);
                assert(i as int == 2 * half);
                assert(next@.len() == half);
            }
            if i + 1 < level.len() {
                let branch = merkle_branch(&level[i], &level[i + 1]);
                next.push(branch);
                proof {
                    assert(cur[2 * half] == level@[i as int]@);
                    assert(cur[2 * half + 1] == level@[i + 1]@);
                    assert(merkle_level_spec(cur)[half] == merkle_branch_spec(
                        cur[2 * half],
                        cur[2 * half + 1],
                    ));
                    assert(next@[half]@ == merkle_level_spec(cur)[half]);
                    assert((i + 3) as int / 2 == half + 1);
                }
                i = i + 2;
            } else {
                let carried = level[i];
                next.push(carried);
                proof {
                    assert(i + 1 == level@.len());
                    assert(2 * half + 1 >= cur.len());
                    assert(merkle_level_spec(cur)[half] == cur[2 * half]);
                    assert(next@[half]@ == merkle_level_spec(cur)[half]);
                    assert((level@.len() + 1) as int / 2 == half + 1);
                }
                i = level.len();
            }
        }
        proof {
            assert(next@.len() == merkle_level_spec(cur).len());
            assert(digest_views(next@) =~~= merkle_level_spec(cur));
            assert(merkle_root_spec(cur) == merkle_root_spec(merkle_level_spec(cur)));
        }
        level = next;
    }
    let digest = level[0];
    proof {
        assert(merkle_root_spec(digest_views(level@)) == digest_views(level@)[0]);
    }
    digest
}

} // verus!
