use vstd::prelude::*;
use vstd::string::*;
use vstd::utf8::encode_utf8;

use crate::hashing::{
    hex32_error, hex_bytes_of, hex_decode_32, sha256, sha256_of, valid_hex_32, HexError,
};

verus! {

/// Why a Merkle membership check failed.
#[derive(Clone, Copy, Debug, PartialEq, Eq)]
pub enum VerifyError {
    /// A proof element or the stored root is not a well-formed 64-digit
    /// hex text.
    Hex(HexError),
    /// Every text decoded, but the folded hash does not reproduce the
    /// stored root.
    VerificationFailed,
}

/// Lexicographic order on byte strings: `a` comes no later than `b`.
pub open spec fn bytes_le(a: Seq<u8>, b: Seq<u8>) -> bool
    decreases a.len(),
{
    if a.len() == 0 {
        true
    } else if b.len() == 0 {
        false
    } else if a[0] < b[0] {
        true
    } else if a[0] > b[0] {
        false
    } else {
        bytes_le(a.drop_first(), b.drop_first())
    }
}

/// Any two byte strings are ordered one way or the other.
pub proof fn lemma_bytes_le_total(a: Seq<u8>, b: Seq<u8>)
    ensures
        bytes_le(a, b) || bytes_le(b, a),
    decreases a.len(),
{
    if a.len() != 0 && b.len() != 0 && a[0] == b[0] {
        lemma_bytes_le_total(a.drop_first(), b.drop_first());
    }
}

/// Two byte strings each no later than the other are the same string.
pub proof fn lemma_bytes_le_antisymmetric(a: Seq<u8>, b: Seq<u8>)
    requires
        bytes_le(a, b),
        bytes_le(b, a),
    ensures
        a == b,
    decreases a.len(),
{
    if a.len() != 0 {
        assert(b.len() != 0);
        assert(a[0] == b[0]);
        lemma_bytes_le_antisymmetric(a.drop_first(), b.drop_first());
        assert forall|i: int| 0 <= i < a.len() implies a[i] == b[i] by {
            if i > 0 {
                assert(a[i] == a.drop_first()[i - 1]);
                assert(b[i] == b.drop_first()[i - 1]);
            }
        }
        assert(a =~= b);
    } else {
        assert(b.len() == 0);
        assert(a =~= b);
    }
}

/// The pairwise combination rule: sort the two hashes ascending as raw
/// byte strings, concatenate, and hash the concatenation. Sorting first
/// makes the rule independent of which side each hash came from.
pub open spec fn hash_pair(a: Seq<u8>, b: Seq<u8>) -> Seq<u8> {
    if bytes_le(a, b) {
        sha256_of(a + b)
    } else {
        sha256_of(b + a)
    }
}

/// Swapping the two hashes at a proof level yields the same combined
/// hash: the pair is sorted before it is concatenated.
pub proof fn lemma_hash_pair_symmetric(a: Seq<u8>, b: Seq<u8>)
    ensures
        hash_pair(a, b) == hash_pair(b, a),
{
    lemma_bytes_le_total(a, b);
    if bytes_le(a, b) && bytes_le(b, a) {
        lemma_bytes_le_antisymmetric(a, b);
    }
}

/// The candidate root that a leaf and an ordered proof path (leaf-to-root)
/// fold to.
pub open spec fn merkle_fold(leaf: Seq<u8>, siblings: Seq<Seq<u8>>) -> Seq<u8>
    decreases siblings.len(),
{
    if siblings.len() == 0 {
        leaf
    } else {
        merkle_fold(hash_pair(leaf, siblings[0]), siblings.drop_first())
    }
}

/// Folding one more sibling hashes it against the root folded so far.
pub proof fn lemma_merkle_fold_push(leaf: Seq<u8>, siblings: Seq<Seq<u8>>, next: Seq<u8>)
    ensures
        merkle_fold(leaf, siblings.push(next)) == hash_pair(merkle_fold(leaf, siblings), next),
    decreases siblings.len(),
{
    if siblings.len() == 0 {
        assert(siblings.push(next)[0] == next);
        assert(siblings.push(next).drop_first() =~= Seq::<Seq<u8>>::empty());
        assert(merkle_fold(hash_pair(leaf, next), Seq::<Seq<u8>>::empty()) == hash_pair(
            leaf,
            next,
        ));
    } else {
        assert(siblings.push(next)[0] == siblings[0]);
        assert(siblings.push(next).drop_first() =~= siblings.drop_first().push(next));
        lemma_merkle_fold_push(hash_pair(leaf, siblings[0]), siblings.drop_first(), next);
    }
}

/// The leaf of an account: the digest of the raw bytes of its identity.
pub open spec fn leaf_of(account: Seq<char>) -> Seq<u8> {
    sha256_of(encode_utf8(account))
}

/// Every element of the proof path is a well-formed 64-digit hex text.
pub open spec fn all_elems_decode(path: Seq<Seq<char>>) -> bool {
    forall|i: int| 0 <= i < path.len() ==> valid_hex_32(encode_utf8(path[i]))
}

/// The index of the first proof element that is not well-formed hex (the
/// path's length if all are).
pub open spec fn first_undecodable(path: Seq<Seq<char>>) -> int
    decreases path.len(),
{
    if path.len() == 0 {
        0
    } else if !valid_hex_32(encode_utf8(path[0])) {
        0
    } else {
        1 + first_undecodable(path.drop_first())
    }
}

/// The 32-byte values that the proof path's hex texts denote.
pub open spec fn decoded_path(path: Seq<Seq<char>>) -> Seq<Seq<u8>> {
    path.map(|i: int, p: Seq<char>| hex_bytes_of(encode_utf8(p)))
}

/// The candidate root computed for an account from its proof path.
pub open spec fn computed_root(account: Seq<char>, path: Seq<Seq<char>>) -> Seq<u8> {
    merkle_fold(leaf_of(account), decoded_path(path))
}

/// The outcome of the whole membership check: decode errors are reported
/// for the first malformed proof element, then for the stored root; with
/// everything decoded, the fold must reproduce the root exactly.
pub open spec fn spec_verify(account: Seq<char>, path: Seq<Seq<char>>, root: Seq<char>) -> Option<
    VerifyError,
> {
    if !all_elems_decode(path) {
        Some(VerifyError::Hex(hex32_error(encode_utf8(path[first_undecodable(path)])) ->Some_0))
    } else if !valid_hex_32(encode_utf8(root)) {
        Some(VerifyError::Hex(hex32_error(encode_utf8(root))->Some_0))
    } else if computed_root(account, path) != hex_bytes_of(encode_utf8(root)) {
        Some(VerifyError::VerificationFailed)
    } else {
        None
    }
}

/// A correct pair of leaf and proof path verifies against the root it was
/// built for.
pub proof fn lemma_honest_proof_verifies(account: Seq<char>, path: Seq<Seq<char>>, root: Seq<char>)
    requires
        all_elems_decode(path),
        valid_hex_32(encode_utf8(root)),
        hex_bytes_of(encode_utf8(root)) == computed_root(account, path),
    ensures
        spec_verify(account, path, root) is None,
{
}

/// A stored root that differs anywhere from the honestly computed one
/// makes the same leaf and proof path fail.
pub proof fn lemma_mutated_root_fails(account: Seq<char>, path: Seq<Seq<char>>, root: Seq<char>)
    requires
        all_elems_decode(path),
        valid_hex_32(encode_utf8(root)),
        hex_bytes_of(encode_utf8(root)) != computed_root(account, path),
    ensures
        spec_verify(account, path, root) == Some(VerifyError::VerificationFailed),
{
}

/// Whether byte string `a` comes no later than `b` in raw lexicographic
/// order.
pub fn less_or_equal(a: &Vec<u8>, b: &Vec<u8>) -> (r: bool)
    ensures
        r == bytes_le(a@, b@),
    decreases a@.len(),
{
    let mut i: usize = 0;
    proof {
        assert(a@.skip(0) =~= a@);
        assert(b@.skip(0) =~= b@);
    }
    loop
        invariant
            0 <= i <= a@.len(),
            i <= b@.len(),
            bytes_le(a@, b@) == bytes_le(a@.skip(i as int), b@.skip(i as int)),
        decreases a@.len() - i,
    {
        if i == a.len() {
            return true;
        }
        if i == b.len() {
            return false;
        }
        if a[i] < b[i] {
            return true;
        }
        if a[i] > b[i] {
            return false;
        }
        proof {
            assert(a@.skip(i as int).drop_first() =~= a@.skip(i + 1));
            assert(b@.skip(i as int).drop_first() =~= b@.skip(i + 1));
        }
        i += 1;
    }
}

/// Whether two byte strings are equal.
pub fn bytes_equal(a: &Vec<u8>, b: &Vec<u8>) -> (r: bool)
    ensures
        r == (a@ == b@),
{
    if a.len() != b.len() {
        assert(a@ != b@);
        return false;
    }
    let mut i: usize = 0;
    while i < a.len()
        invariant
            0 <= i <= a@.len(),
            a@.len() == b@.len(),
            forall|j: int| 0 <= j < i ==> a@[j] == b@[j],
        decreases a@.len() - i,
    {
        if a[i] != b[i] {
            assert(a@ != b@);
            return false;
        }
        i += 1;
    }
    proof {
        assert(a@ =~= b@);
    }
    true
}

/// Combine two 32-byte hashes by the sort-then-hash rule.
pub fn combine(a: &Vec<u8>, b: &Vec<u8>) -> (r: Vec<u8>)
    ensures
        r@ == hash_pair(a@, b@),
        r@.len() == 32,
{
    let mut joined: Vec<u8> = Vec::new();
    if less_or_equal(a, b) {
        joined.extend_from_slice(a.as_slice());
        joined.extend_from_slice(b.as_slice());
        assert(joined@ =~= a@ + b@);
    } else {
        joined.extend_from_slice(b.as_slice());
        joined.extend_from_slice(a.as_slice());
        assert(joined@ =~= b@ + a@);
    }
    sha256(joined.as_slice())
}

/// Check that the account is a member of the eligibility set committed to
/// by the stored root: fold the account's leaf through the proof path and
/// compare with the decoded root.
pub fn verify_proof(account: &str, merkle_proof: &Vec<String>, root: &str) -> (r: Result<
    (),
    VerifyError,
>)
    ensures
        match r {
            Ok(()) => spec_verify(account@, merkle_proof.deep_view(), root@) is None,
            Err(e) => spec_verify(account@, merkle_proof.deep_view(), root@) == Some(e),
        },
{
    let ghost path = merkle_proof.deep_view();
    let mut current = sha256(account.as_bytes());
    let mut i: usize = 0;
    while i < merkle_proof.len()
        invariant
            0 <= i <= path.len(),
            path.len() == merkle_proof@.len(),
            path == merkle_proof.deep_view(),
            forall|j: int| 0 <= j < path.len() ==> path[j] == merkle_proof@[j]@,
            forall|j: int| 0 <= j < i ==> valid_hex_32(encode_utf8(path[j])),
            current@ == merkle_fold(leaf_of(account@), decoded_path(path.take(i as int))),
        decreases path.len() - i,
    {
        match hex_decode_32(merkle_proof[i].as_str()) {
            Ok(sibling) => {
                proof {
                    assert(decoded_path(path.take(i + 1)) =~= decoded_path(path.take(i as int)).push(
                        hex_bytes_of(encode_utf8(path[i as int])),
                    ));
                    lemma_merkle_fold_push(
                        leaf_of(account@),
                        decoded_path(path.take(i as int)),
                        hex_bytes_of(encode_utf8(path[i as int])),
                    );
                }
                current = combine(&current, &sibling);
            },
            Err(e) => {
                proof {
                    lemma_first_undecodable_at(path, i as int);
                }
                return Err(VerifyError::Hex(e));
            },
        }
        i += 1;
    }
    proof {
        assert(path.take(path.len() as int) =~= path);
    }
    let root_bytes = match hex_decode_32(root) {
        Ok(v) => v,
        Err(e) => {
            return Err(VerifyError::Hex(e));
        },
    };
    if bytes_equal(&current, &root_bytes) {
        Ok(())
    } else {
        Err(VerifyError::VerificationFailed)
    }
}

/// If every element before `k` decodes and the one at `k` does not, `k`
/// is the first undecodable index.
proof fn lemma_first_undecodable_at(path: Seq<Seq<char>>, k: int)
    requires
        0 <= k < path.len(),
        forall|j: int| 0 <= j < k ==> valid_hex_32(encode_utf8(path[j])),
        !valid_hex_32(encode_utf8(path[k])),
    ensures
        first_undecodable(path) == k,
    decreases k,
{
    if k > 0 {
        lemma_first_undecodable_at(path.drop_first(), k - 1);
    }
}

} // verus!
