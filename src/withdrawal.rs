use crate::codec::{
    append_at_top, be_value, decode, decodes, height_word, type_accepted, EXPECTED_SHARD,
    INSTRUCTION_PREFIX_LEN, META_TYPE_UNSHIELD, META_TYPE_UNSHIELD_ALT,
};
use crate::committee::CommitteeStore;
use crate::error::VerifyError;
use crate::hash::{byte_strings, bytes_equal, concat, hash_keccak, keccak_of};
use crate::merkle::{instruction_in_merkle_tree, merkle_root, PathNode};
use crate::signature::{recover_signer, signer_of};
use vstd::prelude::*;

verus! {

/// What a withdrawal's verifier is handed besides the instruction: the
/// committee height, the block it attests, the path of the instruction in
/// that block's instruction tree, and the beacons' signatures with the
/// committee index of each signer.
#[derive(Debug, Clone)]
pub struct AttestationProof {
    pub height: u64,
    /// The block's bytes that, with the instruction root, make up its digest.
    pub block_digest_material: Vec<u8>,
    pub instruction_root: crate::hash::Hash,
    pub merkle_path: Vec<PathNode>,
    /// Signatures of 65 bytes each: `r`, `s`, then the recovery id.
    pub signatures: Vec<Vec<u8>>,
    pub signer_indexes: Vec<usize>,
}

/// The contents of an [`AttestationProof`].
pub ghost struct ProofView {
    pub height: u64,
    pub block_digest_material: Seq<u8>,
    pub instruction_root: Seq<u8>,
    pub merkle_path: Seq<PathNode>,
    pub signatures: Seq<Seq<u8>>,
    pub signer_indexes: Seq<usize>,
}

impl View for AttestationProof {
    type V = ProofView;

    open spec fn view(&self) -> ProofView {
        ProofView {
            height: self.height,
            block_digest_material: self.block_digest_material@,
            instruction_root: self.instruction_root@,
            merkle_path: self.merkle_path@,
            signatures: byte_strings(self.signatures@),
            signer_indexes: self.signer_indexes@,
        }
    }
}

/// A release that the verifier authorized.
#[derive(Debug, Clone)]
pub struct Authorized {
    pub token_id: Vec<u8>,
    pub recipient: Vec<u8>,
    pub amount: u64,
}

/// The contents of an [`Authorized`] release.
pub ghost struct Release {
    pub token_id: Seq<u8>,
    pub recipient: Seq<u8>,
    pub amount: nat,
}

impl View for Authorized {
    type V = Release;

    open spec fn view(&self) -> Release {
        Release { token_id: self.token_id@, recipient: self.recipient@, amount: self.amount as nat }
    }
}

/// Whether `count` signatures reach the quorum of a committee of `size`:
/// more than two thirds of it.
pub open spec fn meets_threshold(count: nat, size: nat) -> bool {
    count * 3 >= size * 2 + 1
}

/// The digest that the beacons sign: the content hash, applied twice, of the
/// block material followed by the instruction root.
pub open spec fn block_digest(material: Seq<u8>, root: Seq<u8>) -> Seq<u8> {
    keccak_of(keccak_of(material + root))
}

/// The leaf of an instruction in the instruction tree: the content hash of the
/// instruction followed by the height as a 32-byte big-endian word.
pub open spec fn instruction_hash(raw: Seq<u8>, height: u64) -> Seq<u8> {
    keccak_of(raw + height_word(height))
}

/// Whether `signature` over `digest` recovers to the committee member at `index`.
pub open spec fn signature_matches(
    digest: Seq<u8>,
    signature: Seq<u8>,
    index: usize,
    committee: Seq<Seq<u8>>,
) -> bool {
    index < committee.len() && signer_of(digest, signature) == Ok::<Seq<u8>, VerifyError>(
        committee[index as int],
    )
}

/// Whether each of the first `n` signatures recovers to the member it names.
pub open spec fn signatures_match(
    digest: Seq<u8>,
    signatures: Seq<Seq<u8>>,
    indexes: Seq<usize>,
    committee: Seq<Seq<u8>>,
    n: int,
) -> bool {
    forall|i: int|
        0 <= i < n ==> #[trigger] signature_matches(digest, signatures[i], indexes[i], committee)
}

/// The outcome of verifying the withdrawal `raw` with `proof` against the
/// committees `committees`, its checks taken in order, the first that fails
/// deciding the error.
pub open spec fn verify_spec(
    raw: Seq<u8>,
    attestation: ProofView,
    committees: Map<u64, Seq<Seq<u8>>>,
) -> Result<Release, VerifyError> {
    if raw.len() < INSTRUCTION_PREFIX_LEN {
        Err(VerifyError::TruncatedInstruction)
    } else if !type_accepted(raw) {
        Err(VerifyError::UnrecognizedInstructionType)
    } else if attestation.signatures.len() != attestation.signer_indexes.len() {
        Err(VerifyError::MismatchedSignatureIndexes)
    } else if !committees.contains_key(attestation.height) {
        Err(VerifyError::UnknownCommitteeHeight)
    } else if !meets_threshold(attestation.signatures.len(), committees[attestation.height].len()) {
        Err(VerifyError::InsufficientSignatureCount)
    } else if !signatures_match(
        block_digest(attestation.block_digest_material, attestation.instruction_root),
        attestation.signatures,
        attestation.signer_indexes,
        committees[attestation.height],
        attestation.signatures.len() as int,
    ) {
        Err(VerifyError::InvalidBeaconSignature)
    } else if merkle_root(instruction_hash(raw, attestation.height), attestation.merkle_path)
        != attestation.instruction_root {
        Err(VerifyError::MerkleProofInvalid)
    } else {
        Ok(
            Release {
                token_id: raw.subrange(2, 34),
                recipient: raw.subrange(34, 66),
                amount: be_value(raw.subrange(90, 98)),
            },
        )
    }
}

/// The outcome that an executable result stands for.
pub open spec fn outcome(r: Result<Authorized, VerifyError>) -> Result<Release, VerifyError> {
    match r {
        Ok(a) => Ok(a@),
        Err(e) => Err(e),
    }
}

/// Whether `count` signatures reach the quorum of a committee of `size`.
pub fn has_quorum(count: usize, size: usize) -> (r: bool)
    ensures
        r == meets_threshold(count as nat, size as nat),
{
    (count as u128) * 3 >= (size as u128) * 2 + 1
}

/// The digest that the beacons sign for a block.
pub fn compute_block_digest(material: &[u8], root: &crate::hash::Hash) -> (r: crate::hash::Hash)
    ensures
        r@ == block_digest(material@, root@),
{
    let data = concat(material, root.0.as_slice());
    let once = hash_keccak(data.as_slice());
    hash_keccak(once.0.as_slice())
}

/// The leaf of the instruction `raw` attested at `height`.
pub fn compute_instruction_hash(raw: &[u8], height: u64) -> (r: crate::hash::Hash)
    ensures
        r@ == instruction_hash(raw@, height),
{
    let word = append_at_top(height);
    let data = concat(raw, word.as_slice());
    hash_keccak(data.as_slice())
}

/// Whether every signature over `digest` recovers to the committee member
/// that its index names. One failure refuses the whole set.
pub fn signatures_valid(
    digest: &crate::hash::Hash,
    signatures: &Vec<Vec<u8>>,
    indexes: &Vec<usize>,
    committee: &Vec<Vec<u8>>,
) -> (r: bool)
    requires
        signatures@.len() == indexes@.len(),
    ensures
        r == signatures_match(
            digest@,
            byte_strings(signatures@),
            indexes@,
            byte_strings(committee@),
            signatures@.len() as int,
        ),
{
    let ghost sigs = byte_strings(signatures@);
    let ghost members = byte_strings(committee@);
    let mut i: usize = 0;
    while i < signatures.len()
        invariant
            signatures@.len() == indexes@.len(),
            i <= signatures@.len(),
            sigs == byte_strings(signatures@),
            members == byte_strings(committee@),
            signatures_match(digest@, sigs, indexes@, members, i as int),
        decreases signatures@.len() - i,
    {
        let index = indexes[i];
        let matched = match recover_signer(digest, signatures[i].as_slice()) {
            Ok(key) => index < committee.len() && bytes_equal(
                key.as_slice(),
                committee[index].as_slice(),
            ),
            Err(_) => false,
        };
        assert(matched == signature_matches(digest@, sigs[i as int], indexes@[i as int], members));
        if !matched {
            return false;
        }
        i = i + 1;
    }
    true
}

/// Verifies a withdrawal: decodes the instruction, checks the proof's shape,
/// the committee's quorum, every signature against the member it names, and
/// the instruction's inclusion under the attested root. On success, returns
/// the asset, recipient and amount to release.
pub fn verify(raw: &[u8], attestation: &AttestationProof, committees: &CommitteeStore) -> (r: Result<
    Authorized,
    VerifyError,
>)
    ensures
        outcome(r) == verify_spec(raw@, attestation@, committees@),
{
    let inst = match decode(raw) {
        Ok(inst) => inst,
        Err(e) => return Err(e),
    };
    if attestation.signatures.len() != attestation.signer_indexes.len() {
        return Err(VerifyError::MismatchedSignatureIndexes);
    }
    let committee = match committees.lookup(attestation.height) {
        Ok(c) => c,
        Err(e) => return Err(e),
    };
    if !has_quorum(attestation.signatures.len(), committee.len()) {
        return Err(VerifyError::InsufficientSignatureCount);
    }
    let digest = compute_block_digest(
        attestation.block_digest_material.as_slice(),
        &attestation.instruction_root,
    );
    if !signatures_valid(&digest, &attestation.signatures, &attestation.signer_indexes, committee) {
        return Err(VerifyError::InvalidBeaconSignature);
    }
    let leaf = compute_instruction_hash(raw, attestation.height);
    if !instruction_in_merkle_tree(&leaf, &attestation.instruction_root, &attestation.merkle_path) {
        return Err(VerifyError::MerkleProofInvalid);
    }
    Ok(
        Authorized {
            token_id: inst.token_id,
            recipient: inst.receiver_key,
            amount: inst.unshield_amount,
        },
    )
}

/// An instruction shorter than its fixed prefix is refused as truncated,
/// whatever the proof and the committees.
pub proof fn lemma_short_instruction_truncated(
    raw: Seq<u8>,
    attestation: ProofView,
    committees: Map<u64, Seq<Seq<u8>>>,
)
    requires
        raw.len() < INSTRUCTION_PREFIX_LEN,
    ensures
        verify_spec(raw, attestation, committees) == Err::<Release, VerifyError>(
            VerifyError::TruncatedInstruction,
        ),
{
}

/// A full-length instruction of another type or another shard is refused as
/// unrecognized, whatever the proof and the committees.
pub proof fn lemma_unrecognized_type_refused(
    raw: Seq<u8>,
    attestation: ProofView,
    committees: Map<u64, Seq<Seq<u8>>>,
)
    requires
        raw.len() >= INSTRUCTION_PREFIX_LEN,
        (raw[0] != META_TYPE_UNSHIELD && raw[0] != META_TYPE_UNSHIELD_ALT) || raw[1] != EXPECTED_SHARD,
    ensures
        verify_spec(raw, attestation, committees) == Err::<Release, VerifyError>(
            VerifyError::UnrecognizedInstructionType,
        ),
{
}

/// Verification is a function of its inputs: two verifications of the same
/// instruction, proof and committees have the same outcome.
pub proof fn lemma_verify_deterministic(
    raw1: Seq<u8>,
    attestation1: ProofView,
    committees1: Map<u64, Seq<Seq<u8>>>,
    raw2: Seq<u8>,
    attestation2: ProofView,
    committees2: Map<u64, Seq<Seq<u8>>>,
)
    requires
        raw1 == raw2,
        attestation1 == attestation2,
        committees1 == committees2,
    ensures
        verify_spec(raw1, attestation1, committees1) == verify_spec(raw2, attestation2, committees2),
{
}

/// A release is authorized only where every check passed: the instruction
/// decodes, the committee at the proof's height exists and its quorum is met,
/// every signature recovers to the member it names, and the instruction's leaf
/// leads to the attested root. The release is the instruction's own fields.
pub proof fn lemma_authorized_passes_every_check(
    raw: Seq<u8>,
    attestation: ProofView,
    committees: Map<u64, Seq<Seq<u8>>>,
)
    requires
        verify_spec(raw, attestation, committees) is Ok,
    ensures
        decodes(raw),
        attestation.signatures.len() == attestation.signer_indexes.len(),
        committees.contains_key(attestation.height),
        meets_threshold(attestation.signatures.len(), committees[attestation.height].len()),
        forall|i: int|
            0 <= i < attestation.signatures.len() ==> #[trigger] signature_matches(
                block_digest(attestation.block_digest_material, attestation.instruction_root),
                attestation.signatures[i],
                attestation.signer_indexes[i],
                committees[attestation.height],
            ),
        merkle_root(instruction_hash(raw, attestation.height), attestation.merkle_path)
            == attestation.instruction_root,
        verify_spec(raw, attestation, committees) == Ok::<Release, VerifyError>(
            Release {
                token_id: raw.subrange(2, 34),
                recipient: raw.subrange(34, 66),
                amount: be_value(raw.subrange(90, 98)),
            },
        ),
{
}

} // verus!
