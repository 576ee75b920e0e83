use vstd::prelude::*;

verus! {

/// Every way in which a withdrawal can be refused.
#[derive(Debug, Clone, Copy, PartialEq, Eq, Structural)]
pub enum VerifyError {
    /// The instruction is shorter than its fixed prefix.
    TruncatedInstruction,
    /// The instruction's type byte or shard byte is not accepted.
    UnrecognizedInstructionType,
    /// The proof holds a different number of signatures and signer indexes.
    MismatchedSignatureIndexes,
    /// Too few signatures are presented to reach the committee's quorum.
    InsufficientSignatureCount,
    /// No committee is registered at the proof's height.
    UnknownCommitteeHeight,
    /// A signature does not have the length of `r || s || v`.
    InvalidSignatureEncoding,
    /// No public key can be recovered from a signature.
    RecoveryFailed,
    /// A signature does not belong to the committee member it names.
    InvalidBeaconSignature,
    /// The instruction's Merkle path does not lead to the attested root.
    MerkleProofInvalid,
}

} // verus!
