use crate::error::VerifyError;
use vstd::prelude::*;

verus! {

/// Length of a signature: `r`, `s` and the recovery id.
pub const SIGNATURE_LEN: usize = 65;

/// Length of the `r || s` part of a signature.
pub const SIGNATURE_RS_LEN: usize = 64;

/// The error of `cosmwasm_crypto`'s recovery, carried through unopened.
#[verifier::external_type_specification]
#[verifier::external_body]
pub struct ExCryptoError(cosmwasm_crypto::CryptoError);

/// The public key that secp256k1 recovery yields from a digest, the 64 bytes
/// `r || s` and a recovery id, or `None` where no key is recovered.
pub uninterp spec fn recovered_key_of(digest: Seq<u8>, rs: Seq<u8>, recovery_id: u8) -> Option<Seq<u8>>;

/// Relies on `cosmwasm_crypto::secp256k1_recover_pubkey`, the recovery that
/// CosmWasm's `Api::secp256k1_recover_pubkey` runs: the result depends on its
/// arguments alone, and it refuses an `r || s` that is not 64 bytes long and a
/// recovery id other than 0 and 1.
#[verifier::external_body]
fn secp256k1_recover_pubkey(digest: &[u8], rs: &[u8], recovery_id: u8) -> (r: Result<
    Vec<u8>,
    cosmwasm_crypto::CryptoError,
>)
    ensures
        r matches Ok(key) ==> recovered_key_of(digest@, rs@, recovery_id) == Some(key@),
        r is Err ==> recovered_key_of(digest@, rs@, recovery_id) is None,
        rs@.len() != SIGNATURE_RS_LEN ==> r is Err,
        recovery_id > 1 ==> r is Err,
{
    cosmwasm_crypto::secp256k1_recover_pubkey(digest, rs, recovery_id)
}

/// The key that signed `digest` with `signature` (`r || s || v`).
pub open spec fn signer_of(digest: Seq<u8>, signature: Seq<u8>) -> Result<Seq<u8>, VerifyError> {
    if signature.len() != SIGNATURE_LEN {
        Err(VerifyError::InvalidSignatureEncoding)
    } else {
        match recovered_key_of(digest, signature.subrange(0, 64), signature[64]) {
            Some(key) => Ok(key),
            None => Err(VerifyError::RecoveryFailed),
        }
    }
}

/// Recovers the public key that signed the 32-byte `digest` with the 65-byte
/// `signature`: `r`, `s`, then the recovery id.
pub fn recover_signer(digest: &crate::hash::Hash, signature: &[u8]) -> (r: Result<
    Vec<u8>,
    VerifyError,
>)
    ensures
        match r {
            Ok(key) => signer_of(digest@, signature@) == Ok::<Seq<u8>, VerifyError>(key@),
            Err(e) => signer_of(digest@, signature@) == Err::<Seq<u8>, VerifyError>(e),
        },
{
    if signature.len() != SIGNATURE_LEN {
        return Err(VerifyError::InvalidSignatureEncoding);
    }
    let rs = crate::codec::copy_range(signature, 0, SIGNATURE_RS_LEN);
    match secp256k1_recover_pubkey(digest.0.as_slice(), rs.as_slice(), signature[64]) {
        Ok(key) => Ok(key),
        Err(_) => Err(VerifyError::RecoveryFailed),
    }
}

} // verus!
