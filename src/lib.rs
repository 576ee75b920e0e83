//! Verification core of a cross-chain withdrawal bridge: decoding of withdrawal
//! instructions, the beacon committee's signature quorum, and Merkle inclusion of
//! the instruction in the attested block.
pub mod error;
pub mod hash;
pub mod codec;
pub mod merkle;
pub mod signature;
pub mod committee;
pub mod withdrawal;
