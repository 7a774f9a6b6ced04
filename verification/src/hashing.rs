//! The cryptographic digest used for attestation.

use vstd::prelude::*;

verus! {

/// The Keccak-256 digest of a byte sequence. The digest is a function of the
/// input bytes alone; its value is not axiomatized here, only named, so that
/// contracts can say exactly which bytes a hash was computed over.
pub uninterp spec fn keccak_of(data: Seq<u8>) -> Seq<u8>;

/// Relies on alloy_primitives::keccak256: computes the Keccak-256 digest of
/// the input, always 32 bytes, determined by the input bytes alone.
#[verifier::external_body]
pub(crate) fn keccak256_bytes(data: &[u8]) -> (r: Vec<u8>)
    ensures
        r@ == keccak_of(data@),
        r@.len() == 32,
{
    alloy_primitives::keccak256(data).as_slice().to_vec()
}

} // verus!
