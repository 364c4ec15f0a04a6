//! Trusted cryptographic primitives: the Keccak-256 digest and recoverable
//! ECDSA signing over secp256k1. Both results are functions of their inputs
//! alone, so each is given a name that the signing contracts compose.

use vstd::prelude::*;

verus! {

/// The Keccak-256 digest of a byte sequence.
pub uninterp spec fn keccak_of(data: Seq<u8>) -> Seq<u8>;

/// Relies on web3::signing::keccak256: the 32-byte Keccak-256 digest of the
/// input, a function of the input bytes alone.
#[verifier::external_body]
pub(crate) fn keccak256(data: &[u8]) -> (r: Vec<u8>)
    ensures
        r@ == keccak_of(data@),
        r@.len() == 32,
{
    web3::signing::keccak256(data).to_vec()
}

/// Whether 32 bytes form a valid secp256k1 secret key (a scalar in the
/// curve's order range).
pub uninterp spec fn secp_key_ok(key: Seq<u8>) -> bool;

/// The recoverable ECDSA signature over secp256k1 of a 32-byte digest under
/// a key: recovery id, then the 32-byte `r` and `s` scalars.
pub uninterp spec fn ecdsa_sig_of(digest: Seq<u8>, key: Seq<u8>) -> (nat, Seq<u8>, Seq<u8>);

/// Relies on secp256k1: `SecretKey::from_secret_bytes` accepts a 32-byte
/// value exactly when it lies in the curve's scalar range;
/// `RecoverableSignature::sign_ecdsa_recoverable` signs with the RFC 6979
/// deterministic nonce, so the signature depends on the digest and key
/// alone; `serialize_compact` returns the recovery id (at most 3) and the
/// 64-byte `r` followed by `s`.
#[verifier::external_body]
pub(crate) fn ecdsa_sign_recoverable(digest: &[u8], key: &[u8]) -> (r: Option<(u8, Vec<u8>, Vec<u8>)>)
    requires
        digest@.len() == 32,
        key@.len() == 32,
    ensures
        r is Some <==> secp_key_ok(key@),
        r matches Some((v, rr, ss)) ==> {
            &&& (v as nat, rr@, ss@) == ecdsa_sig_of(digest@, key@)
            &&& v <= 3
            &&& rr@.len() == 32
            &&& ss@.len() == 32
        },
{
    let mut d = [0u8; 32];
    d.copy_from_slice(digest);
    let mut k = [0u8; 32];
    k.copy_from_slice(key);
    let sk = secp256k1::SecretKey::from_secret_bytes(k).ok()?;
    let msg = secp256k1::Message::from_digest(d);
    let (rec, sig) =
        secp256k1::ecdsa::RecoverableSignature::sign_ecdsa_recoverable(msg, &sk)
            .serialize_compact();
    Some((rec.to_u8(), sig[..32].to_vec(), sig[32..].to_vec()))
}

} // verus!
