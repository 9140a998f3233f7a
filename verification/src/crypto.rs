//! Hashing and recoverable ECDSA signing.
//!
//! The digests and signatures themselves come from outside crates; each
//! call stands behind a trusted wrapper whose contract names its result.
//! Everything built on top of them — storage keys, EVM addresses — is
//! verified against those names.

use vstd::prelude::*;

use crate::bytes::bytes_range;
use crate::error::RelayError;

verus! {

/// The Keccak-256 digest of a byte string.
pub uninterp spec fn keccak_of(data: Seq<u8>) -> Seq<u8>;

/// Whether the 32 bytes are a valid secp256k1 secret key (a non-zero
/// scalar below the group order).
pub uninterp spec fn secret_key_ok(key: Seq<u8>) -> bool;

/// The uncompressed secp256k1 public key (65 bytes, `0x04`-prefixed) of a
/// secret key.
pub uninterp spec fn pubkey_of(key: Seq<u8>) -> Seq<u8>;

/// The recoverable ECDSA signature (64 bytes `r ‖ s`, then one recovery-id
/// byte) of a 32-byte digest under a secret key.
pub uninterp spec fn ecdsa_sign_of(key: Seq<u8>, msg: Seq<u8>) -> Seq<u8>;

/// Relies on `web3::signing::keccak256`: the Keccak-256 digest, 32 bytes,
/// a function of the input bytes alone.
#[verifier::external_body]
pub(crate) fn keccak256(data: &Vec<u8>) -> (r: Vec<u8>)
    ensures
        r@ == keccak_of(data@),
        r@.len() == 32,
{
    web3::signing::keccak256(data.as_slice()).to_vec()
}

/// Relies on `secp256k1::SecretKey::from_secret_bytes` (which accepts
/// exactly the valid scalars) and `secp256k1::PublicKey::from_secret_key`:
/// the uncompressed public key is a function of the secret key alone.
#[verifier::external_body]
pub(crate) fn secp_pubkey(key: &Vec<u8>) -> (r: Result<Vec<u8>, RelayError>)
    requires
        key@.len() == 32,
    ensures
        r is Ok <==> secret_key_ok(key@),
        r matches Ok(p) ==> p@ == pubkey_of(key@) && p@.len() == 65,
{
    let arr: [u8; 32] = key.as_slice().try_into().map_err(|_| RelayError::InvalidSecretKey)?;
    let sk = secp256k1::SecretKey::from_secret_bytes(arr).map_err(
        |_| RelayError::InvalidSecretKey,
    )?;
    let pk = secp256k1::PublicKey::from_secret_key(&sk);
    Ok(pk.serialize_uncompressed().to_vec())
}

/// Relies on `secp256k1`'s recoverable ECDSA signing
/// (`RecoverableSignature::sign_ecdsa_recoverable`): with the RFC6979
/// deterministic nonce the signature is a function of the secret key and
/// the 32-byte digest alone, serialized compact as `r ‖ s` plus the
/// recovery id.
#[verifier::external_body]
pub(crate) fn ecdsa_sign(key: &Vec<u8>, msg: &Vec<u8>) -> (r: Result<Vec<u8>, RelayError>)
    requires
        key@.len() == 32,
        msg@.len() == 32,
    ensures
        r is Ok <==> secret_key_ok(key@),
        r matches Ok(sig) ==> sig@ == ecdsa_sign_of(key@, msg@) && sig@.len() == 65,
{
    let arr: [u8; 32] = key.as_slice().try_into().map_err(|_| RelayError::InvalidSecretKey)?;
    let sk = secp256k1::SecretKey::from_secret_bytes(arr).map_err(
        |_| RelayError::InvalidSecretKey,
    )?;
    let digest: [u8; 32] = msg.as_slice().try_into().map_err(|_| RelayError::InvalidSecretKey)?;
    let message = secp256k1::Message::from_digest(digest);
    let signature = secp256k1::ecdsa::RecoverableSignature::sign_ecdsa_recoverable(message, &sk);
    let (recovery_id, compact) = signature.serialize_compact();
    let mut out = compact.to_vec();
    out.push(recovery_id.to_u8());
    Ok(out)
}

/// The EVM address of a secret key: the low 20 bytes of the Keccak-256
/// hash of the public key (without its `0x04` prefix).
pub open spec fn spec_evm_address(key: Seq<u8>) -> Seq<u8> {
    keccak_of(pubkey_of(key).subrange(1, 65)).subrange(12, 32)
}

/// Derive the 20-byte EVM address of a secret key.
pub fn evm_address(key: &Vec<u8>) -> (r: Result<Vec<u8>, RelayError>)
    requires
        key@.len() == 32,
    ensures
        r is Ok <==> secret_key_ok(key@),
        r matches Ok(a) ==> a@ == spec_evm_address(key@) && a@.len() == 20,
{
    let pk = secp_pubkey(key)?;
    let body = bytes_range(&pk, 1, 65);
    let hash = keccak256(&body);
    Ok(bytes_range(&hash, 12, 32))
}

} // verus!
