//! The hash functions and the one-time-signature recovery this library
//! relies on, each behind a single trusted wrapper.

use vstd::prelude::*;

verus! {

/// The SHA-256 digest of a byte string.
pub uninterp spec fn sha256_of(data: Seq<u8>) -> Seq<u8>;

/// The Winternitz public key, as bytes, that a signature recovers for a message.
pub uninterp spec fn recovered_pubkey(signature: Seq<u8>, message: Seq<u8>) -> Seq<u8>;

/// The Merkle root that compresses a Winternitz public key to 32 bytes.
pub uninterp spec fn merkle_root(pubkey: Seq<u8>) -> Seq<u8>;

/// Relies on solana_nostd_sha256::hashv, which hashes its slices as if they
/// were concatenated: here a single slice, so the result is SHA-256 of `data`.
#[verifier::external_body]
pub(crate) fn sha256(data: &[u8]) -> (r: [u8; 32])
    ensures
        r@ == sha256_of(data@),
{
    solana_nostd_sha256::hashv(&[data])
}

/// Relies on solana_winternitz's WinternitzSignature::recover_pubkey: the key
/// that the signature (read from its 896 bytes) yields for `message`, written
/// back as 896 bytes. It depends on the signature and the message alone.
#[verifier::external_body]
pub(crate) fn recover_pubkey(signature: &[u8; 896], message: &[u8]) -> (r: [u8; 896])
    ensures
        r@ == recovered_pubkey(signature@, message@),
{
    let sig = solana_winternitz::signature::WinternitzSignature::from(*signature);
    sig.recover_pubkey(message).into()
}

/// Relies on solana_winternitz's WinternitzPubkey::merklize: the 32-byte
/// Merkle root of the key read from its 896 bytes.
#[verifier::external_body]
pub(crate) fn merklize(pubkey: &[u8; 896]) -> (r: [u8; 32])
    ensures
        r@ == merkle_root(pubkey@),
{
    solana_winternitz::pubkey::WinternitzPubkey::from(*pubkey).merklize()
}

/// The 32-byte identity digest that a signature over `message` recovers.
pub open spec fn recovered_digest(signature: Seq<u8>, message: Seq<u8>) -> Seq<u8> {
    merkle_root(recovered_pubkey(signature, message))
}

/// Recovers the signer's identity digest from a one-time signature and the
/// message it was made over.
pub fn recover_identity_digest(signature: &[u8; 896], message: &[u8]) -> (r: [u8; 32])
    ensures
        r@ == recovered_digest(signature@, message@),
{
    let pubkey = recover_pubkey(signature, message);
    merklize(&pubkey)
}

} // verus!
