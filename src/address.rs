//! Address derivation: where the record of an identity lives.

use vstd::prelude::*;
use crate::crypto::{recovered_digest, sha256, sha256_of};

verus! {

/// The program's identifier, a derivation input shared by every transition.
pub const ID: [u8; 32] = [
    0x0f, 0x1e, 0x6b, 0x14, 0x21, 0xc0, 0x4a, 0x07, 0x04, 0x31, 0x26, 0x5c, 0x19, 0xc5, 0xbb, 0xee,
    0x19, 0x92, 0xba, 0xe8, 0xaf, 0xd1, 0xcd, 0x07, 0x8e, 0xf8, 0xaf, 0x70, 0x47, 0xdc, 0x11, 0xf7,
];

/// The ASCII bytes of "ProgramDerivedAddress", which set this derivation
/// apart from every other use of SHA-256.
pub const DOMAIN_TAG: [u8; 21] = [
    0x50, 0x72, 0x6f, 0x67, 0x72, 0x61, 0x6d, 0x44, 0x65, 0x72, 0x69, 0x76, 0x65, 0x64, 0x41, 0x64,
    0x64, 0x72, 0x65, 0x73, 0x73,
];

/// What is hashed to derive an address: digest, bump, program id, tag.
pub open spec fn derivation_input(digest: Seq<u8>, bump: u8) -> Seq<u8> {
    digest + seq![bump] + ID@ + DOMAIN_TAG@
}

/// The address of the record owned by the identity with this digest.
pub open spec fn derived_address(digest: Seq<u8>, bump: u8) -> Seq<u8> {
    sha256_of(derivation_input(digest, bump))
}

/// Whether `candidate` passes the address check for `digest` and `bump`.
pub open spec fn address_verifies(candidate: Seq<u8>, digest: Seq<u8>, bump: u8) -> bool {
    candidate == derived_address(digest, bump)
}

/// Whether a signature over `message` proves ownership of the record at
/// `record`: the identity it recovers derives that address.
pub open spec fn authorized(signature: Seq<u8>, message: Seq<u8>, bump: u8, record: Seq<u8>) -> bool {
    derived_address(recovered_digest(signature, message), bump) == record
}

/// Appends the bytes of `src` to `dst`.
pub(crate) fn push_all(dst: &mut Vec<u8>, src: &[u8])
    ensures
        final(dst)@ == old(dst)@ + src@,
{
    let mut i: usize = 0;
    while i < src.len()
        invariant
            i <= src@.len(),
            dst@ == old(dst)@ + src@.subrange(0, i as int),
        decreases src@.len() - i,
    {
        dst.push(src[i]);
        i = i + 1;
        assert(dst@ =~= old(dst)@ + src@.subrange(0, i as int));
    }
    assert(src@.subrange(0, src@.len() as int) =~= src@);
}

/// Derives the record address `sha256(digest ‖ bump ‖ ID ‖ "ProgramDerivedAddress")`.
pub fn derive_address(digest: &[u8; 32], bump: u8) -> (r: [u8; 32])
    ensures
        r@ == derived_address(digest@, bump),
{
    let mut input: Vec<u8> = Vec::new();
    push_all(&mut input, digest);
    input.push(bump);
    push_all(&mut input, &ID);
    push_all(&mut input, &DOMAIN_TAG);
    assert(input@ =~= derivation_input(digest@, bump));
    sha256(input.as_slice())
}

/// Compares two 32-byte values, byte for byte.
pub fn keys_equal(a: &[u8; 32], b: &[u8; 32]) -> (r: bool)
    ensures
        r == (a@ == b@),
{
    let mut i: usize = 0;
    while i < 32
        invariant
            i <= 32,
            a@.len() == 32,
            b@.len() == 32,
            forall|j: int| 0 <= j < i ==> a@[j] == b@[j],
        decreases 32 - i,
    {
        if a[i] != b[i] {
            return false;
        }
        i = i + 1;
    }
    assert(a@ =~= b@);
    true
}

/// Whether `candidate` is the address that `digest` and `bump` derive.
pub fn verify_address(candidate: &[u8; 32], digest: &[u8; 32], bump: u8) -> (r: bool)
    ensures
        r == address_verifies(candidate@, digest@, bump),
{
    let expected = derive_address(digest, bump);
    keys_equal(&expected, candidate)
}

} // verus!
