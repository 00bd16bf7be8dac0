use vstd::prelude::*;

use ink::env::hash::Blake2x256;

verus! {

/// A content identifier: the 32-byte digest of a record's encoding.
pub type Identifier = [u8; 32];

/// The BLAKE2b-256 digest of `input`.
pub uninterp spec fn blake2x256_of(input: Seq<u8>) -> Seq<u8>;

/// Relies on `ink::env::hash_bytes::<Blake2x256>`: it writes the 32-byte BLAKE2b
/// digest of `input` into the output buffer, a value that depends on the input
/// bytes alone.
#[verifier::external_body]
fn blake2x256(input: &Vec<u8>) -> (r: [u8; 32])
    ensures
        r@ == blake2x256_of(input@),
{
    let mut output = [0u8; 32];
    ink::env::hash_bytes::<Blake2x256>(input.as_slice(), &mut output);
    output
}

/// The identifier of a record whose encoding is `encoded`.
pub fn identifier_of(encoded: &Vec<u8>) -> (r: Identifier)
    ensures
        r@ == blake2x256_of(encoded@),
{
    blake2x256(encoded)
}

} // verus!
