//! The growable byte buffer of the bytes crate, as far as this library writes
//! into it, and the repeating-key XOR that fills it.

use bytes::{BufMut, BytesMut};
use vstd::prelude::*;

verus! {

#[verifier::external_type_specification]
#[verifier::external_body]
pub struct ExBytesMut(BytesMut);

/// The bytes that a buffer holds.
pub uninterp spec fn buffer_bytes(b: BytesMut) -> Seq<u8>;

/// Relies on `BufMut::put_u8` of `BytesMut`, which appends the byte
/// (`extend_from_slice` of a one-byte slice).
#[verifier::external_body]
pub(crate) fn put_byte(b: &mut BytesMut, v: u8)
    ensures
        buffer_bytes(*final(b)) == buffer_bytes(*old(b)).push(v),
{
    b.put_u8(v);
}

/// `input` XORed with `key` repeated along it.
pub open spec fn xor_with_key(input: Seq<u8>, key: Seq<u8>) -> Seq<u8> {
    Seq::new(input.len(), |i: int| input[i] ^ key[i % key.len() as int])
}

/// XOR with the same key undoes itself: decrypting what was encrypted gives the
/// input back.
pub proof fn lemma_xor_with_key_involution(input: Seq<u8>, key: Seq<u8>)
    requires
        key.len() > 0,
    ensures
        xor_with_key(xor_with_key(input, key), key) == input,
{
    let once = xor_with_key(input, key);
    assert forall|i: int| 0 <= i < input.len() implies #[trigger] xor_with_key(once, key)[i]
        == input[i] by {
        let a = input[i];
        let b = key[i % key.len() as int];
        assert((a ^ b) ^ b == a) by (bit_vector);
    }
    assert(xor_with_key(once, key) =~= input);
}

/// Appends `input` XORed with `key` (repeated) to `output`.
pub(crate) fn xor_into(input: &[u8], key: &[u8], output: &mut BytesMut)
    requires
        key@.len() > 0,
    ensures
        buffer_bytes(*final(output)) == buffer_bytes(*old(output)) + xor_with_key(input@, key@),
{
    let mut i: usize = 0;
    while i < input.len()
        invariant
            0 <= i <= input@.len(),
            key@.len() > 0,
            buffer_bytes(*output) == buffer_bytes(*old(output)) + xor_with_key(input@, key@).take(
                i as int,
            ),
        decreases input@.len() - i,
    {
        let b = input[i] ^ key[i % key.len()];
        put_byte(output, b);
        proof {
            assert(xor_with_key(input@, key@).take(i + 1) =~= xor_with_key(input@, key@).take(
                i as int,
            ).push(b));
        }
        i += 1;
    }
    proof {
        assert(xor_with_key(input@, key@).take(i as int) =~= xor_with_key(input@, key@));
    }
}

} // verus!
