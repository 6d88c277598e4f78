//! The payload masking unit: a rolling XOR with a 4-byte key.
use vstd::prelude::*;

verus! {

/// Byte `i` of the payload XORed with byte `i mod 4` of the key.
pub open spec fn spec_mask(payload: Seq<u8>, key: Seq<u8>) -> Seq<u8> {
    Seq::new(payload.len(), |i: int| payload[i] ^ key[i % 4])
}

/// Masks (or unmasks) a payload with a 4-byte key.
pub fn apply_mask(payload: &[u8], key: &[u8; 4]) -> (r: Vec<u8>)
    ensures
        r@ == spec_mask(payload@, key@),
{
    let mut out: Vec<u8> = Vec::with_capacity(payload.len());
    let mut i: usize = 0;
    while i < payload.len()
        invariant
            i <= payload@.len(),
            key@.len() == 4,
            out@ =~= spec_mask(payload@.subrange(0, i as int), key@),
        decreases payload@.len() - i,
    {
        out.push(payload[i] ^ key[i % 4]);
        i = i + 1;
    }
    assert(payload@.subrange(0, i as int) =~= payload@);
    out
}

/// Masking is self-inverse: applying the same key twice gives back the payload.
pub proof fn lemma_mask_self_inverse(payload: Seq<u8>, key: Seq<u8>)
    requires
        key.len() == 4,
    ensures
        spec_mask(spec_mask(payload, key), key) == payload,
{
    assert forall|i: int| 0 <= i < payload.len() implies
        #[trigger] spec_mask(spec_mask(payload, key), key)[i] == payload[i] by {
        let b = payload[i];
        let k = key[i % 4];
        assert((b ^ k) ^ k == b) by (bit_vector);
    }
    assert(spec_mask(spec_mask(payload, key), key) =~= payload);
}

} // verus!
