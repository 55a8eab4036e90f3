//! The wire codec: every payload on every channel is one unsigned 32-bit
//! value carried as exactly 4 little-endian bytes.

use vstd::prelude::*;

verus! {

/// The number a 4-byte little-endian word stands for.
pub open spec fn word_value(b: Seq<u8>) -> int
    recommends
        b.len() == 4,
{
    b[0] + 256 * b[1] + 65536 * b[2] + 16777216 * b[3]
}

/// Encode a value as its 4-byte little-endian word.
pub fn encode_u32_le(v: u32) -> (b: Vec<u8>)
    ensures
        b@.len() == 4,
        word_value(b@) == v,
{
    let b0 = (v & 0xff) as u8;
    let b1 = ((v >> 8u32) & 0xff) as u8;
    let b2 = ((v >> 16u32) & 0xff) as u8;
    let b3 = ((v >> 24u32) & 0xff) as u8;
    proof {
        assert((v & 0xff) + 256 * ((v >> 8u32) & 0xff) + 65536 * ((v >> 16u32) & 0xff)
            + 16777216 * ((v >> 24u32) & 0xff) == v) by (bit_vector);
        assert(v & 0xff < 256 && (v >> 8u32) & 0xff < 256 && (v >> 16u32) & 0xff < 256 && (v
            >> 24u32) & 0xff < 256) by (bit_vector);
    }
    let mut b: Vec<u8> = Vec::new();
    b.push(b0);
    b.push(b1);
    b.push(b2);
    b.push(b3);
    b
}

/// Decode a 4-byte little-endian word back into its value.
pub fn decode_u32_le(b: &Vec<u8>) -> (v: u32)
    requires
        b@.len() == 4,
    ensures
        v == word_value(b@),
{
    let v0 = b[0] as u32;
    let v1 = b[1] as u32;
    let v2 = b[2] as u32;
    let v3 = b[3] as u32;
    v0 + v1 * 256 + v2 * 65536 + v3 * 16777216
}

/// Law: the codec round-trips — decoding an encoded word gives the value
/// back, and two words with the same value are the same bytes.
pub proof fn lemma_word_value_injective(b1: Seq<u8>, b2: Seq<u8>)
    requires
        b1.len() == 4,
        b2.len() == 4,
        word_value(b1) == word_value(b2),
    ensures
        b1 =~= b2,
{
    let x1 = b1[0];
    let y1 = b1[1];
    let z1 = b1[2];
    let w1 = b1[3];
    let x2 = b2[0];
    let y2 = b2[1];
    let z2 = b2[2];
    let w2 = b2[3];
    assert(x1 + 256 * y1 + 65536 * z1 + 16777216 * w1 == x2 + 256 * y2 + 65536 * z2 + 16777216 * w2
        ==> x1 == x2 && y1 == y2 && z1 == z2 && w1 == w2) by (bit_vector);
}

} // verus!
