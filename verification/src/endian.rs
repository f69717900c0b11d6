//! Amounts as eight little-endian bytes, stated in plain arithmetic.

use vstd::bytes::*;
use vstd::prelude::*;

verus! {

/// The eight bytes that spell `value`, lowest byte first.
pub open spec fn le_bytes(value: u64) -> Seq<u8> {
    seq![
        (value % 0x100) as u8,
        (value / 0x100 % 0x100) as u8,
        (value / 0x1_0000 % 0x100) as u8,
        (value / 0x100_0000 % 0x100) as u8,
        (value / 0x1_0000_0000 % 0x100) as u8,
        (value / 0x100_0000_0000 % 0x100) as u8,
        (value / 0x1_0000_0000_0000 % 0x100) as u8,
        (value / 0x100_0000_0000_0000 % 0x100) as u8,
    ]
}

/// The number that eight bytes spell, lowest byte first.
pub open spec fn le_value(bytes: Seq<u8>) -> nat
    recommends
        bytes.len() == 8,
{
    (bytes[0] + bytes[1] * 0x100 + bytes[2] * 0x1_0000 + bytes[3] * 0x100_0000 + bytes[4]
        * 0x1_0000_0000 + bytes[5] * 0x100_0000_0000 + bytes[6] * 0x1_0000_0000_0000 + bytes[7]
        * 0x100_0000_0000_0000) as nat
}

/// Eight bytes spell a number that fits in 64 bits.
pub proof fn lemma_le_value_fits(bytes: Seq<u8>)
    requires
        bytes.len() == 8,
    ensures
        le_value(bytes) <= u64::MAX,
{
}

/// Spelling a number and reading it back gives the number.
pub proof fn lemma_le_value_of_bytes(value: u64)
    ensures
        le_bytes(value).len() == 8,
        le_value(le_bytes(value)) == value,
{
    assert(value % 0x100 + (value / 0x100 % 0x100) * 0x100 + (value / 0x1_0000 % 0x100) * 0x1_0000
        + (value / 0x100_0000 % 0x100) * 0x100_0000 + (value / 0x1_0000_0000 % 0x100)
        * 0x1_0000_0000 + (value / 0x100_0000_0000 % 0x100) * 0x100_0000_0000 + (value
        / 0x1_0000_0000_0000 % 0x100) * 0x1_0000_0000_0000 + (value / 0x100_0000_0000_0000 % 0x100)
        * 0x100_0000_0000_0000 == value) by (bit_vector);
}

/// Reading eight bytes and spelling the number gives the bytes.
pub proof fn lemma_le_bytes_of_value(bytes: Seq<u8>)
    requires
        bytes.len() == 8,
    ensures
        le_bytes(le_value(bytes) as u64) == bytes,
{
    lemma_le_value_fits(bytes);
    let value = le_value(bytes) as u64;
    let (b0, b1, b2, b3) = (bytes[0], bytes[1], bytes[2], bytes[3]);
    let (b4, b5, b6, b7) = (bytes[4], bytes[5], bytes[6], bytes[7]);
    assert(value % 0x100 == b0 && value / 0x100 % 0x100 == b1 && value / 0x1_0000 % 0x100 == b2
        && value / 0x100_0000 % 0x100 == b3 && value / 0x1_0000_0000 % 0x100 == b4 && value
        / 0x100_0000_0000 % 0x100 == b5 && value / 0x1_0000_0000_0000 % 0x100 == b6 && value
        / 0x100_0000_0000_0000 % 0x100 == b7) by (bit_vector)
        requires
            value == b0 + b1 * 0x100 + b2 * 0x1_0000 + b3 * 0x100_0000 + b4 * 0x1_0000_0000 + b5
                * 0x100_0000_0000 + b6 * 0x1_0000_0000_0000 + b7 * 0x100_0000_0000_0000,
    ;
    assert(le_bytes(value) =~= bytes);
}

/// The bytes that `u64::to_le_bytes` gives are the ones stated here.
pub proof fn lemma_to_le_bytes(value: u64)
    ensures
        spec_u64_to_le_bytes(value) == le_bytes(value),
{
    spec_u64_to_le_bytes_to_open(value);
    assert(value & 0xff == value % 0x100) by (bit_vector);
    assert((value >> 8) & 0xff == value / 0x100 % 0x100) by (bit_vector);
    assert((value >> 16) & 0xff == value / 0x1_0000 % 0x100) by (bit_vector);
    assert((value >> 24) & 0xff == value / 0x100_0000 % 0x100) by (bit_vector);
    assert((value >> 32) & 0xff == value / 0x1_0000_0000 % 0x100) by (bit_vector);
    assert((value >> 40) & 0xff == value / 0x100_0000_0000 % 0x100) by (bit_vector);
    assert((value >> 48) & 0xff == value / 0x1_0000_0000_0000 % 0x100) by (bit_vector);
    assert((value >> 56) & 0xff == value / 0x100_0000_0000_0000 % 0x100) by (bit_vector);
    assert(spec_u64_to_le_bytes_open(value) =~= le_bytes(value));
}

/// The number that `u64::from_le_bytes` reads is the one stated here.
pub proof fn lemma_from_le_bytes(bytes: Seq<u8>)
    requires
        bytes.len() == 8,
    ensures
        spec_u64_from_le_bytes(bytes) == le_value(bytes),
{
    lemma_le_value_fits(bytes);
    let value = le_value(bytes) as u64;
    lemma_le_bytes_of_value(bytes);
    lemma_to_le_bytes(value);
    lemma_auto_spec_u64_to_from_le_bytes();
    assert(spec_u64_from_le_bytes(spec_u64_to_le_bytes(value)) == value);
}

} // verus!
