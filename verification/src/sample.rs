//! Decoding of the raw acquisition value: accumulating the sampled
//! data-line levels and sign-extending the 24-bit result.

use vstd::prelude::*;

verus! {

/// Number of data bits shifted out of the converter per acquisition.
pub const SAMPLE_BITS: usize = 24;

/// The low 24 bits of `v` read as a two's-complement number: if bit 23
/// is clear the value is `v & 0xFF_FFFF` itself, otherwise it is
/// `v & 0xFF_FFFF - 0x100_0000`.
pub open spec fn sign_extend_24(v: u32) -> int {
    if v & 0x80_0000 != 0 {
        (v & 0xFF_FFFF) - 0x100_0000
    } else {
        (v & 0xFF_FFFF) as int
    }
}

/// One step of the acquisition accumulator: the sampled level is ORed
/// into the accumulator, which is then shifted left by one.
pub open spec fn shift_in_step(acc: u32, bit: bool) -> u32 {
    ((acc | (if bit { 1u32 } else { 0u32 })) << 1u32) as u32
}

/// The accumulator after shifting in all levels of `bits` in order,
/// starting from zero.
pub open spec fn shift_in_all(bits: Seq<bool>) -> u32
    decreases bits.len(),
{
    if bits.len() == 0 {
        0u32
    } else {
        shift_in_step(shift_in_all(bits.drop_last()), bits.last())
    }
}

/// Widens the low 24 bits of `value`, read as a two's-complement
/// number, to a signed 32-bit integer.
pub fn i24_to_i32(value: u32) -> (r: i32)
    ensures
        r == sign_extend_24(value),
        value & 0x80_0000 == 0 ==> r == value & 0xFF_FFFF,
        value & 0x80_0000 != 0 ==> r == (value & 0xFF_FFFF) - 0x100_0000,
        -0x80_0000 <= r <= 0x7F_FFFF,
{
    let masked_value = value & 0xFF_FFFF;
    proof {
        assert(value & 0xFF_FFFF <= 0xFF_FFFF) by (bit_vector);
        assert((value & 0xFF_FFFF) & 0x80_0000 == value & 0x80_0000) by (bit_vector);
        assert(value & 0x80_0000 != 0 ==> value & 0xFF_FFFF >= 0x80_0000) by (bit_vector);
        assert(value & 0x80_0000 == 0 ==> value & 0xFF_FFFF <= 0x7F_FFFF) by (bit_vector);
    }
    if masked_value & 0x80_0000 != 0 {
        masked_value as i32 - 0x100_0000
    } else {
        masked_value as i32
    }
}

/// Runs the acquisition accumulator over the sampled levels of `bits`,
/// most significant first: each level is ORed in and the accumulator
/// is then shifted left by one.
pub fn accumulate_bits(bits: &Vec<bool>) -> (acc: u32)
    ensures
        acc == shift_in_all(bits@),
{
    let mut acc: u32 = 0;
    let mut i: usize = 0;
    while i < bits.len()
        invariant
            i <= bits@.len(),
            acc == shift_in_all(bits@.take(i as int)),
        decreases bits@.len() - i,
    {
        let level: u32 = if bits[i] { 1 } else { 0 };
        acc = (acc | level) << 1u32;
        proof {
            assert(bits@.take(i + 1).drop_last() =~= bits@.take(i as int));
            assert(bits@.take(i + 1).last() == bits@[i as int]);
            assert(shift_in_all(bits@.take(i + 1)) == acc);
        }
        i = i + 1;
    }
    proof {
        assert(bits@.take(bits@.len() as int) =~= bits@);
    }
    acc
}

/// Decodes one acquisition: accumulates the 24 sampled levels and
/// sign-extends the result.
pub fn decode_sample(bits: &Vec<bool>) -> (r: i32)
    ensures
        r == sign_extend_24(shift_in_all(bits@)),
        -0x80_0000 <= r <= 0x7F_FFFF,
{
    i24_to_i32(accumulate_bits(bits))
}

} // verus!
