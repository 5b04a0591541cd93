use ads123x::sample::accumulate_bits;
use ads123x::sample::decode_sample;
use ads123x::sample::i24_to_i32;
use ads123x::sample::SAMPLE_BITS;

#[test]
fn sign_extension_positive_one() {
    assert_eq!(i24_to_i32(0x000001), 1);
}

#[test]
fn sign_extension_largest_positive() {
    assert_eq!(i24_to_i32(0x7FFFFF), 8_388_607);
}

#[test]
fn sign_extension_most_negative() {
    assert_eq!(i24_to_i32(0x800000), -8_388_608);
}

#[test]
fn sign_extension_minus_one() {
    assert_eq!(i24_to_i32(0xFFFFFF), -1);
}

#[test]
fn sign_extension_ignores_upper_bits() {
    assert_eq!(i24_to_i32(0xFF000001), 1);
    assert_eq!(i24_to_i32(0x01800000), -8_388_608);
}

#[test]
fn sign_extension_zero() {
    assert_eq!(i24_to_i32(0), 0);
}

#[test]
fn accumulator_all_low_is_zero() {
    let bits = vec![false; SAMPLE_BITS];
    assert_eq!(accumulate_bits(&bits), 0);
    assert_eq!(decode_sample(&bits), 0);
}

#[test]
fn accumulator_ors_before_shifting() {
    // A single high level in the last position is ORed in and then
    // shifted once, so it decodes to 2, not 1.
    let mut bits = vec![false; SAMPLE_BITS];
    bits[SAMPLE_BITS - 1] = true;
    assert_eq!(accumulate_bits(&bits), 2);
    assert_eq!(decode_sample(&bits), 2);
}

#[test]
fn accumulator_first_bit_leaves_the_24_bit_window() {
    // The first sampled level ends up in bit 24 after the 24 shifts
    // and is masked away by the sign extension.
    let mut bits = vec![false; SAMPLE_BITS];
    bits[0] = true;
    assert_eq!(accumulate_bits(&bits), 0x100_0000);
    assert_eq!(decode_sample(&bits), 0);
}

#[test]
fn accumulator_all_high_decodes_negative() {
    // All-high levels accumulate to 2^25 - 2; the low 24 bits are
    // 0xFFFFFE, which sign-extends to -2.
    let bits = vec![true; SAMPLE_BITS];
    assert_eq!(accumulate_bits(&bits), 0x1FF_FFFE);
    assert_eq!(decode_sample(&bits), -2);
}
