use vstd::prelude::*;

verus! {

/// `input` with the bits of the mask `bit` cleared.
pub open spec fn spec_clear_bit(input: u8, bit: u8) -> u8 {
    input & !bit
}

/// `input` with the bits of the mask `bit` set.
pub open spec fn spec_set_bit(input: u8, bit: u8) -> u8 {
    input | bit
}

/// `input` with the bits of the mask `bit` set if `whether`, cleared if not.
pub open spec fn spec_assign_bit(input: u8, bit: u8, whether: bool) -> u8 {
    if whether {
        spec_set_bit(input, bit)
    } else {
        spec_clear_bit(input, bit)
    }
}

/// Whether every bit of the mask `bit` is set in `input`.
pub open spec fn spec_is_bit_set(input: u8, bit: u8) -> bool {
    input & bit == bit
}

#[verifier::when_used_as_spec(spec_clear_bit)]
pub fn clear_bit(input: u8, bit: u8) -> (out: u8)
    ensures
        out == spec_clear_bit(input, bit),
{
    input & !bit
}

#[verifier::when_used_as_spec(spec_set_bit)]
pub fn set_bit(input: u8, bit: u8) -> (out: u8)
    ensures
        out == spec_set_bit(input, bit),
{
    input | bit
}

#[verifier::when_used_as_spec(spec_assign_bit)]
pub fn assign_bit(input: u8, bit: u8, whether: bool) -> (out: u8)
    ensures
        out == spec_assign_bit(input, bit, whether),
{
    if whether {
        set_bit(input, bit)
    } else {
        clear_bit(input, bit)
    }
}

#[verifier::when_used_as_spec(spec_is_bit_set)]
pub fn is_bit_set(input: u8, bit: u8) -> (out: bool)
    ensures
        out == spec_is_bit_set(input, bit),
{
    input & bit == bit
}

/// The 16-bit word made of a low and a high byte.
pub open spec fn spec_word(low: u8, high: u8) -> u16 {
    (high as u16 * 256 + low as u16) as u16
}

/// The low byte of a 16-bit word.
pub open spec fn spec_low_byte(word: u16) -> u8 {
    (word % 256) as u8
}

/// The high byte of a 16-bit word.
pub open spec fn spec_high_byte(word: u16) -> u8 {
    (word / 256) as u8
}

#[verifier::when_used_as_spec(spec_word)]
pub fn word(low: u8, high: u8) -> (out: u16)
    ensures
        out == spec_word(low, high),
{
    high as u16 * 256 + low as u16
}

#[verifier::when_used_as_spec(spec_low_byte)]
pub fn low_byte(word: u16) -> (out: u8)
    ensures
        out == spec_low_byte(word),
{
    (word % 256) as u8
}

#[verifier::when_used_as_spec(spec_high_byte)]
pub fn high_byte(word: u16) -> (out: u8)
    ensures
        out == spec_high_byte(word),
{
    (word / 256) as u8
}

/// A word is the word of its two bytes, and the bytes of a word made of two
/// bytes are those bytes.
pub proof fn lemma_word_bytes(low: u8, high: u8, w: u16)
    ensures
        spec_low_byte(spec_word(low, high)) == low,
        spec_high_byte(spec_word(low, high)) == high,
        spec_word(spec_low_byte(w), spec_high_byte(w)) == w,
{
}

/// What shifting a byte by one bit means in arithmetic, and what the lowest
/// and highest bit of a byte say about its value.
pub proof fn lemma_shift_arithmetic(value: u8)
    by (bit_vector)
    ensures
        ({
            &&& value << 1u8 == ((value * 2) % 256) as u8
            &&& value >> 1u8 == value / 2
            &&& (value << 1u8) | 0x01u8 == ((value * 2) % 256 + 1) as u8
            &&& (value >> 1u8) | 0x80u8 == (value / 2 + 128) as u8
            &&& (value & 0x80u8 == 0x80u8) == (value >= 0x80u8)
            &&& (value & 0x01u8 == 0x01u8) == (value % 2 == 1)
            &&& value & 0x01u8 == value % 2
        }),
{
}

/// What leaves bit 5 of a byte set: setting any bits, assigning or clearing
/// bits other than bit 5, and replacing the two highest bits.
pub proof fn lemma_bit_5_stays()
    by (bit_vector)
    ensures
        forall|p: u8, flag: u8, whether: bool|
            p & 0x20u8 == 0x20u8 && flag & 0x20u8 == 0u8 ==> #[trigger] spec_assign_bit(p, flag, whether)
                & 0x20u8 == 0x20u8,
        forall|p: u8, flag: u8| p & 0x20u8 == 0x20u8 ==> #[trigger] spec_set_bit(p, flag) & 0x20u8 == 0x20u8,
        forall|p: u8, flag: u8|
            p & 0x20u8 == 0x20u8 && flag & 0x20u8 == 0u8 ==> #[trigger] spec_clear_bit(p, flag) & 0x20u8
                == 0x20u8,
        forall|p: u8, value: u8|
            p & 0x20u8 == 0x20u8 ==> #[trigger] ((p & 0x3Fu8) | (value & 0xC0u8)) & 0x20u8 == 0x20u8,
        forall|value: u8| #[trigger] (value | 0x20u8 | 0x10u8) & 0x20u8 == 0x20u8,
        forall|value: u8| #[trigger] (value | 0x20u8) & 0x20u8 == 0x20u8,
        0xFFu8 & 0x20u8 == 0x20u8,
        0x01u8 & 0x20u8 == 0u8,
        0x02u8 & 0x20u8 == 0u8,
        0x04u8 & 0x20u8 == 0u8,
        0x08u8 & 0x20u8 == 0u8,
        0x40u8 & 0x20u8 == 0u8,
        0x80u8 & 0x20u8 == 0u8,
{
}

} // verus!
