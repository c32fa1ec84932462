//! The sample codec on integer levels.
//!
//! A wire word carries a signed 24-bit sample in the low bits of a 32-bit
//! container. Its level is a signed integer in `[-2^23, 2^23)`; the float
//! sample is that level divided by `2^23`. Decoding adds the bias `2^23`
//! (wrapping), keeps the low 24 bits and takes the bias off again, which
//! reads the low 24 bits as two's complement: it wraps and never saturates.
//! Encoding takes a level already scaled by `2^23 - 1` and truncated toward
//! zero, clamps it to `[-2^23, 2^23 - 1]`, and stores it as a two's
//! complement word. So decoding undoes encoding on every clamped level.
use vstd::prelude::*;

verus! {

/// `2^23`: the bias of a wire word and the scale of a decoded level.
pub const LEVEL_BIAS: u32 = 0x0080_0000;

/// Mask of the 24 sample bits of a wire word.
pub const SAMPLE_MASK: u32 = 0x00FF_FFFF;

/// Largest level that encoding stores: `2^23 - 1`.
pub const MAX_LEVEL: i64 = 0x007F_FFFF;

/// Smallest level that encoding stores: `-2^23`.
pub const MIN_LEVEL: i64 = -0x0080_0000;

/// A 24-bit value read as a two's complement number.
pub open spec fn sign_extend_24(u: int) -> int {
    if u >= 0x80_0000 {
        u - 0x100_0000
    } else {
        u
    }
}

/// The level of a wire word: its low 24 bits read as a signed number.
pub open spec fn decoded_level(w: u32) -> int {
    sign_extend_24(w as int % 0x100_0000)
}

/// A scaled and truncated sample clamped to the range that encoding stores.
pub open spec fn clamped_level(v: int) -> int {
    if v > 0x7F_FFFF {
        0x7F_FFFF
    } else if v < -0x80_0000 {
        -0x80_0000
    } else {
        v
    }
}

/// A signed 32-bit value stored in an unsigned 32-bit container.
pub open spec fn twos_complement(c: int) -> int {
    if c < 0 {
        c + 0x1_0000_0000
    } else {
        c
    }
}

/// The wire word that encoding stores for a scaled, truncated sample.
pub open spec fn encoded_word(v: int) -> int {
    twos_complement(clamped_level(v))
}

/// Decoding undoes encoding: the word stored for any value decodes to that
/// value clamped to the range that encoding stores. In particular the level
/// zero (the sample 0.0) comes back as zero, and every level in range comes
/// back exactly.
pub proof fn lemma_decode_encode_round_trip(v: int)
    ensures
        0 <= encoded_word(v) < 0x1_0000_0000,
        decoded_level(encoded_word(v) as u32) == clamped_level(v),
        -0x80_0000 <= v <= 0x7F_FFFF ==> decoded_level(encoded_word(v) as u32) == v,
{
    let c = clamped_level(v);
    if c < 0 {
        let w = c + 0x1_0000_0000;
        assert(w == 0xFF * 0x100_0000 + (c + 0x100_0000));
        assert(w % 0x100_0000 == c + 0x100_0000);
    } else {
        assert(c % 0x100_0000 == c);
    }
}

/// Encoding saturates: every value at or above the largest level stores the
/// largest level's word, every value at or below the smallest level stores
/// the smallest level's word, and values in between are stored unchanged.
pub proof fn lemma_encode_saturates(v: int)
    ensures
        v >= 0x7F_FFFF ==> encoded_word(v) == 0x7F_FFFF,
        v <= -0x80_0000 ==> encoded_word(v) == 0xFF80_0000,
        -0x80_0000 <= v <= 0x7F_FFFF ==> encoded_word(v) == twos_complement(v),
{
}

/// Decodes a wire word into its level, a signed value in `[-2^23, 2^23)`.
/// The float sample is this level divided by `2^23`.
pub fn decode_level(w: u32) -> (r: i32)
    ensures
        r as int == decoded_level(w),
        -0x80_0000 <= r < 0x80_0000,
{
    let u = w.wrapping_add(LEVEL_BIAS) & SAMPLE_MASK;
    assert(u as int == (w as int % 0x100_0000 + 0x80_0000) % 0x100_0000) by (bit_vector)
        requires
            u == (w.wrapping_add(0x0080_0000u32)) & 0x00FF_FFFFu32,
    ;
    (u as i32) - (LEVEL_BIAS as i32)
}

/// Encodes a sample, already multiplied by `2^23 - 1` and truncated toward
/// zero, into a wire word. Out-of-range values saturate.
pub fn encode_level(v: i64) -> (r: u32)
    ensures
        r as int == encoded_word(v as int),
{
    let c: i64 = if v > MAX_LEVEL {
        MAX_LEVEL
    } else if v < MIN_LEVEL {
        MIN_LEVEL
    } else {
        v
    };
    if c < 0 {
        (c + 0x1_0000_0000) as u32
    } else {
        c as u32
    }
}

} // verus!
