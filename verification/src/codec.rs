//! Assembly of raw register bytes into signed 16-bit readings.
//!
//! Every measurement of the chip is delivered as a pair of bytes holding a
//! little-endian two's-complement 16-bit value; the temperature reading is
//! additionally shifted right (arithmetically) by four bits.

use vstd::prelude::*;

verus! {

/// The unsigned 16-bit word assembled from a low and a high byte.
pub open spec fn word_of(lo: u8, hi: u8) -> nat {
    lo as nat + 256 * (hi as nat)
}

/// The two's-complement reading of a 16-bit word.
pub open spec fn signed_of_word(w: nat) -> int
    recommends
        w < 0x10000,
{
    if w < 0x8000 {
        w as int
    } else {
        w as int - 0x10000
    }
}

/// The signed 16-bit value encoded little-endian by the byte pair `(lo, hi)`.
pub open spec fn decode16(lo: u8, hi: u8) -> int {
    signed_of_word(word_of(lo, hi))
}

/// The temperature reading encoded by the byte pair `(lo, hi)`: the assembled
/// signed value, arithmetically shifted right by four bits (floor division by
/// sixteen).
pub open spec fn decode_temp(lo: u8, hi: u8) -> int {
    decode16(lo, hi) / 16
}

/// Assembles a little-endian two's-complement 16-bit value from its two bytes.
pub fn decode_i16(lo: u8, hi: u8) -> (r: i16)
    ensures
        r as int == decode16(lo, hi),
{
    let w: u16 = (lo as u16) + (hi as u16) * 256;
    if w < 0x8000 {
        w as i16
    } else {
        ((w as i32) - 0x10000) as i16
    }
}

/// Assembles a temperature reading: little-endian 16-bit assembly followed by
/// an arithmetic shift right by four bits.
pub fn decode_temp_i16(lo: u8, hi: u8) -> (r: i16)
    ensures
        r as int == decode_temp(lo, hi),
{
    let w: u16 = (lo as u16) + (hi as u16) * 256;
    if w < 0x8000 {
        (w / 16) as i16
    } else {
        proof {
            let q: int = (w as int) / 16;
            vstd::arithmetic::div_mod::lemma_fundamental_div_mod(w as int, 16);
            vstd::arithmetic::div_mod::lemma_fundamental_div_mod_converse(
                w as int - 0x10000,
                16,
                q - 0x1000,
                (w as int) % 16,
            );
        }
        ((w as i32) / 16 - 0x1000) as i16
    }
}

} // verus!
