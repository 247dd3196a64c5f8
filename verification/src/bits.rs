//! Bytes, 16-bit words and parity, stated arithmetically.

use vstd::prelude::*;

verus! {

/// The 16-bit word made of two bytes, most significant byte first.
pub open spec fn word(high: u8, low: u8) -> u16 {
    (high as int * 256 + low as int) as u16
}

/// The most significant byte of a word.
pub open spec fn high_byte(w: u16) -> u8 {
    (w as int / 256) as u8
}

/// The least significant byte of a word.
pub open spec fn low_byte(w: u16) -> u8 {
    (w as int % 256) as u8
}

/// The address `n` places after `adr`, wrapping at the end of the 64 KiB space.
pub open spec fn offset(adr: u16, n: int) -> u16 {
    ((adr as int + n) % 65536) as u16
}

/// The byte that an integer leaves modulo 256.
pub open spec fn wrap8(value: int) -> u8 {
    (value % 256) as u8
}

/// The number of bits that are set in a byte.
pub open spec fn bit_count(value: u8) -> int {
    let v = value as int;
    v % 2 + v / 2 % 2 + v / 4 % 2 + v / 8 % 2 + v / 16 % 2 + v / 32 % 2 + v / 64 % 2 + v / 128
}

/// A byte has even parity when an even number of its bits are set.
pub open spec fn even_parity(value: u8) -> bool {
    bit_count(value) % 2 == 0
}

/// Joins two bytes into a word, `high` first.
pub fn join(high: u8, low: u8) -> (w: u16)
    ensures
        w == word(high, low),
        high_byte(w) == high,
        low_byte(w) == low,
{
    assert(((high as u16) << 8) | (low as u16) == (high as u16) * 256 + (low as u16))
        by (bit_vector);
    ((high as u16) << 8) | (low as u16)
}

/// Splits a word into its bytes, the most significant one first.
pub fn split(w: u16) -> (bytes: (u8, u8))
    ensures
        bytes.0 == high_byte(w),
        bytes.1 == low_byte(w),
        word(bytes.0, bytes.1) == w,
{
    assert((w >> 8) == w / 256 && (w & 0xff) == w % 256) by (bit_vector);
    let high = (w >> 8) as u8;
    let low = (w & 0xff) as u8;
    (high, low)
}

/// The address after `adr`; after 0xFFFF comes 0.
pub fn following(adr: u16) -> (next: u16)
    ensures
        next == offset(adr, 1),
{
    adr.wrapping_add(1)
}

/// The address before `adr`; before 0 comes 0xFFFF.
pub fn preceding(adr: u16) -> (prev: u16)
    ensures
        prev == offset(adr, -1),
{
    adr.wrapping_sub(1)
}

/// Tells whether a byte has even parity.
pub fn has_even_parity(value: u8) -> (even: bool)
    ensures
        even == even_parity(value),
        even <==> bit_count(value) % 2 == 0,
{
    let folded = value ^ (value >> 4);
    let folded = folded ^ (folded >> 2);
    let folded = folded ^ (folded >> 1);
    assert({
        let a = value ^ (value >> 4);
        let b = a ^ (a >> 2);
        let c = b ^ (b >> 1);
        ((c & 1) == 0) == ((value % 2 + value / 2 % 2 + value / 4 % 2 + value / 8 % 2 + value / 16
            % 2 + value / 32 % 2 + value / 64 % 2 + value / 128) % 2 == 0)
    }) by (bit_vector);
    (folded & 1) == 0
}

} // verus!
