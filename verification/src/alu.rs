//! The arithmetic and logic unit: the eight operations that combine the
//! accumulator with an operand and set the flags from the result.

use vstd::prelude::*;
use crate::bits::wrap8;
use crate::flags::Flags;
use crate::instr::AluOp;

verus! {

/// A carry or borrow as a number: 1 when it is set.
pub open spec fn carry_in(cy: bool) -> int {
    if cy {
        1
    } else {
        0
    }
}

/// `a` rotated one bit to the left: bit 7 comes back in at bit 0.
pub open spec fn rotated_left(a: u8) -> u8 {
    wrap8(a * 2 + a / 128)
}

/// `a` rotated one bit to the right: bit 0 comes back in at bit 7.
pub open spec fn rotated_right(a: u8) -> u8 {
    wrap8(a / 2 + (a % 2) * 128)
}

/// `a` shifted one bit to the left, with `cy` coming in at bit 0.
pub open spec fn shifted_left(a: u8, cy: bool) -> u8 {
    wrap8(a * 2 + carry_in(cy))
}

/// `a` shifted one bit to the right, with `cy` coming in at bit 7.
pub open spec fn shifted_right(a: u8, cy: bool) -> u8 {
    wrap8(a / 2 + carry_in(cy) * 128)
}

/// Bit 7 of `a`.
pub open spec fn top_bit(a: u8) -> bool {
    a >= 128
}

/// Bit 0 of `a`.
pub open spec fn low_bit(a: u8) -> bool {
    a % 2 == 1
}

/// `a` with every bit inverted.
pub open spec fn complement(a: u8) -> u8 {
    wrap8(255 - a)
}

impl AluOp {
    /// The byte that the operation computes from the accumulator `a`, the
    /// operand `v` and the Carry flag `cy`. Sums and differences wrap at 256.
    pub open spec fn value(self, a: u8, v: u8, cy: bool) -> u8 {
        match self {
            AluOp::Add => wrap8(a + v),
            AluOp::Adc => wrap8(a + v + carry_in(cy)),
            AluOp::Sub | AluOp::Cmp => wrap8(a - v),
            AluOp::Sbb => wrap8(a - v - carry_in(cy)),
            AluOp::And => a & v,
            AluOp::Xor => a ^ v,
            AluOp::Or => a | v,
        }
    }

    /// The Carry flag after the operation: the carry out of bit 7 of a sum,
    /// the borrow of a difference, and clear after a logical operation.
    pub open spec fn carry(self, a: u8, v: u8, cy: bool) -> bool {
        match self {
            AluOp::Add => a + v > 255,
            AluOp::Adc => a + v + carry_in(cy) > 255,
            AluOp::Sub | AluOp::Cmp => a < v,
            AluOp::Sbb => a < v + carry_in(cy),
            AluOp::And | AluOp::Xor | AluOp::Or => false,
        }
    }

    /// Whether the operation stores its result in the accumulator. A
    /// comparison only sets the flags.
    pub open spec fn stores(self) -> bool {
        self != AluOp::Cmp
    }

    /// The flags after the operation.
    pub open spec fn flags(self, a: u8, v: u8, flags: Flags) -> Flags {
        flags.updated(self.value(a, v, flags.carry), Some(self.carry(a, v, flags.carry)))
    }
}

/// Adds `value` to `a`: the sum modulo 256, with Carry set exactly when the
/// sum is over 255.
pub fn add(a: u8, value: u8, flags: &mut Flags) -> (r: u8)
    ensures
        r == (a + value) % 256,
        final(flags).carry <==> a + value > 255,
        r == AluOp::Add.value(a, value, old(flags).carry),
        *final(flags) == AluOp::Add.flags(a, value, *old(flags)),
{
    let r = a.wrapping_add(value);
    let cy = r < a;
    flags.upd(r, Some(cy));
    r
}

/// Adds `value` and the Carry flag to `a`.
pub fn adc(a: u8, value: u8, flags: &mut Flags) -> (r: u8)
    ensures
        r == (a + value + carry_in(old(flags).carry)) % 256,
        final(flags).carry <==> a + value + carry_in(old(flags).carry) > 255,
        r == AluOp::Adc.value(a, value, old(flags).carry),
        *final(flags) == AluOp::Adc.flags(a, value, *old(flags)),
{
    let partial = a.wrapping_add(value);
    let cy1 = partial < a;
    let carry: u8 = if flags.carry {
        1
    } else {
        0
    };
    let r = partial.wrapping_add(carry);
    let cy2 = r < partial;
    flags.upd(r, Some(cy1 || cy2));
    r
}

/// Subtracts `value` from `a`: the difference modulo 256, with Carry set
/// exactly when `value` is the larger one (a borrow).
pub fn sub(a: u8, value: u8, flags: &mut Flags) -> (r: u8)
    ensures
        r == (a - value) % 256,
        final(flags).carry <==> a < value,
        r == AluOp::Sub.value(a, value, old(flags).carry),
        *final(flags) == AluOp::Sub.flags(a, value, *old(flags)),
{
    let r = a.wrapping_sub(value);
    let cy = a < value;
    flags.upd(r, Some(cy));
    r
}

/// Subtracts `value` and the Carry flag from `a`.
pub fn sbb(a: u8, value: u8, flags: &mut Flags) -> (r: u8)
    ensures
        r == (a - value - carry_in(old(flags).carry)) % 256,
        final(flags).carry <==> a < value + carry_in(old(flags).carry),
        r == AluOp::Sbb.value(a, value, old(flags).carry),
        *final(flags) == AluOp::Sbb.flags(a, value, *old(flags)),
{
    let partial = a.wrapping_sub(value);
    let cy1 = a < value;
    let carry: u8 = if flags.carry {
        1
    } else {
        0
    };
    let r = partial.wrapping_sub(carry);
    let cy2 = partial < carry;
    flags.upd(r, Some(cy1 || cy2));
    r
}

/// The bitwise AND of `a` and `value`. Carry is cleared.
pub fn and(a: u8, value: u8, flags: &mut Flags) -> (r: u8)
    ensures
        r == a & value,
        r == AluOp::And.value(a, value, old(flags).carry),
        *final(flags) == AluOp::And.flags(a, value, *old(flags)),
{
    let r = a & value;
    flags.upd(r, Some(false));
    r
}

/// The bitwise exclusive OR of `a` and `value`. Carry is cleared.
pub fn xor(a: u8, value: u8, flags: &mut Flags) -> (r: u8)
    ensures
        r == a ^ value,
        r == AluOp::Xor.value(a, value, old(flags).carry),
        *final(flags) == AluOp::Xor.flags(a, value, *old(flags)),
{
    let r = a ^ value;
    flags.upd(r, Some(false));
    r
}

/// The bitwise OR of `a` and `value`. Carry is cleared.
pub fn ior(a: u8, value: u8, flags: &mut Flags) -> (r: u8)
    ensures
        r == a | value,
        r == AluOp::Or.value(a, value, old(flags).carry),
        *final(flags) == AluOp::Or.flags(a, value, *old(flags)),
{
    let r = a | value;
    flags.upd(r, Some(false));
    r
}

/// Compares `a` with `value`: sets the flags as the subtraction `a - value`
/// does, and keeps no difference.
pub fn cmp(a: u8, value: u8, flags: &mut Flags)
    ensures
        final(flags).carry <==> a < value,
        final(flags).zero <==> a == value,
        *final(flags) == AluOp::Cmp.flags(a, value, *old(flags)),
{
    let r = a.wrapping_sub(value);
    let cy = a < value;
    assert(r == 0 <==> a == value);
    assert(r == wrap8(a - value));
    flags.upd(r, Some(cy));
}

/// Applies an operation to the accumulator `a` and the operand `value`: sets
/// the flags and returns the new accumulator, which is `a` itself after a
/// comparison.
pub fn apply(op: AluOp, a: u8, value: u8, flags: &mut Flags) -> (r: u8)
    ensures
        r == (if op.stores() {
            op.value(a, value, old(flags).carry)
        } else {
            a
        }),
        *final(flags) == op.flags(a, value, *old(flags)),
{
    match op {
        AluOp::Add => self::add(a, value, flags),
        AluOp::Adc => adc(a, value, flags),
        AluOp::Sub => self::sub(a, value, flags),
        AluOp::Sbb => sbb(a, value, flags),
        AluOp::And => and(a, value, flags),
        AluOp::Xor => xor(a, value, flags),
        AluOp::Or => ior(a, value, flags),
        AluOp::Cmp => {
            cmp(a, value, flags);
            a
        },
    }
}

/// Adds 1 to `value`, wrapping from 255 to 0. Zero, Sign and Parity follow
/// the result; Carry stays as it is.
pub fn inr(value: u8, flags: &mut Flags) -> (r: u8)
    ensures
        r == wrap8(value + 1),
        *final(flags) == old(flags).updated(r, None),
{
    let r = value.wrapping_add(1);
    flags.upd(r, None);
    r
}

/// Subtracts 1 from `value`, wrapping from 0 to 255. Zero, Sign and Parity
/// follow the result; Carry stays as it is.
pub fn dcr(value: u8, flags: &mut Flags) -> (r: u8)
    ensures
        r == wrap8(value - 1),
        *final(flags) == old(flags).updated(r, None),
{
    let r = value.wrapping_sub(1);
    flags.upd(r, None);
    r
}

/// Rotates `a` one bit to the left: bit 7 goes to bit 0 and to Carry.
pub fn rlc(a: u8, flags: &mut Flags) -> (r: u8)
    ensures
        r == rotated_left(a),
        *final(flags) == (Flags { carry: top_bit(a), ..*old(flags) }),
{
    assert((a & 0x80 == 0x80) == (a >= 128) && (a << 1) | ((a & 0x80) >> 7) == (a * 2 + a / 128)
        % 256) by (bit_vector);
    flags.carry = (a & 0x80) == 0x80;
    (a << 1) | ((a & 0x80) >> 7)
}

/// Rotates `a` one bit to the right: bit 0 goes to bit 7 and to Carry.
pub fn rrc(a: u8, flags: &mut Flags) -> (r: u8)
    ensures
        r == rotated_right(a),
        *final(flags) == (Flags { carry: low_bit(a), ..*old(flags) }),
{
    assert((a & 0x01 == 0x01) == (a % 2 == 1) && (a >> 1) | ((a & 0x01) << 7) == (a / 2 + (a % 2)
        * 128) % 256) by (bit_vector);
    flags.carry = (a & 0x01) == 0x01;
    (a >> 1) | ((a & 0x01) << 7)
}

/// Rotates `a` one bit to the left through Carry: Carry goes to bit 0, and
/// bit 7 goes to Carry.
pub fn ral(a: u8, flags: &mut Flags) -> (r: u8)
    ensures
        r == shifted_left(a, old(flags).carry),
        *final(flags) == (Flags { carry: top_bit(a), ..*old(flags) }),
{
    let cy: u8 = if flags.carry {
        1
    } else {
        0
    };
    assert(cy <= 1 ==> (a & 0x80 == 0x80) == (a >= 128) && (a << 1) | cy == (a * 2 + cy) % 256)
        by (bit_vector);
    flags.carry = (a & 0x80) == 0x80;
    (a << 1) | cy
}

/// Rotates `a` one bit to the right through Carry: Carry goes to bit 7, and
/// bit 0 goes to Carry.
pub fn rar(a: u8, flags: &mut Flags) -> (r: u8)
    ensures
        r == shifted_right(a, old(flags).carry),
        *final(flags) == (Flags { carry: low_bit(a), ..*old(flags) }),
{
    let cy: u8 = if flags.carry {
        1
    } else {
        0
    };
    assert(cy <= 1 ==> (a & 0x01 == 0x01) == (a % 2 == 1) && (a >> 1) | (cy << 7) == (a / 2 + cy
        * 128) % 256) by (bit_vector);
    flags.carry = (a & 0x01) == 0x01;
    (a >> 1) | (cy << 7)
}

/// The complement of `a`: every bit inverted.
pub fn cma(a: u8) -> (r: u8)
    ensures
        r == complement(a),
{
    assert(!a == 255 - a) by (bit_vector);
    !a
}

} // verus!
