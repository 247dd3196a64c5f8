//! The condition flags and the packed processor status byte.

use vstd::prelude::*;
use crate::bits::even_parity;
use crate::bits::has_even_parity;
use crate::instr::Cond;

verus! {

/// The five condition flags and the interrupt-enable switch.
#[derive(Clone, Copy, Debug, PartialEq, Eq, Structural)]
pub struct Flags {
    /// Set when the result of an instruction is 0.
    pub zero: bool,
    /// Set when the result of an instruction is not 0.
    ///
    /// The hardware sets this flag from bit 7 of the result; this core
    /// deliberately keeps the simpler rule, so Sign is always the opposite of
    /// Zero after a flag update.
    pub sign: bool,
    /// Set when the result of an instruction has an even number of 1 bits.
    pub parity: bool,
    /// Set by a carry out of bit 7 on addition, by a borrow on subtraction or
    /// comparison, and by the bit that a rotation moves out.
    pub carry: bool,
    /// The carry out of bit 3. No arithmetic or logical instruction computes
    /// it here: it changes only when the status byte is popped from the stack.
    pub carry_aux: bool,
    /// Not a condition flag: whether interrupts are enabled.
    pub interrupt_enabled: bool,
}

impl Flags {
    /// The flags of a processor that has just been started: all clear.
    pub open spec fn cleared() -> Flags {
        Flags {
            zero: false,
            sign: false,
            parity: false,
            carry: false,
            carry_aux: false,
            interrupt_enabled: false,
        }
    }

    /// The flags after an instruction has produced `value`: Zero, Sign and
    /// Parity follow the value, Carry becomes `cy` where one is given, and the
    /// rest stays.
    pub open spec fn updated(self, value: u8, cy: Option<bool>) -> Flags {
        Flags {
            zero: value == 0,
            sign: value != 0,
            parity: even_parity(value),
            carry: match cy {
                Some(c) => c,
                None => self.carry,
            },
            carry_aux: self.carry_aux,
            interrupt_enabled: self.interrupt_enabled,
        }
    }

    /// The processor status byte: Sign in bit 7, Zero in bit 6, Auxiliary
    /// Carry in bit 4, Parity in bit 2, a constant 1 in bit 1, Carry in bit 0,
    /// and 0 in bits 5 and 3.
    pub open spec fn status(self) -> u8 {
        ((if self.sign { 128int } else { 0 }) + (if self.zero { 64int } else { 0 }) + (
        if self.carry_aux { 16int } else { 0 }) + (if self.parity { 4int } else { 0 }) + 2 + (
        if self.carry { 1int } else { 0 })) as u8
    }

    /// The flags after a status byte has been loaded: each condition flag
    /// takes its bit of `psw`, and the interrupt-enable switch stays.
    pub open spec fn with_status(self, psw: u8) -> Flags {
        Flags {
            zero: psw as int / 64 % 2 == 1,
            sign: psw as int / 128 % 2 == 1,
            parity: psw as int / 4 % 2 == 1,
            carry: psw as int % 2 == 1,
            carry_aux: psw as int / 16 % 2 == 1,
            interrupt_enabled: self.interrupt_enabled,
        }
    }

    /// Whether a condition holds of the flags.
    pub open spec fn holds(self, c: Cond) -> bool {
        match c {
            Cond::NZ => !self.zero,
            Cond::Z => self.zero,
            Cond::NC => !self.carry,
            Cond::C => self.carry,
            Cond::PO => !self.parity,
            Cond::PE => self.parity,
            Cond::P => !self.sign,
            Cond::M => self.sign,
        }
    }

    /// Tests a condition.
    pub fn test(&self, c: Cond) -> (holds: bool)
        ensures
            holds == self.holds(c),
    {
        match c {
            Cond::NZ => !self.zero,
            Cond::Z => self.zero,
            Cond::NC => !self.carry,
            Cond::C => self.carry,
            Cond::PO => !self.parity,
            Cond::PE => self.parity,
            Cond::P => !self.sign,
            Cond::M => self.sign,
        }
    }

    /// Sets Zero, Sign and Parity from `value`, and Carry from `cy` if one is
    /// given.
    pub fn upd(&mut self, value: u8, cy: Option<bool>)
        ensures
            *final(self) == old(self).updated(value, cy),
            final(self).parity <==> crate::bits::bit_count(value) % 2 == 0,
    {
        self.zero = value == 0;
        self.sign = value != 0;
        self.parity = has_even_parity(value);
        if let Some(c) = cy {
            self.carry = c;
        }
    }

    /// Packs the condition flags into the processor status byte.
    pub fn to_status(&self) -> (psw: u8)
        ensures
            psw == self.status(),
    {
        let mut psw: u8 = 0b0000_0010;
        if self.sign {
            psw = psw + 0b1000_0000;
        }
        if self.zero {
            psw = psw + 0b0100_0000;
        }
        if self.carry_aux {
            psw = psw + 0b0001_0000;
        }
        if self.parity {
            psw = psw + 0b0000_0100;
        }
        if self.carry {
            psw = psw + 0b0000_0001;
        }
        psw
    }

    /// Loads the condition flags from a processor status byte.
    pub fn set_status(&mut self, psw: u8)
        ensures
            *final(self) == old(self).with_status(psw),
    {
        assert(((0b1000_0000u8 & psw) > 0) == (psw / 128 % 2 == 1) && ((0b0100_0000u8 & psw) > 0)
            == (psw / 64 % 2 == 1) && ((0b0001_0000u8 & psw) > 0) == (psw / 16 % 2 == 1) && ((
        0b0000_0100u8 & psw) > 0) == (psw / 4 % 2 == 1) && ((0b0000_0001u8 & psw) > 0) == (psw % 2
            == 1)) by (bit_vector);
        self.sign = (0b1000_0000 & psw) > 0;
        self.zero = (0b0100_0000 & psw) > 0;
        self.carry_aux = (0b0001_0000 & psw) > 0;
        self.parity = (0b0000_0100 & psw) > 0;
        self.carry = (0b0000_0001 & psw) > 0;
    }
}

impl Default for Flags {
    fn default() -> (flags: Flags)
        ensures
            flags == Flags::cleared(),
    {
        Flags {
            zero: false,
            sign: false,
            parity: false,
            carry: false,
            carry_aux: false,
            interrupt_enabled: false,
        }
    }
}

} // verus!
