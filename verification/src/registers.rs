//! The register file.

use vstd::prelude::*;
use crate::bits::join;
use crate::bits::word;
use crate::instr::Pair;

verus! {

/// The seven 8-bit registers. The pairs BC, DE and HL are not stored: each is
/// read out of its two halves.
#[derive(Clone, Copy, Debug, PartialEq, Eq, Structural)]
pub struct Registers {
    pub a: u8,
    pub b: u8,
    pub c: u8,
    pub d: u8,
    pub e: u8,
    pub h: u8,
    pub l: u8,
}

impl Registers {
    /// The registers of a processor that has just been started: all 0.
    pub open spec fn zeroed() -> Registers {
        Registers { a: 0, b: 0, c: 0, d: 0, e: 0, h: 0, l: 0 }
    }

    /// The high-order register of a pair: the one named first.
    pub open spec fn high(self, p: Pair) -> u8 {
        match p {
            Pair::BC => self.b,
            Pair::DE => self.d,
            Pair::HL => self.h,
        }
    }

    /// The low-order register of a pair: the one named second.
    pub open spec fn low(self, p: Pair) -> u8 {
        match p {
            Pair::BC => self.c,
            Pair::DE => self.e,
            Pair::HL => self.l,
        }
    }

    /// The 16-bit value of a pair.
    pub open spec fn value(self, p: Pair) -> u16 {
        word(self.high(p), self.low(p))
    }

    /// The registers with `high` and `low` in the two halves of a pair.
    pub open spec fn with_pair(self, p: Pair, high: u8, low: u8) -> Registers {
        match p {
            Pair::BC => Registers { b: high, c: low, ..self },
            Pair::DE => Registers { d: high, e: low, ..self },
            Pair::HL => Registers { h: high, l: low, ..self },
        }
    }

    /// The pair B,C: B is the high-order register, C the low-order one.
    pub fn bc(&self) -> (pair: u16)
        ensures
            pair == word(self.b, self.c),
    {
        join(self.b, self.c)
    }

    /// The pair D,E: D is the high-order register, E the low-order one.
    pub fn de(&self) -> (pair: u16)
        ensures
            pair == word(self.d, self.e),
    {
        join(self.d, self.e)
    }

    /// The pair H,L, which addresses the memory operand M: H is the
    /// high-order register, L the low-order one.
    pub fn m(&self) -> (pair: u16)
        ensures
            pair == word(self.h, self.l),
    {
        join(self.h, self.l)
    }
}

impl Registers {
    /// The two halves of a pair, the high-order register first.
    pub fn halves(&self, p: Pair) -> (bytes: (u8, u8))
        ensures
            bytes.0 == self.high(p),
            bytes.1 == self.low(p),
    {
        match p {
            Pair::BC => (self.b, self.c),
            Pair::DE => (self.d, self.e),
            Pair::HL => (self.h, self.l),
        }
    }

    /// The 16-bit value of a pair.
    pub fn pair(&self, p: Pair) -> (value: u16)
        ensures
            value == self.value(p),
    {
        match p {
            Pair::BC => self.bc(),
            Pair::DE => self.de(),
            Pair::HL => self.m(),
        }
    }

    /// Loads the two halves of a pair.
    pub fn set_pair(&mut self, p: Pair, high: u8, low: u8)
        ensures
            *final(self) == old(self).with_pair(p, high, low),
    {
        match p {
            Pair::BC => {
                self.b = high;
                self.c = low;
            },
            Pair::DE => {
                self.d = high;
                self.e = low;
            },
            Pair::HL => {
                self.h = high;
                self.l = low;
            },
        }
    }
}

impl Default for Registers {
    fn default() -> (reg: Registers)
        ensures
            reg == Registers::zeroed(),
    {
        Registers { a: 0, b: 0, c: 0, d: 0, e: 0, h: 0, l: 0 }
    }
}

} // verus!
