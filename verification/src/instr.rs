//! The instruction set by its structure: what an instruction is, apart from
//! the byte that encodes it.

use vstd::prelude::*;
use crate::bits::word;

verus! {

/// An 8-bit operand: a register, or `M`, the memory byte that H,L addresses.
/// The variants stand in the order of their 3-bit codes, 0 to 7.
#[derive(Clone, Copy, Debug, PartialEq, Eq, Structural)]
pub enum Operand {
    B,
    C,
    D,
    E,
    H,
    L,
    M,
    A,
}

/// A register pair that can be pushed and popped, in the order of the 2-bit
/// codes 0 to 2.
#[derive(Clone, Copy, Debug, PartialEq, Eq, Structural)]
pub enum Pair {
    BC,
    DE,
    HL,
}

/// A 16-bit operand: a register pair or the stack pointer, in the order of
/// the 2-bit codes 0 to 3.
#[derive(Clone, Copy, Debug, PartialEq, Eq, Structural)]
pub enum Wide {
    BC,
    DE,
    HL,
    SP,
}

/// The condition of a conditional jump, call or return, in the order of the
/// 3-bit codes 0 to 7.
#[derive(Clone, Copy, Debug, PartialEq, Eq, Structural)]
pub enum Cond {
    /// Zero is clear.
    NZ,
    /// Zero is set.
    Z,
    /// Carry is clear.
    NC,
    /// Carry is set.
    C,
    /// Parity is clear (odd).
    PO,
    /// Parity is set (even).
    PE,
    /// Sign is clear (plus).
    P,
    /// Sign is set (minus).
    M,
}

/// An operation of the arithmetic and logic unit on the accumulator, in the
/// order of the 3-bit codes 0 to 7.
#[derive(Clone, Copy, Debug, PartialEq, Eq, Structural)]
pub enum AluOp {
    Add,
    Adc,
    Sub,
    Sbb,
    And,
    Xor,
    Or,
    Cmp,
}

/// An instruction, by what it does and to which operands.
#[derive(Clone, Copy, Debug, PartialEq, Eq, Structural)]
pub enum Instr {
    /// Copy the second operand into the first.
    Mov(Operand, Operand),
    /// Load the operand with a byte.
    Mvi(Operand, u8),
    /// Load the 16-bit operand with two bytes: the low one, then the high one.
    Lxi(Wide, u8, u8),
    /// Load A from an address.
    Lda(u16),
    /// Store A at an address.
    Sta(u16),
    /// Load L from an address and H from the next.
    Lhld(u16),
    /// Store L at an address and H at the next.
    Shld(u16),
    /// Load A from the address in a pair.
    Ldax(Pair),
    /// Store A at the address in a pair.
    Stax(Pair),
    /// Exchange H,L with D,E.
    Xchg,
    /// Combine A with an operand.
    Alu(AluOp, Operand),
    /// Combine A with a byte.
    AluImm(AluOp, u8),
    /// Add 1 to an operand.
    Inr(Operand),
    /// Subtract 1 from an operand.
    Dcr(Operand),
    /// Add 1 to a 16-bit operand.
    Inx(Wide),
    /// Subtract 1 from a 16-bit operand.
    Dcx(Wide),
    /// Add a 16-bit operand to H,L.
    Dad(Wide),
    /// Adjust A to two decimal digits.
    Daa,
    /// Rotate A left.
    Rlc,
    /// Rotate A right.
    Rrc,
    /// Rotate A left through Carry.
    Ral,
    /// Rotate A right through Carry.
    Rar,
    /// Complement A.
    Cma,
    /// Complement Carry.
    Cmc,
    /// Set Carry.
    Stc,
    /// Jump.
    Jmp(u16),
    /// Jump if the condition holds.
    Jcc(Cond, u16),
    /// Call.
    Call(u16),
    /// Call if the condition holds.
    Ccc(Cond, u16),
    /// Return.
    Ret,
    /// Return if the condition holds.
    Rcc(Cond),
    /// Call one of the eight restart addresses.
    Rst(u8),
    /// Jump to the address in H,L.
    Pchl,
    /// Push a pair.
    Push(Pair),
    /// Push A and the status byte.
    PushPsw,
    /// Pop a pair.
    Pop(Pair),
    /// Pop the status byte and A.
    PopPsw,
    /// Exchange H,L with the top of the stack.
    Xthl,
    /// Load the stack pointer from H,L.
    Sphl,
    /// Read from a port.
    In(u8),
    /// Write to a port.
    Out(u8),
    /// Enable interrupts.
    Ei,
    /// Disable interrupts.
    Di,
    /// Halt.
    Hlt,
    /// Do nothing.
    Nop,
}

/// The 8-bit operand with the 3-bit code `code`.
pub open spec fn operand_of(code: int) -> Operand {
    if code == 0 {
        Operand::B
    } else if code == 1 {
        Operand::C
    } else if code == 2 {
        Operand::D
    } else if code == 3 {
        Operand::E
    } else if code == 4 {
        Operand::H
    } else if code == 5 {
        Operand::L
    } else if code == 6 {
        Operand::M
    } else {
        Operand::A
    }
}

/// The 16-bit operand with the 2-bit code `code`.
pub open spec fn wide_of(code: int) -> Wide {
    if code == 0 {
        Wide::BC
    } else if code == 1 {
        Wide::DE
    } else if code == 2 {
        Wide::HL
    } else {
        Wide::SP
    }
}

/// The condition with the 3-bit code `code`.
pub open spec fn cond_of(code: int) -> Cond {
    if code == 0 {
        Cond::NZ
    } else if code == 1 {
        Cond::Z
    } else if code == 2 {
        Cond::NC
    } else if code == 3 {
        Cond::C
    } else if code == 4 {
        Cond::PO
    } else if code == 5 {
        Cond::PE
    } else if code == 6 {
        Cond::P
    } else {
        Cond::M
    }
}

/// The operation with the 3-bit code `code`.
pub open spec fn alu_of(code: int) -> AluOp {
    if code == 0 {
        AluOp::Add
    } else if code == 1 {
        AluOp::Adc
    } else if code == 2 {
        AluOp::Sub
    } else if code == 3 {
        AluOp::Sbb
    } else if code == 4 {
        AluOp::And
    } else if code == 5 {
        AluOp::Xor
    } else if code == 6 {
        AluOp::Or
    } else {
        AluOp::Cmp
    }
}

/// The instructions whose first byte has 00 in bits 7 and 6. `y` is the
/// field in bits 5 to 3 and `z` the field in bits 2 to 0.
pub open spec fn decode_block0(y: int, z: int, b1: u8, b2: u8) -> Instr {
    if z == 0 {
        Instr::Nop
    } else if z == 1 {
        if y % 2 == 0 {
            Instr::Lxi(wide_of(y / 2), b1, b2)
        } else {
            Instr::Dad(wide_of(y / 2))
        }
    } else if z == 2 {
        if y == 0 {
            Instr::Stax(Pair::BC)
        } else if y == 1 {
            Instr::Ldax(Pair::BC)
        } else if y == 2 {
            Instr::Stax(Pair::DE)
        } else if y == 3 {
            Instr::Ldax(Pair::DE)
        } else if y == 4 {
            Instr::Shld(word(b2, b1))
        } else if y == 5 {
            Instr::Lhld(word(b2, b1))
        } else if y == 6 {
            Instr::Sta(word(b2, b1))
        } else {
            Instr::Lda(word(b2, b1))
        }
    } else if z == 3 {
        if y % 2 == 0 {
            Instr::Inx(wide_of(y / 2))
        } else {
            Instr::Dcx(wide_of(y / 2))
        }
    } else if z == 4 {
        Instr::Inr(operand_of(y))
    } else if z == 5 {
        Instr::Dcr(operand_of(y))
    } else if z == 6 {
        Instr::Mvi(operand_of(y), b1)
    } else if y == 0 {
        Instr::Rlc
    } else if y == 1 {
        Instr::Rrc
    } else if y == 2 {
        Instr::Ral
    } else if y == 3 {
        Instr::Rar
    } else if y == 4 {
        Instr::Daa
    } else if y == 5 {
        Instr::Cma
    } else if y == 6 {
        Instr::Stc
    } else {
        Instr::Cmc
    }
}

/// The instructions whose first byte has 11 in bits 7 and 6. `y` is the
/// field in bits 5 to 3 and `z` the field in bits 2 to 0.
pub open spec fn decode_block3(y: int, z: int, b1: u8, b2: u8) -> Instr {
    if z == 0 {
        Instr::Rcc(cond_of(y))
    } else if z == 1 {
        if y == 0 {
            Instr::Pop(Pair::BC)
        } else if y == 2 {
            Instr::Pop(Pair::DE)
        } else if y == 4 {
            Instr::Pop(Pair::HL)
        } else if y == 6 {
            Instr::PopPsw
        } else if y == 1 {
            Instr::Ret
        } else if y == 3 {
            Instr::Nop
        } else if y == 5 {
            Instr::Pchl
        } else {
            Instr::Sphl
        }
    } else if z == 2 {
        Instr::Jcc(cond_of(y), word(b2, b1))
    } else if z == 3 {
        if y == 0 {
            Instr::Jmp(word(b2, b1))
        } else if y == 1 {
            Instr::Nop
        } else if y == 2 {
            Instr::Out(b1)
        } else if y == 3 {
            Instr::In(b1)
        } else if y == 4 {
            Instr::Xthl
        } else if y == 5 {
            Instr::Xchg
        } else if y == 6 {
            Instr::Di
        } else {
            Instr::Ei
        }
    } else if z == 4 {
        Instr::Ccc(cond_of(y), word(b2, b1))
    } else if z == 5 {
        if y == 0 {
            Instr::Push(Pair::BC)
        } else if y == 2 {
            Instr::Push(Pair::DE)
        } else if y == 4 {
            Instr::Push(Pair::HL)
        } else if y == 6 {
            Instr::PushPsw
        } else if y == 1 {
            Instr::Call(word(b2, b1))
        } else {
            Instr::Nop
        }
    } else if z == 6 {
        Instr::AluImm(alu_of(y), b1)
    } else {
        Instr::Rst(y as u8)
    }
}

/// The instruction that the byte `b0` encodes, `b1` and `b2` being the two
/// bytes after it. Every byte encodes an instruction: the twelve bytes that
/// the data sheet leaves undefined encode `Nop`. Where the instruction takes
/// one operand byte it is `b1`; where it takes an address, `b1` is the low
/// byte of the address and `b2` the high one.
pub open spec fn decode(b0: u8, b1: u8, b2: u8) -> Instr {
    let x = b0 as int / 64;
    let y = b0 as int / 8 % 8;
    let z = b0 as int % 8;
    if x == 0 {
        decode_block0(y, z, b1, b2)
    } else if x == 1 {
        if y == 6 && z == 6 {
            Instr::Hlt
        } else {
            Instr::Mov(operand_of(y), operand_of(z))
        }
    } else if x == 2 {
        Instr::Alu(alu_of(y), operand_of(z))
    } else {
        decode_block3(y, z, b1, b2)
    }
}

impl Instr {
    /// The number of bytes that encode the instruction: 3 where it carries an
    /// address or two bytes, 2 where it carries one byte, and 1 otherwise.
    pub open spec fn len(self) -> int {
        match self {
            Instr::Lxi(_, _, _)
            | Instr::Lda(_)
            | Instr::Sta(_)
            | Instr::Lhld(_)
            | Instr::Shld(_)
            | Instr::Jmp(_)
            | Instr::Jcc(_, _)
            | Instr::Call(_)
            | Instr::Ccc(_, _) => 3,
            Instr::Mvi(_, _) | Instr::AluImm(_, _) | Instr::In(_) | Instr::Out(_) => 2,
            _ => 1,
        }
    }

    /// The number of bytes that encode the instruction.
    pub fn size(&self) -> (n: u16)
        ensures
            n == self.len(),
    {
        match self {
            Instr::Lxi(_, _, _)
            | Instr::Lda(_)
            | Instr::Sta(_)
            | Instr::Lhld(_)
            | Instr::Shld(_)
            | Instr::Jmp(_)
            | Instr::Jcc(_, _)
            | Instr::Call(_)
            | Instr::Ccc(_, _) => 3,
            Instr::Mvi(_, _) | Instr::AluImm(_, _) | Instr::In(_) | Instr::Out(_) => 2,
            _ => 1,
        }
    }
}

} // verus!
