//! The processor as a mathematical state, and what each instruction does to
//! it.

use vstd::prelude::*;
use crate::alu::complement;
use crate::alu::low_bit;
use crate::alu::rotated_left;
use crate::alu::rotated_right;
use crate::alu::shifted_left;
use crate::alu::shifted_right;
use crate::alu::top_bit;
use crate::bits::high_byte;
use crate::bits::low_byte;
use crate::bits::offset;
use crate::bits::word;
use crate::bits::wrap8;
use crate::flags::Flags;
use crate::instr::decode;
use crate::instr::Cond;
use crate::instr::Instr;
use crate::instr::Operand;
use crate::instr::Pair;
use crate::instr::Wide;
use crate::memory::Memory;
use crate::registers::Registers;

verus! {

/// The whole state of the processor: registers, flags, the two cursors and
/// the 65536 bytes of memory.
pub struct Machine {
    pub reg: Registers,
    pub flags: Flags,
    pub pc: u16,
    pub sp: u16,
    pub mem: Seq<u8>,
}

impl Machine {
    /// The state that the three parts of a running processor make up.
    pub open spec fn of(reg: Registers, flags: Flags, memory: Memory) -> Machine {
        Machine { reg, flags, pc: memory.pc, sp: memory.sp, mem: memory.bytes() }
    }

    /// A state is well formed when its memory has exactly 65536 bytes.
    pub open spec fn wf(self) -> bool {
        self.mem.len() == 65536
    }

    /// The pair H,L as an address.
    pub open spec fn hl(self) -> u16 {
        self.pair(Pair::HL)
    }

    /// The byte at `adr`.
    pub open spec fn load(self, adr: u16) -> u8 {
        self.mem[adr as int]
    }

    /// The state with `value` stored at `adr`.
    pub open spec fn store(self, adr: u16, value: u8) -> Machine {
        Machine { mem: self.mem.update(adr as int, value), ..self }
    }

    /// The state with other registers.
    pub open spec fn with_reg(self, reg: Registers) -> Machine {
        Machine { reg, ..self }
    }

    /// The state with other flags.
    pub open spec fn with_flags(self, flags: Flags) -> Machine {
        Machine { flags, ..self }
    }

    /// The state with another Carry flag.
    pub open spec fn with_carry(self, carry: bool) -> Machine {
        Machine { flags: Flags { carry, ..self.flags }, ..self }
    }

    /// The state with another accumulator.
    pub open spec fn with_a(self, a: u8) -> Machine {
        Machine { reg: Registers { a, ..self.reg }, ..self }
    }

    /// The state with another program counter.
    pub open spec fn with_pc(self, pc: u16) -> Machine {
        Machine { pc, ..self }
    }

    /// The value of an 8-bit operand.
    pub open spec fn get(self, r: Operand) -> u8 {
        match r {
            Operand::A => self.reg.a,
            Operand::B => self.reg.b,
            Operand::C => self.reg.c,
            Operand::D => self.reg.d,
            Operand::E => self.reg.e,
            Operand::H => self.reg.h,
            Operand::L => self.reg.l,
            Operand::M => self.load(self.hl()),
        }
    }

    /// The state with `value` in an 8-bit operand.
    pub open spec fn set(self, r: Operand, value: u8) -> Machine {
        match r {
            Operand::A => self.with_reg(Registers { a: value, ..self.reg }),
            Operand::B => self.with_reg(Registers { b: value, ..self.reg }),
            Operand::C => self.with_reg(Registers { c: value, ..self.reg }),
            Operand::D => self.with_reg(Registers { d: value, ..self.reg }),
            Operand::E => self.with_reg(Registers { e: value, ..self.reg }),
            Operand::H => self.with_reg(Registers { h: value, ..self.reg }),
            Operand::L => self.with_reg(Registers { l: value, ..self.reg }),
            Operand::M => self.store(self.hl(), value),
        }
    }

    /// The 16-bit value of a register pair.
    pub open spec fn pair(self, p: Pair) -> u16 {
        self.reg.value(p)
    }

    /// The state with `high` and `low` in the two registers of a pair.
    pub open spec fn set_pair(self, p: Pair, high: u8, low: u8) -> Machine {
        self.with_reg(self.reg.with_pair(p, high, low))
    }

    /// The value of a 16-bit operand.
    pub open spec fn wide(self, w: Wide) -> u16 {
        match w {
            Wide::BC => self.pair(Pair::BC),
            Wide::DE => self.pair(Pair::DE),
            Wide::HL => self.pair(Pair::HL),
            Wide::SP => self.sp,
        }
    }

    /// The state with `value` in a 16-bit operand.
    pub open spec fn set_wide(self, w: Wide, value: u16) -> Machine {
        match w {
            Wide::BC => self.set_pair(Pair::BC, high_byte(value), low_byte(value)),
            Wide::DE => self.set_pair(Pair::DE, high_byte(value), low_byte(value)),
            Wide::HL => self.set_pair(Pair::HL, high_byte(value), low_byte(value)),
            Wide::SP => Machine { sp: value, ..self },
        }
    }

    /// Whether a condition holds of the flags.
    pub open spec fn holds(self, c: Cond) -> bool {
        self.flags.holds(c)
    }

    /// The state after two bytes have been pushed: `high` is stored just
    /// below the stack pointer, `low` below it, and the stack pointer is
    /// lowered by 2.
    pub open spec fn pushed(self, high: u8, low: u8) -> Machine {
        Machine {
            sp: offset(self.sp, -2),
            mem: self.mem.update(offset(self.sp, -1) as int, high).update(
                offset(self.sp, -2) as int,
                low,
            ),
            ..self
        }
    }

    /// The byte on top of the stack: the lower of the two that a pop takes.
    pub open spec fn top_low(self) -> u8 {
        self.load(self.sp)
    }

    /// The byte above the top of the stack: the higher of the two that a pop
    /// takes.
    pub open spec fn top_high(self) -> u8 {
        self.load(offset(self.sp, 1))
    }

    /// The state after two bytes have been popped: the stack pointer is
    /// raised by 2.
    pub open spec fn popped(self) -> Machine {
        Machine { sp: offset(self.sp, 2), ..self }
    }

    /// The state after a call of `adr`: the program counter is pushed, high
    /// byte first, and execution continues at `adr`.
    pub open spec fn called(self, adr: u16) -> Machine {
        self.pushed(high_byte(self.pc), low_byte(self.pc)).with_pc(adr)
    }

    /// The state after a return: execution continues at the word popped
    /// from the stack.
    pub open spec fn returned(self) -> Machine {
        self.popped().with_pc(word(self.top_high(), self.top_low()))
    }

    /// The state after the instruction `i` has been executed. `self` is the
    /// state in which the program counter is already past the instruction.
    ///
    /// An instruction that this core does not implement leaves the state as
    /// it is, and so do the two port instructions and `Hlt`.
    pub open spec fn execute(self, i: Instr) -> Machine {
        let a = self.reg.a;
        let cy = self.flags.carry;
        match i {
            Instr::Mov(dst, src) => self.set(dst, self.get(src)),
            Instr::Mvi(dst, d8) => self.set(dst, d8),
            Instr::Lxi(w, low, high) => self.set_wide(w, word(high, low)),
            Instr::Lda(adr) => self.with_a(self.load(adr)),
            Instr::Sta(adr) => self.store(adr, a),
            Instr::Lhld(adr) => self.set_pair(
                Pair::HL,
                self.load(offset(adr, 1)),
                self.load(adr),
            ),
            Instr::Shld(adr) => self.store(adr, self.reg.l).store(offset(adr, 1), self.reg.h),
            Instr::Ldax(p) => self.with_a(self.load(self.pair(p))),
            Instr::Stax(p) => self.store(self.pair(p), a),
            Instr::Xchg => self.with_reg(
                Registers {
                    d: self.reg.h,
                    e: self.reg.l,
                    h: self.reg.d,
                    l: self.reg.e,
                    ..self.reg
                },
            ),
            Instr::Alu(op, src) => {
                let v = self.get(src);
                let next = self.with_flags(op.flags(a, v, self.flags));
                if op.stores() {
                    next.with_a(op.value(a, v, cy))
                } else {
                    next
                }
            },
            Instr::AluImm(op, d8) => {
                let next = self.with_flags(op.flags(a, d8, self.flags));
                if op.stores() {
                    next.with_a(op.value(a, d8, cy))
                } else {
                    next
                }
            },
            Instr::Inr(r) => {
                let value = wrap8(self.get(r) + 1);
                self.with_flags(self.flags.updated(value, None)).set(r, value)
            },
            Instr::Dcr(r) => {
                let value = wrap8(self.get(r) - 1);
                self.with_flags(self.flags.updated(value, None)).set(r, value)
            },
            Instr::Inx(w) => self.set_wide(w, offset(self.wide(w), 1)),
            Instr::Dcx(w) => self.set_wide(w, offset(self.wide(w), -1)),
            Instr::Dad(w) => self.set_wide(
                Wide::HL,
                offset(self.hl(), self.wide(w) as int),
            ).with_carry(self.hl() + self.wide(w) > 65535),
            Instr::Rlc => self.with_a(rotated_left(a)).with_carry(top_bit(a)),
            Instr::Rrc => self.with_a(rotated_right(a)).with_carry(low_bit(a)),
            Instr::Ral => self.with_a(shifted_left(a, cy)).with_carry(top_bit(a)),
            Instr::Rar => self.with_a(shifted_right(a, cy)).with_carry(low_bit(a)),
            Instr::Cma => self.with_a(complement(a)),
            Instr::Cmc => self.with_carry(!cy),
            Instr::Stc => self.with_carry(true),
            Instr::Jmp(adr) => self.with_pc(adr),
            Instr::Jcc(c, adr) => if self.holds(c) {
                self.with_pc(adr)
            } else {
                self
            },
            Instr::Call(adr) => self.called(adr),
            Instr::Ccc(c, adr) => if self.holds(c) {
                self.called(adr)
            } else {
                self
            },
            Instr::Ret => self.returned(),
            Instr::Rcc(c) => if self.holds(c) {
                self.returned()
            } else {
                self
            },
            Instr::Pchl => self.with_pc(self.hl()),
            Instr::Push(p) => self.pushed(self.reg.high(p), self.reg.low(p)),
            Instr::PushPsw => self.pushed(a, self.flags.status()),
            Instr::Pop(p) => self.popped().set_pair(p, self.top_high(), self.top_low()),
            Instr::PopPsw => self.popped().with_a(self.top_high()).with_flags(
                self.flags.with_status(self.top_low()),
            ),
            Instr::Ei => self.with_flags(Flags { interrupt_enabled: true, ..self.flags }),
            Instr::Di => self.with_flags(Flags { interrupt_enabled: false, ..self.flags }),
            Instr::In(_) | Instr::Out(_) | Instr::Hlt | Instr::Nop => self,
            Instr::Daa | Instr::Rst(_) | Instr::Xthl | Instr::Sphl => self,
        }
    }

    /// The instruction at the program counter.
    pub open spec fn fetch(self) -> Instr {
        decode(
            self.load(self.pc),
            self.load(offset(self.pc, 1)),
            self.load(offset(self.pc, 2)),
        )
    }

    /// The state after one instruction: the instruction at the program
    /// counter is decoded, the counter moves past it, and the instruction is
    /// executed.
    pub open spec fn step(self) -> Machine {
        let i = self.fetch();
        self.with_pc(offset(self.pc, i.len())).execute(i)
    }
}

} // verus!
