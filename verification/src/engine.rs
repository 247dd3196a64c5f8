//! The execution engine: one instruction at a time, against the registers,
//! the flags and the memory.

use vstd::prelude::*;
use crate::alu::apply;
use crate::alu::cma;
use crate::alu::dcr;
use crate::alu::inr;
use crate::alu::ral;
use crate::alu::rar;
use crate::alu::rlc;
use crate::alu::rrc;
use crate::bits::following;
use crate::bits::high_byte;
use crate::bits::join;
use crate::bits::low_byte;
use crate::bits::offset;
use crate::bits::preceding;
use crate::bits::split;
use crate::flags::Flags;
use crate::instr::Instr;
use crate::instr::Operand;
use crate::instr::Pair;
use crate::instr::Wide;
use crate::machine::Machine;
use crate::memory::Memory;
use crate::registers::Registers;

verus! {

/// What the caller has to do after an instruction.
#[derive(Clone, Copy, Debug, PartialEq, Eq, Structural)]
pub enum Event {
    /// Nothing: go on with the next instruction.
    Next,
    /// The processor has halted: stop.
    Halted,
    /// An `IN` instruction addressed this port. No data is transferred.
    Input(u8),
    /// An `OUT` instruction addressed this port. No data is transferred.
    Output(u8),
}

/// An instruction that this core decodes and does not implement was
/// reached: `DAA`, one of the eight `RST`, `XTHL` or `SPHL`.
#[derive(Clone, Copy, Debug, PartialEq, Eq, Structural)]
pub struct Fault {
    /// The address of the instruction.
    pub address: u16,
    /// The byte that encodes it.
    pub opcode: u8,
}

impl Instr {
    /// What the caller has to do after the instruction, and `None` for an
    /// instruction that is not implemented.
    pub open spec fn event(self) -> Option<Event> {
        match self {
            Instr::Daa | Instr::Rst(_) | Instr::Xthl | Instr::Sphl => None,
            Instr::Hlt => Some(Event::Halted),
            Instr::In(port) => Some(Event::Input(port)),
            Instr::Out(port) => Some(Event::Output(port)),
            _ => Some(Event::Next),
        }
    }
}

impl Machine {
    /// What one step reports: a fault for an instruction that is not
    /// implemented, with the address and the byte of the instruction, and
    /// otherwise what the caller has to do.
    pub open spec fn outcome(self) -> Result<Event, Fault> {
        match self.fetch().event() {
            Some(event) => Ok(event),
            None => Err(Fault { address: self.pc, opcode: self.load(self.pc) }),
        }
    }
}

/// Adds `value` to the pair H,L, byte by byte: the low bytes first, then the
/// high bytes with the carry of the low ones. The sum wraps at 65536. Carry
/// becomes the carry out of the high bytes, which is set exactly when the
/// sum is over 65535; no other flag changes.
pub fn dad(reg: &mut Registers, flags: &mut Flags, value: u16)
    ensures
        final(reg).value(Pair::HL) == (old(reg).value(Pair::HL) + value) % 65536,
        final(flags).carry <==> old(reg).value(Pair::HL) + value > 65535,
        *final(reg) == old(reg).with_pair(
            Pair::HL,
            high_byte(offset(old(reg).value(Pair::HL), value as int)),
            low_byte(offset(old(reg).value(Pair::HL), value as int)),
        ),
        *final(flags) == (Flags { carry: old(reg).value(Pair::HL) + value > 65535, ..*old(flags) }),
{
    let (high, low) = split(value);
    let l = reg.l.wrapping_add(low);
    let cy = l < reg.l;
    let partial = reg.h.wrapping_add(high);
    let cy1 = partial < reg.h;
    let h = if cy {
        partial.wrapping_add(1)
    } else {
        partial
    };
    let cy2 = cy && h == 0;
    proof {
        let c0: int = if cy {
            1
        } else {
            0
        };
        let c1: int = if cy1 || cy2 {
            1
        } else {
            0
        };
        let sum = reg.value(Pair::HL) + value;
        assert(reg.value(Pair::HL) == reg.h * 256 + reg.l);
        assert(value == high * 256 + low);
        assert(l + 256 * c0 == reg.l + low);
        assert(h + 256 * c1 == reg.h + high + c0);
        assert(sum == h * 256 + l + 65536 * c1);
        assert(offset(reg.value(Pair::HL), value as int) == h * 256 + l);
    }
    flags.carry = cy1 || cy2;
    reg.l = l;
    reg.h = h;
}

/// Reads an 8-bit operand: a register, or the byte that H,L addresses.
fn load(r: Operand, reg: &Registers, mem: &Memory) -> (value: u8)
    ensures
        forall|flags: Flags| #[trigger] Machine::of(*reg, flags, *mem).get(r) == value,
{
    match r {
        Operand::A => reg.a,
        Operand::B => reg.b,
        Operand::C => reg.c,
        Operand::D => reg.d,
        Operand::E => reg.e,
        Operand::H => reg.h,
        Operand::L => reg.l,
        Operand::M => mem[reg.m()],
    }
}

/// Writes an 8-bit operand: a register, or the byte that H,L addresses.
fn store(r: Operand, value: u8, reg: &mut Registers, mem: &mut Memory)
    ensures
        forall|flags: Flags| #[trigger]
            Machine::of(*final(reg), flags, *final(mem)) == Machine::of(
                *old(reg),
                flags,
                *old(mem),
            ).set(r, value),
        final(mem).bytes_read == old(mem).bytes_read,
{
    match r {
        Operand::A => reg.a = value,
        Operand::B => reg.b = value,
        Operand::C => reg.c = value,
        Operand::D => reg.d = value,
        Operand::E => reg.e = value,
        Operand::H => reg.h = value,
        Operand::L => reg.l = value,
        Operand::M => mem.mem.set(reg.m(), value),
    }
}

/// Reads a 16-bit operand: a register pair, or the stack pointer.
fn load_wide(w: Wide, reg: &Registers, mem: &Memory) -> (value: u16)
    ensures
        forall|flags: Flags| #[trigger] Machine::of(*reg, flags, *mem).wide(w) == value,
{
    match w {
        Wide::BC => reg.bc(),
        Wide::DE => reg.de(),
        Wide::HL => reg.m(),
        Wide::SP => mem.sp,
    }
}

/// Writes a 16-bit operand: a register pair, or the stack pointer.
fn store_wide(w: Wide, value: u16, reg: &mut Registers, mem: &mut Memory)
    ensures
        forall|flags: Flags| #[trigger]
            Machine::of(*final(reg), flags, *final(mem)) == Machine::of(
                *old(reg),
                flags,
                *old(mem),
            ).set_wide(w, value),
        final(mem).bytes_read == old(mem).bytes_read,
{
    let (high, low) = split(value);
    match w {
        Wide::BC => reg.set_pair(Pair::BC, high, low),
        Wide::DE => reg.set_pair(Pair::DE, high, low),
        Wide::HL => reg.set_pair(Pair::HL, high, low),
        Wide::SP => mem.sp = value,
    }
}

/// Applies an instruction to the registers, the flags and the memory. The
/// program counter is taken to be past the instruction already.
///
/// The result is what the caller has to do, and `None` for an instruction
/// that is not implemented, which changes nothing.
pub fn execute(instr: Instr, reg: &mut Registers, flags: &mut Flags, mem: &mut Memory) -> (event:
    Option<Event>)
    ensures
        Machine::of(*final(reg), *final(flags), *final(mem)) == Machine::of(
            *old(reg),
            *old(flags),
            *old(mem),
        ).execute(instr),
        final(mem).bytes_read == old(mem).bytes_read,
        event == instr.event(),
{
    match instr {
        Instr::Mov(_, _)
        | Instr::Mvi(_, _)
        | Instr::Lxi(_, _, _)
        | Instr::Lda(_)
        | Instr::Sta(_)
        | Instr::Lhld(_)
        | Instr::Shld(_)
        | Instr::Ldax(_)
        | Instr::Stax(_)
        | Instr::Xchg => transfer(instr, reg, flags, mem),
        Instr::Alu(_, _)
        | Instr::AluImm(_, _)
        | Instr::Inr(_)
        | Instr::Dcr(_)
        | Instr::Inx(_)
        | Instr::Dcx(_)
        | Instr::Dad(_) => arithmetic(instr, reg, flags, mem),
        Instr::Rlc
        | Instr::Rrc
        | Instr::Ral
        | Instr::Rar
        | Instr::Cma
        | Instr::Cmc
        | Instr::Stc => accumulator(instr, reg, flags, mem),
        Instr::Jmp(_)
        | Instr::Jcc(_, _)
        | Instr::Call(_)
        | Instr::Ccc(_, _)
        | Instr::Ret
        | Instr::Rcc(_)
        | Instr::Pchl => branch(instr, reg, flags, mem),
        Instr::Push(_) | Instr::PushPsw | Instr::Pop(_) | Instr::PopPsw => stack(instr, reg, flags, mem),
        Instr::Ei => flags.interrupt_enabled = true,
        Instr::Di => flags.interrupt_enabled = false,
        Instr::In(port) => return Some(Event::Input(port)),
        Instr::Out(port) => return Some(Event::Output(port)),
        Instr::Hlt => return Some(Event::Halted),
        Instr::Nop => {},
        Instr::Daa | Instr::Rst(_) | Instr::Xthl | Instr::Sphl => return None,
    }
    Some(Event::Next)
}

/// The data transfer instructions. They change no flag.
fn transfer(instr: Instr, reg: &mut Registers, flags: &mut Flags, mem: &mut Memory)
    requires
        matches!(
            instr,
            Instr::Mov(_, _)
                | Instr::Mvi(_, _)
                | Instr::Lxi(_, _, _)
                | Instr::Lda(_)
                | Instr::Sta(_)
                | Instr::Lhld(_)
                | Instr::Shld(_)
                | Instr::Ldax(_)
                | Instr::Stax(_)
                | Instr::Xchg,
        ),
    ensures
        Machine::of(*final(reg), *final(flags), *final(mem)) == Machine::of(
            *old(reg),
            *old(flags),
            *old(mem),
        ).execute(instr),
        final(mem).bytes_read == old(mem).bytes_read,
{
    match instr {
        Instr::Mov(dst, src) => {
            let value = load(src, reg, mem);
            store(dst, value, reg, mem);
        },
        Instr::Mvi(dst, d8) => store(dst, d8, reg, mem),
        Instr::Lxi(w, low, high) => store_wide(w, join(high, low), reg, mem),
        Instr::Lda(adr) => reg.a = mem[adr],
        Instr::Sta(adr) => mem.mem.set(adr, reg.a),
        Instr::Lhld(adr) => {
            let low = mem[adr];
            let high = mem[following(adr)];
            reg.set_pair(Pair::HL, high, low);
        },
        Instr::Shld(adr) => {
            mem.mem.set(adr, reg.l);
            mem.mem.set(following(adr), reg.h);
        },
        Instr::Ldax(p) => reg.a = mem[reg.pair(p)],
        Instr::Stax(p) => mem.mem.set(reg.pair(p), reg.a),
        Instr::Xchg => {
            std::mem::swap(&mut reg.h, &mut reg.d);
            std::mem::swap(&mut reg.l, &mut reg.e);
        },
        _ => {},
    }
}

/// The arithmetic and logical instructions.
fn arithmetic(instr: Instr, reg: &mut Registers, flags: &mut Flags, mem: &mut Memory)
    requires
        matches!(
            instr,
            Instr::Alu(_, _)
                | Instr::AluImm(_, _)
                | Instr::Inr(_)
                | Instr::Dcr(_)
                | Instr::Inx(_)
                | Instr::Dcx(_)
                | Instr::Dad(_),
        ),
    ensures
        Machine::of(*final(reg), *final(flags), *final(mem)) == Machine::of(
            *old(reg),
            *old(flags),
            *old(mem),
        ).execute(instr),
        final(mem).bytes_read == old(mem).bytes_read,
{
    match instr {
        Instr::Alu(op, src) => {
            let value = load(src, reg, mem);
            reg.a = apply(op, reg.a, value, flags);
        },
        Instr::AluImm(op, d8) => reg.a = apply(op, reg.a, d8, flags),
        Instr::Inr(r) => {
            let value = inr(load(r, reg, mem), flags);
            store(r, value, reg, mem);
        },
        Instr::Dcr(r) => {
            let value = dcr(load(r, reg, mem), flags);
            store(r, value, reg, mem);
        },
        Instr::Inx(w) => {
            let value = following(load_wide(w, reg, mem));
            store_wide(w, value, reg, mem);
        },
        Instr::Dcx(w) => {
            let value = preceding(load_wide(w, reg, mem));
            store_wide(w, value, reg, mem);
        },
        Instr::Dad(w) => {
            let value = load_wide(w, reg, mem);
            dad(reg, flags, value);
        },
        _ => {},
    }
}

/// The rotations and the other instructions on the accumulator or on Carry
/// alone.
fn accumulator(instr: Instr, reg: &mut Registers, flags: &mut Flags, mem: &mut Memory)
    requires
        matches!(
            instr,
            Instr::Rlc
                | Instr::Rrc
                | Instr::Ral
                | Instr::Rar
                | Instr::Cma
                | Instr::Cmc
                | Instr::Stc,
        ),
    ensures
        Machine::of(*final(reg), *final(flags), *final(mem)) == Machine::of(
            *old(reg),
            *old(flags),
            *old(mem),
        ).execute(instr),
        final(mem).bytes_read == old(mem).bytes_read,
{
    match instr {
        Instr::Rlc => reg.a = rlc(reg.a, flags),
        Instr::Rrc => reg.a = rrc(reg.a, flags),
        Instr::Ral => reg.a = ral(reg.a, flags),
        Instr::Rar => reg.a = rar(reg.a, flags),
        Instr::Cma => reg.a = cma(reg.a),
        Instr::Cmc => flags.carry = !flags.carry,
        Instr::Stc => flags.carry = true,
        _ => {},
    }
}

/// The jumps, calls and returns. One whose condition does not hold changes
/// nothing.
fn branch(instr: Instr, reg: &mut Registers, flags: &mut Flags, mem: &mut Memory)
    requires
        matches!(
            instr,
            Instr::Jmp(_)
                | Instr::Jcc(_, _)
                | Instr::Call(_)
                | Instr::Ccc(_, _)
                | Instr::Ret
                | Instr::Rcc(_)
                | Instr::Pchl,
        ),
    ensures
        Machine::of(*final(reg), *final(flags), *final(mem)) == Machine::of(
            *old(reg),
            *old(flags),
            *old(mem),
        ).execute(instr),
        final(mem).bytes_read == old(mem).bytes_read,
{
    match instr {
        Instr::Jmp(adr) => mem.jump(adr, true),
        Instr::Jcc(c, adr) => mem.jump(adr, flags.test(c)),
        Instr::Call(adr) => mem.call(adr, true),
        Instr::Ccc(c, adr) => mem.call(adr, flags.test(c)),
        Instr::Ret => mem.ret(true),
        Instr::Rcc(c) => mem.ret(flags.test(c)),
        Instr::Pchl => {
            let (high, low) = reg.halves(Pair::HL);
            mem.set_pc(high, low);
        },
        _ => {},
    }
}

/// The stack instructions.
fn stack(instr: Instr, reg: &mut Registers, flags: &mut Flags, mem: &mut Memory)
    requires
        matches!(instr, Instr::Push(_) | Instr::PushPsw | Instr::Pop(_) | Instr::PopPsw),
    ensures
        Machine::of(*final(reg), *final(flags), *final(mem)) == Machine::of(
            *old(reg),
            *old(flags),
            *old(mem),
        ).execute(instr),
        final(mem).bytes_read == old(mem).bytes_read,
{
    match instr {
        Instr::Push(p) => {
            let (high, low) = reg.halves(p);
            mem.push(high, low);
        },
        Instr::PushPsw => mem.push(reg.a, flags.to_status()),
        Instr::Pop(p) => {
            let low = mem.read_sp8();
            let high = mem.read_sp8();
            reg.set_pair(p, high, low);
        },
        Instr::PopPsw => {
            let psw = mem.read_sp8();
            flags.set_status(psw);
            reg.a = mem.read_sp8();
        },
        _ => {},
    }
}

/// Executes one instruction: decodes the instruction at the program
/// counter, moves the counter past it and applies the instruction to the
/// registers, the flags and the memory.
///
/// The result tells what the caller has to do. `Halted` ends the run. The
/// two port instructions transfer no data and are only reported. An
/// instruction that is decoded and not implemented is reported as a `Fault`
/// with its address and its byte; only the program counter has changed then.
pub fn emulate(reg: &mut Registers, flags: &mut Flags, mem: &mut Memory) -> (result: Result<
    Event,
    Fault,
>)
    ensures
        Machine::of(*final(reg), *final(flags), *final(mem)) == Machine::of(
            *old(reg),
            *old(flags),
            *old(mem),
        ).step(),
        final(mem).bytes_read == old(mem).bytes_read,
        result == Machine::of(*old(reg), *old(flags), *old(mem)).outcome(),
{
    let address = mem.pc;
    let byte = mem[address];
    let opcode = mem.read_opcode();
    match execute(opcode.instr(), reg, flags, mem) {
        Some(event) => Ok(event),
        None => Err(Fault { address, opcode: byte }),
    }
}

} // verus!
