//! What holds of the decoder and of the execution engine in every state.

use vstd::prelude::*;
use crate::alu::carry_in;
use crate::bits::high_byte;
use crate::bits::low_byte;
use crate::bits::offset;
use crate::bits::word;
use crate::bits::wrap8;
use crate::engine::Event;
use crate::engine::Fault;
use crate::flags::Flags;
use crate::instr::decode;
use crate::instr::AluOp;
use crate::instr::Cond;
use crate::instr::Instr;
use crate::instr::Operand;
use crate::instr::Pair;
use crate::instr::Wide;
use crate::machine::Machine;
use crate::memory::Memory;
use crate::registers::Registers;

verus! {

/// The state of a running processor is always well formed: its memory has
/// exactly 65536 bytes, whatever has been loaded or stored.
pub proof fn running_state_is_well_formed(reg: Registers, flags: Flags, memory: Memory)
    ensures
        Machine::of(reg, flags, memory).wf(),
{
    memory.mem.lemma_size();
}

/// Every byte decodes to an instruction of 1, 2 or 3 bytes, and the length
/// depends on the first byte alone. The bytes after the instruction play no
/// part: an instruction of one byte is the same whatever follows it, and one
/// of two bytes is the same whatever its third byte is.
pub proof fn decode_length(b0: u8, b1: u8, b2: u8, c1: u8, c2: u8)
    ensures
        1 <= decode(b0, b1, b2).len() <= 3,
        decode(b0, b1, b2).len() == decode(b0, c1, c2).len(),
        decode(b0, b1, b2).len() == 1 ==> decode(b0, b1, b2) == decode(b0, c1, c2),
        decode(b0, b1, b2).len() == 2 ==> decode(b0, b1, b2) == decode(b0, b1, c2),
{
}

/// Operands are taken in the order of the bytes. An address is assembled
/// low byte first: the byte right after the first is its low half, the next
/// one its high half. A single operand byte is the byte right after the
/// first.
pub proof fn operands_are_little_endian(b0: u8, low: u8, high: u8)
    ensures
        (match decode(b0, low, high) {
            Instr::Lda(adr)
            | Instr::Sta(adr)
            | Instr::Lhld(adr)
            | Instr::Shld(adr)
            | Instr::Jmp(adr)
            | Instr::Call(adr)
            | Instr::Jcc(_, adr)
            | Instr::Ccc(_, adr) => adr == word(high, low),
            Instr::Lxi(_, first, second) => first == low && second == high,
            Instr::Mvi(_, d8) | Instr::AluImm(_, d8) | Instr::In(d8) | Instr::Out(d8) => d8
                == low,
            _ => true,
        }),
{
}

/// A step moves the program counter past the instruction, whatever the
/// instruction then does to it.
pub proof fn step_is_fetch_then_execute(s: Machine)
    ensures
        s.step() == s.with_pc(offset(s.pc, s.fetch().len())).execute(s.fetch()),
        1 <= s.fetch().len() <= 3,
{
}

/// Adding a byte or an operand to the accumulator leaves the sum modulo 256
/// in the accumulator, and sets Carry exactly when the sum is over 255.
pub proof fn add_wraps_and_carries(s: Machine, v: u8, src: Operand)
    ensures
        s.execute(Instr::AluImm(AluOp::Add, v)).reg.a == (s.reg.a + v) % 256,
        s.execute(Instr::AluImm(AluOp::Add, v)).flags.carry <==> s.reg.a + v > 255,
        s.execute(Instr::Alu(AluOp::Add, src)).reg.a == (s.reg.a + s.get(src)) % 256,
        s.execute(Instr::Alu(AluOp::Add, src)).flags.carry <==> s.reg.a + s.get(src) > 255,
{
}

/// Subtracting a byte from the accumulator leaves the difference modulo 256
/// in the accumulator, and sets Carry exactly when the byte is the larger
/// one. A comparison sets the same flags and keeps the accumulator.
pub proof fn sub_wraps_and_borrows(s: Machine, v: u8)
    ensures
        s.execute(Instr::AluImm(AluOp::Sub, v)).reg.a == (s.reg.a - v) % 256,
        s.execute(Instr::AluImm(AluOp::Sub, v)).flags.carry <==> s.reg.a < v,
        s.execute(Instr::AluImm(AluOp::Cmp, v)).reg.a == s.reg.a,
        s.execute(Instr::AluImm(AluOp::Cmp, v)).flags == s.execute(
            Instr::AluImm(AluOp::Sub, v),
        ).flags,
        s.execute(Instr::AluImm(AluOp::Cmp, v)).flags.zero <==> s.reg.a == v,
{
}

/// Packing the flags into the status byte and loading the byte again gives
/// the same flags. Bit 1 of the byte is always 1, and bits 3 and 5 are 0.
pub proof fn status_round_trip(flags: Flags)
    ensures
        flags.with_status(flags.status()) == flags,
        flags.status() as int / 2 % 2 == 1,
        flags.status() as int / 8 % 2 == 0,
        flags.status() as int / 32 % 2 == 0,
{
}

/// Pushing a register pair and popping the same pair at once restores the
/// registers and the stack pointer, wherever the stack pointer stands.
pub proof fn push_pop_round_trip(s: Machine, p: Pair)
    requires
        s.wf(),
    ensures
        s.execute(Instr::Push(p)).execute(Instr::Pop(p)).reg == s.reg,
        s.execute(Instr::Push(p)).execute(Instr::Pop(p)).sp == s.sp,
        s.execute(Instr::Push(p)).execute(Instr::Pop(p)).pc == s.pc,
        s.execute(Instr::Push(p)).execute(Instr::Pop(p)).flags == s.flags,
{
    let pushed = s.execute(Instr::Push(p));
    assert(offset(pushed.sp, 1) == offset(s.sp, -1));
    assert(offset(pushed.sp, 2) == s.sp);
    assert(pushed.top_low() == s.reg.low(p));
    assert(pushed.top_high() == s.reg.high(p));
}

/// Pushing the accumulator with the status byte and popping them at once
/// restores the accumulator, every flag and the stack pointer.
pub proof fn push_pop_psw_round_trip(s: Machine)
    requires
        s.wf(),
    ensures
        s.execute(Instr::PushPsw).execute(Instr::PopPsw).reg == s.reg,
        s.execute(Instr::PushPsw).execute(Instr::PopPsw).flags == s.flags,
        s.execute(Instr::PushPsw).execute(Instr::PopPsw).sp == s.sp,
{
    let pushed = s.execute(Instr::PushPsw);
    assert(offset(pushed.sp, 1) == offset(s.sp, -1));
    assert(offset(pushed.sp, 2) == s.sp);
    assert(pushed.top_low() == s.flags.status());
    assert(pushed.top_high() == s.reg.a);
    status_round_trip(s.flags);
}

/// A call at program counter P with stack pointer S continues at its target,
/// lowers the stack pointer to S - 2 and stores the return address, which
/// is P plus the 3 bytes of the call, with its high byte at S - 1 and its
/// low byte at S - 2. A return right after it continues at the return
/// address with the stack pointer back at S.
pub proof fn call_return_round_trip(s: Machine, target: u16)
    requires
        s.wf(),
        s.fetch() == Instr::Call(target),
    ensures
        s.step().pc == target,
        s.step().sp == offset(s.sp, -2),
        s.step().load(offset(s.sp, -1)) == high_byte(offset(s.pc, 3)),
        s.step().load(offset(s.sp, -2)) == low_byte(offset(s.pc, 3)),
        s.step().reg == s.reg,
        s.step().flags == s.flags,
        s.step().execute(Instr::Ret).pc == offset(s.pc, 3),
        s.step().execute(Instr::Ret).sp == s.sp,
{
    let called = s.step();
    assert(offset(called.sp, 1) == offset(s.sp, -1));
    assert(offset(called.sp, 2) == s.sp);
    assert(called.top_low() == low_byte(offset(s.pc, 3)));
    assert(called.top_high() == high_byte(offset(s.pc, 3)));
}

/// A conditional jump, call or return whose condition does not hold changes
/// nothing: no register, no flag, no byte of memory, neither cursor.
pub proof fn branch_not_taken(s: Machine, c: Cond, adr: u16)
    requires
        !s.holds(c),
    ensures
        s.execute(Instr::Jcc(c, adr)) == s,
        s.execute(Instr::Ccc(c, adr)) == s,
        s.execute(Instr::Rcc(c)) == s,
{
}

/// After a conditional jump whose condition does not hold, the only change
/// is that the program counter has moved past the 3 bytes of the jump.
pub proof fn jump_not_taken_steps_over(s: Machine, c: Cond, adr: u16)
    requires
        s.fetch() == Instr::Jcc(c, adr),
        !s.holds(c),
    ensures
        s.step() == s.with_pc(offset(s.pc, 3)),
{
}

/// A conditional jump whose condition holds continues at its target and
/// changes nothing else.
pub proof fn jump_taken(s: Machine, c: Cond, adr: u16)
    requires
        s.holds(c),
    ensures
        s.execute(Instr::Jcc(c, adr)) == s.with_pc(adr),
        s.execute(Instr::Jmp(adr)) == s.with_pc(adr),
{
}

/// No data transfer instruction changes a flag.
pub proof fn transfer_keeps_flags(s: Machine, i: Instr)
    requires
        matches!(
            i,
            Instr::Mov(_, _)
                | Instr::Mvi(_, _)
                | Instr::Lxi(_, _, _)
                | Instr::Lda(_)
                | Instr::Sta(_)
                | Instr::Lhld(_)
                | Instr::Shld(_)
                | Instr::Ldax(_)
                | Instr::Stax(_)
                | Instr::Xchg,
        ),
    ensures
        s.execute(i).flags == s.flags,
        s.execute(i).pc == s.pc,
{
}

/// Incrementing or decrementing an 8-bit operand sets Zero, Sign and Parity
/// from the result and leaves Carry as it is.
pub proof fn inr_dcr_keep_carry(s: Machine, r: Operand)
    ensures
        s.execute(Instr::Inr(r)).flags == s.flags.updated(wrap8(s.get(r) + 1), None),
        s.execute(Instr::Dcr(r)).flags == s.flags.updated(wrap8(s.get(r) - 1), None),
        s.execute(Instr::Inr(r)).flags.carry == s.flags.carry,
        s.execute(Instr::Dcr(r)).flags.carry == s.flags.carry,
        s.wf() ==> s.execute(Instr::Inr(r)).get(r) == wrap8(s.get(r) + 1),
        s.wf() ==> s.execute(Instr::Dcr(r)).get(r) == wrap8(s.get(r) - 1),
{
}

/// Incrementing or decrementing a 16-bit operand changes its value by 1,
/// wrapping at 65536, and changes no flag.
pub proof fn inx_dcx_keep_flags(s: Machine, w: Wide)
    ensures
        s.execute(Instr::Inx(w)).wide(w) == offset(s.wide(w), 1),
        s.execute(Instr::Dcx(w)).wide(w) == offset(s.wide(w), -1),
        s.execute(Instr::Inx(w)).flags == s.flags,
        s.execute(Instr::Dcx(w)).flags == s.flags,
{
}

/// Adding a 16-bit operand to H,L leaves the sum modulo 65536 in H,L and
/// sets Carry exactly when the sum is over 65535. No other flag changes.
pub proof fn dad_changes_carry_only(s: Machine, w: Wide)
    ensures
        s.execute(Instr::Dad(w)).hl() == (s.hl() + s.wide(w)) % 65536,
        s.execute(Instr::Dad(w)).flags == (Flags {
            carry: s.hl() + s.wide(w) > 65535,
            ..s.flags
        }),
{
}

/// A rotation changes the accumulator and Carry and nothing else: Carry
/// takes the bit that is moved out.
pub proof fn rotation_changes_carry_only(s: Machine)
    ensures
        s.execute(Instr::Rlc) == s.with_a(wrap8(s.reg.a * 2 + s.reg.a / 128)).with_carry(
            s.reg.a >= 128,
        ),
        s.execute(Instr::Rrc) == s.with_a(wrap8(s.reg.a / 2 + (s.reg.a % 2) * 128)).with_carry(
            s.reg.a % 2 == 1,
        ),
        s.execute(Instr::Ral) == s.with_a(
            wrap8(s.reg.a * 2 + carry_in(s.flags.carry)),
        ).with_carry(s.reg.a >= 128),
        s.execute(Instr::Rar) == s.with_a(
            wrap8(s.reg.a / 2 + carry_in(s.flags.carry) * 128),
        ).with_carry(s.reg.a % 2 == 1),
{
}

/// Combining the accumulator with itself gives what the operation gives of
/// two equal bytes: AND and OR keep the accumulator and set the flags from
/// it, XOR and SUB clear it, and a comparison sets Zero. Carry is clear
/// after each of them.
pub proof fn accumulator_with_itself(s: Machine)
    ensures
        s.execute(Instr::Alu(AluOp::And, Operand::A)) == s.with_flags(
            s.flags.updated(s.reg.a, Some(false)),
        ),
        s.execute(Instr::Alu(AluOp::Or, Operand::A)) == s.with_flags(
            s.flags.updated(s.reg.a, Some(false)),
        ),
        s.execute(Instr::Alu(AluOp::Xor, Operand::A)) == s.with_a(0).with_flags(
            s.flags.updated(0, Some(false)),
        ),
        s.execute(Instr::Alu(AluOp::Sub, Operand::A)) == s.with_a(0).with_flags(
            s.flags.updated(0, Some(false)),
        ),
        s.execute(Instr::Alu(AluOp::Cmp, Operand::A)) == s.with_flags(
            s.flags.updated(0, Some(false)),
        ),
{
    let a = s.reg.a;
    assert(a & a == a && a | a == a && a ^ a == 0) by (bit_vector);
}

/// An instruction that is not implemented changes nothing and is reported
/// as a fault; every other instruction is executed.
pub proof fn fault_iff_not_implemented(s: Machine)
    ensures
        s.outcome().is_err() <==> matches!(
            s.fetch(),
            Instr::Daa | Instr::Rst(_) | Instr::Xthl | Instr::Sphl
        ),
        s.outcome().is_err() ==> s.step() == s.with_pc(offset(s.pc, 1)),
        s.outcome() == Ok::<Event, Fault>(Event::Halted) ==> s.step() == s.with_pc(
            offset(s.pc, 1),
        ),
{
}

} // verus!
