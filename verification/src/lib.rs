//! An emulator core for the Intel 8080 microprocessor: the instruction
//! decoder and the execution engine, over a register file, a set of condition
//! flags and a flat 64 KiB memory.
//!
//! [`Memory::read_opcode`] decodes the instruction at the program counter,
//! and [`emulate`] decodes and executes one instruction. What an instruction
//! does is stated once, over the mathematical state [`Machine`], and the
//! engine is proved to do exactly that.
//!
//! Three things differ from the hardware, on purpose. The Sign flag is set
//! whenever a result is not 0, not from bit 7 of the result. The Auxiliary
//! Carry flag is never computed: it changes only when the status byte is
//! popped. And `DAA`, the eight `RST`, `XTHL` and `SPHL` are decoded but not
//! implemented: reaching one is reported as a [`Fault`].

pub mod alu;
pub mod bits;
pub mod engine;
pub mod flags;
pub mod instr;
pub mod laws;
pub mod machine;
pub mod memory;
pub mod opcode;
pub mod registers;

pub use crate::engine::emulate;
pub use crate::engine::execute;
pub use crate::engine::Event;
pub use crate::engine::Fault;
pub use crate::flags::Flags;
pub use crate::instr::Instr;
pub use crate::machine::Machine;
pub use crate::memory::Memory;
pub use crate::opcode::Opcode;
pub use crate::registers::Registers;
