//! The 64 KiB memory with the program counter and the stack pointer.

use vstd::prelude::*;
use crate::bits::high_byte;
use crate::bits::join;
use crate::bits::low_byte;
use crate::bits::offset;
use crate::bits::split;
use crate::bits::word;
use crate::instr::decode;
use crate::opcode::Opcode;

verus! {

/// The number of addressable bytes.
pub const MEMORY_SIZE: usize = 0x10000;

/// A flat array of exactly 65536 bytes, one for each 16-bit address.
pub struct Ram {
    cells: Vec<u8>,
}

impl View for Ram {
    type V = Seq<u8>;

    /// The 65536 bytes, by address.
    closed spec fn view(&self) -> Seq<u8> {
        Seq::new(65536, |i: int| self.cells@[i])
    }
}

impl Ram {
    #[verifier::type_invariant]
    spec fn inv(self) -> bool {
        self.cells.len() == 65536
    }

    /// Every memory holds exactly 65536 bytes.
    pub proof fn lemma_size(self)
        ensures
            self@.len() == 65536,
    {
    }

    /// A memory that holds the image from address 0 on and 0 in every byte
    /// after it. Of an image longer than 65536 bytes only the first 65536 are
    /// taken.
    pub fn load(image: Vec<u8>) -> (ram: Ram)
        ensures
            ram@.len() == 65536,
            forall|i: int|
                0 <= i < 65536 ==> #[trigger] ram@[i] == (if i < image@.len() {
                    image@[i]
                } else {
                    0u8
                }),
    {
        let mut cells = image;
        cells.resize(MEMORY_SIZE, 0);
        Ram { cells }
    }

    /// The byte at `adr`.
    pub fn get(&self, adr: u16) -> (value: u8)
        ensures
            value == self@[adr as int],
    {
        proof {
            use_type_invariant(self);
        }
        self.cells[adr as usize]
    }

    /// Stores `value` at `adr`. No other byte changes.
    pub fn set(&mut self, adr: u16, value: u8)
        ensures
            final(self)@ == old(self)@.update(adr as int, value),
    {
        proof {
            use_type_invariant(&*self);
        }
        self.cells[adr as usize] = value;
    }
}

/// The memory together with the two 16-bit cursors into it.
pub struct Memory {
    /// How many bytes of the image were loaded: the length of the image, or
    /// 65536 for a longer one.
    pub bytes_read: usize,
    /// The program counter: the address of the next byte to fetch.
    pub pc: u16,
    /// The stack pointer: the address of the byte last pushed. The stack
    /// grows towards address 0.
    pub sp: u16,
    /// The 65536 bytes.
    pub mem: Ram,
}

impl Memory {
    /// The 65536 bytes, by address.
    pub open spec fn bytes(&self) -> Seq<u8> {
        self.mem@
    }

    /// A memory loaded with `image` from address 0 on, zero-filled after it,
    /// with both cursors at 0. Of an image longer than 65536 bytes only the
    /// first 65536 are loaded; this is no error.
    pub fn from_bytes(image: Vec<u8>) -> (memory: Memory)
        ensures
            memory.pc == 0,
            memory.sp == 0,
            memory.bytes_read == (if image@.len() <= 65536 {
                image@.len()
            } else {
                65536
            }),
            memory.bytes().len() == 65536,
            forall|i: int|
                0 <= i < 65536 ==> #[trigger] memory.bytes()[i] == (if i < image@.len() {
                    image@[i]
                } else {
                    0u8
                }),
    {
        let bytes_read = if image.len() <= MEMORY_SIZE {
            image.len()
        } else {
            MEMORY_SIZE
        };
        Memory { bytes_read, pc: 0, sp: 0, mem: Ram::load(image) }
    }

    /// Sets the stack pointer to the word `rh`,`rl`, `rh` being its high byte.
    pub fn set_sp(&mut self, rh: u8, rl: u8)
        ensures
            *final(self) == (Memory { sp: word(rh, rl), ..*old(self) }),
    {
        self.sp = join(rh, rl);
    }

    /// Sets the program counter to the word `rh`,`rl`, `rh` being its high
    /// byte.
    pub fn set_pc(&mut self, rh: u8, rl: u8)
        ensures
            *final(self) == (Memory { pc: word(rh, rl), ..*old(self) }),
    {
        self.pc = join(rh, rl);
    }

    /// The program counter as two bytes, the high one first.
    pub fn get_pc(&self) -> (bytes: (u8, u8))
        ensures
            bytes.0 == high_byte(self.pc),
            bytes.1 == low_byte(self.pc),
    {
        split(self.pc)
    }

    /// Fetches the byte at the program counter and moves the counter one
    /// byte on. After address 0xFFFF the counter goes back to 0.
    pub fn read_pc8(&mut self) -> (value: u8)
        ensures
            value == old(self).bytes()[old(self).pc as int],
            *final(self) == (Memory { pc: offset(old(self).pc, 1), ..*old(self) }),
    {
        let res = self.mem.get(self.pc);
        self.pc = self.pc.wrapping_add(1);
        res
    }

    /// Fetches the word at the program counter, low byte first, and moves
    /// the counter two bytes on.
    pub fn read_pc16(&mut self) -> (value: u16)
        ensures
            value == word(
                old(self).bytes()[offset(old(self).pc, 1) as int],
                old(self).bytes()[old(self).pc as int],
            ),
            *final(self) == (Memory { pc: offset(old(self).pc, 2), ..*old(self) }),
    {
        let rl = self.read_pc8();
        let rh = self.read_pc8();
        join(rh, rl)
    }

    /// Reads the byte at the stack pointer and moves the pointer one byte
    /// up. After address 0xFFFF the pointer goes back to 0.
    pub fn read_sp8(&mut self) -> (value: u8)
        ensures
            value == old(self).bytes()[old(self).sp as int],
            *final(self) == (Memory { sp: offset(old(self).sp, 1), ..*old(self) }),
    {
        let res = self.mem.get(self.sp);
        self.sp = self.sp.wrapping_add(1);
        res
    }

    /// Continues at `adr` if `cond` holds, and does nothing otherwise.
    pub fn jump(&mut self, adr: u16, cond: bool)
        ensures
            cond ==> *final(self) == (Memory { pc: adr, ..*old(self) }),
            !cond ==> *final(self) == *old(self),
    {
        if cond {
            self.pc = adr;
        }
    }

    /// Calls the subroutine at `adr` if `cond` holds, and does nothing
    /// otherwise. A call stores the program counter just below the stack
    /// pointer, its high byte at the higher address, lowers the stack pointer
    /// by 2 and continues at `adr`.
    pub fn call(&mut self, adr: u16, cond: bool)
        ensures
            cond ==> {
                &&& final(self).pc == adr
                &&& final(self).sp == offset(old(self).sp, -2)
                &&& final(self).bytes() == old(self).bytes().update(
                    offset(old(self).sp, -1) as int,
                    high_byte(old(self).pc),
                ).update(offset(old(self).sp, -2) as int, low_byte(old(self).pc))
                &&& final(self).bytes_read == old(self).bytes_read
            },
            !cond ==> *final(self) == *old(self),
    {
        if cond {
            let (rh, rl) = split(self.pc);
            self.push(rh, rl);
            self.pc = adr;
        }
    }

    /// Returns from a subroutine if `cond` holds, and does nothing otherwise.
    /// A return continues at the word found at the stack pointer, low byte
    /// first, and raises the stack pointer by 2.
    pub fn ret(&mut self, cond: bool)
        ensures
            cond ==> *final(self) == (Memory {
                pc: word(
                    old(self).bytes()[offset(old(self).sp, 1) as int],
                    old(self).bytes()[old(self).sp as int],
                ),
                sp: offset(old(self).sp, 2),
                ..*old(self)
            }),
            !cond ==> *final(self) == *old(self),
    {
        if cond {
            let rl = self.read_sp8();
            let rh = self.read_sp8();
            self.pc = join(rh, rl);
        }
    }

    /// Pushes two bytes: `rh` goes just below the stack pointer, `rl` below
    /// it, and the stack pointer is lowered by 2.
    pub fn push(&mut self, rh: u8, rl: u8)
        ensures
            final(self).pc == old(self).pc,
            final(self).sp == offset(old(self).sp, -2),
            final(self).bytes() == old(self).bytes().update(
                offset(old(self).sp, -1) as int,
                rh,
            ).update(offset(old(self).sp, -2) as int, rl),
            final(self).bytes_read == old(self).bytes_read,
    {
        self.mem.set(self.sp.wrapping_sub(1), rh);
        self.mem.set(self.sp.wrapping_sub(2), rl);
        self.sp = self.sp.wrapping_sub(2);
    }

    /// The instruction at address `adr`: what the byte there encodes, with
    /// the two bytes after it as its operand bytes. The addresses wrap at the
    /// end of the memory.
    pub open spec fn instr_at(&self, adr: u16) -> crate::instr::Instr {
        decode(
            self.bytes()[adr as int],
            self.bytes()[offset(adr, 1) as int],
            self.bytes()[offset(adr, 2) as int],
        )
    }

    /// Decodes the instruction at the program counter and moves the counter
    /// past it, by the 1, 2 or 3 bytes that encode the instruction. Nothing
    /// else changes, and no byte fails to decode.
    pub fn read_opcode(&mut self) -> (opcode: Opcode)
        ensures
            opcode@ == old(self).instr_at(old(self).pc),
            *final(self) == (Memory { pc: offset(old(self).pc, opcode@.len()), ..*old(self) }),
    {
        let b0 = self.mem.get(self.pc);
        let b1 = self.mem.get(self.pc.wrapping_add(1));
        let b2 = self.mem.get(self.pc.wrapping_add(2));
        let opcode = Opcode::decode(b0, b1, b2);
        self.pc = self.pc.wrapping_add(opcode.instr().size());
        opcode
    }
}

impl vstd::std_specs::core::IndexSpecImpl<u16> for Memory {
    open spec fn index_req(&self, index: &u16) -> bool {
        true
    }
}

impl std::ops::Index<u16> for Memory {
    type Output = u8;

    /// The byte at `index`.
    fn index(&self, index: u16) -> (value: &u8)
        ensures
            *value == self.bytes()[index as int],
    {
        proof {
            use_type_invariant(&self.mem);
        }
        &self.mem.cells[index as usize]
    }
}

impl std::ops::IndexMut<u16> for Memory {
    /// The byte at `index`, to be overwritten. No other byte changes.
    fn index_mut(&mut self, index: u16) -> (value: &mut u8)
        ensures
            *value == old(self).bytes()[index as int],
            *final(self) == (Memory { mem: final(self).mem, ..*old(self) }),
            final(self).bytes() == old(self).bytes().update(index as int, *final(value)),
    {
        proof {
            use_type_invariant(&self.mem);
        }
        &mut self.mem.cells[index as usize]
    }
}

} // verus!
