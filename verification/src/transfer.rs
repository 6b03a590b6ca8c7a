//! The data transfer group: moves between registers, register pairs, memory, the
//! stack pointer and the program counter. None of them touches a flag.

use vstd::prelude::*;
use crate::bits::join16;
use crate::cpu::Cpu;
use crate::instruction::{Instruction, Pair, Reg};
use crate::pointer::Pointer;
use crate::register::Register;
use crate::state::State;

verus! {

impl Cpu {
    /// `MOV dst, src`.
    pub fn mov(&mut self, dst: Reg, src: Reg)
        ensures
            final(self)@ == old(self)@.mov(dst, src),
    {
        let content: u8 = self.reg(src);
        self.set_reg(dst, content);
    }

    /// `MVI dst`: the byte after the opcode goes to `dst`.
    pub fn mvi(&mut self, dst: Reg)
        ensures
            final(self)@ == old(self)@.mvi(dst),
    {
        let byte: u8 = self.get_d8();
        self.set_reg(dst, byte);
    }

    /// `LXI pair`: the two bytes after the opcode go to `pair`.
    pub fn lxi(&mut self, pair: Pair)
        ensures
            final(self)@ == old(self)@.lxi(pair),
    {
        let word: u16 = self.get_d16();
        self.set_pair(pair, word);
    }

    /// `LDAX pair`: the accumulator takes the byte that `pair` addresses.
    pub fn ldax(&mut self, pair: Pair)
        ensures
            final(self)@ == old(self)@.ldax(pair),
    {
        let offset: u16 = self.pair(pair);
        self.a = Register(self.memory.read(offset));
    }

    /// `STAX pair`: the accumulator goes to the cell that `pair` addresses.
    pub fn stax(&mut self, pair: Pair)
        ensures
            final(self)@ == old(self)@.stax(pair),
    {
        let offset: u16 = self.pair(pair);
        self.memory.write(offset, self.a.0);
    }

    /// `SHLD`: `L` and `H` go to the address after the opcode and the one above it.
    pub fn shld(&mut self)
        ensures
            final(self)@ == old(self)@.shld(),
    {
        let addr: u16 = self.get_d16();
        self.memory.write(addr, self.l.0);
        self.memory.write(addr.wrapping_add(1), self.h.0);
    }

    /// `LHLD`: `L` and `H` are read from the address after the opcode and the one
    /// above it.
    pub fn lhld(&mut self)
        ensures
            final(self)@ == old(self)@.lhld(),
    {
        let addr: u16 = self.get_d16();
        self.l = Register(self.memory.read(addr));
        self.h = Register(self.memory.read(addr.wrapping_add(1)));
    }

    /// `LDA`: the accumulator takes the byte at the address after the opcode.
    pub fn lda(&mut self)
        ensures
            final(self)@ == old(self)@.lda(),
    {
        let addr: u16 = self.get_d16();
        self.a = Register(self.memory.read(addr));
    }

    /// `STA`: the accumulator goes to the address after the opcode.
    pub fn sta(&mut self)
        ensures
            final(self)@ == old(self)@.sta(),
    {
        let addr: u16 = self.get_d16();
        self.memory.write(addr, self.a.0);
    }

    /// `SPHL`: the stack pointer takes `HL`.
    pub fn sphl(&mut self)
        ensures
            final(self)@ == old(self)@.sphl(),
    {
        self.sp = Pointer(join16(self.h.0, self.l.0));
    }

    /// `PCHL`: the program counter takes `HL`. Always a jump.
    pub fn pchl(&mut self) -> (jumped: bool)
        ensures
            final(self)@ == old(self)@.pchl(),
            jumped,
    {
        self.pc = Pointer(join16(self.h.0, self.l.0));
        true
    }

    /// `XCHG`: `HL` and `DE` change places.
    pub fn xchg(&mut self)
        ensures
            final(self)@ == old(self)@.xchg(),
    {
        let h: Register = self.h;
        let l: Register = self.l;
        self.h = self.d;
        self.l = self.e;
        self.d = h;
        self.e = l;
    }

    /// `XTHL`: `HL` and the word on top of the stack change places.
    pub fn xthl(&mut self)
        ensures
            final(self)@ == old(self)@.xthl(),
    {
        let above: u16 = self.sp.0.wrapping_add(1);
        let new_h: u8 = self.memory.read(above);
        let new_l: u8 = self.memory.read(self.sp.0);
        let old_h: u8 = self.h.0;
        let old_l: u8 = self.l.0;
        self.h = Register(new_h);
        self.l = Register(new_l);
        self.memory.write(above, old_h);
        self.memory.write(self.sp.0, old_l);
    }

    /// Executes an instruction of the data transfer group and tells whether it set
    /// the program counter.
    pub(crate) fn execute_transfer(&mut self, instruction: Instruction) -> (jumped: bool)
        requires
            instruction.is_transfer(),
        ensures
            final(self)@ == old(self)@.effect(instruction, 0),
            jumped == old(self)@.takes(instruction),
    {
        proof {
            reveal(State::effect);
        }
        match instruction {
            Instruction::Mov(dst, src) => {
                self.mov(dst, src);
                false
            },
            Instruction::Mvi(dst) => {
                self.mvi(dst);
                false
            },
            Instruction::Lxi(pair) => {
                self.lxi(pair);
                false
            },
            Instruction::Ldax(pair) => {
                self.ldax(pair);
                false
            },
            Instruction::Stax(pair) => {
                self.stax(pair);
                false
            },
            Instruction::Shld => {
                self.shld();
                false
            },
            Instruction::Lhld => {
                self.lhld();
                false
            },
            Instruction::Lda => {
                self.lda();
                false
            },
            Instruction::Sta => {
                self.sta();
                false
            },
            Instruction::Sphl => {
                self.sphl();
                false
            },
            Instruction::Xchg => {
                self.xchg();
                false
            },
            Instruction::Xthl => {
                self.xthl();
                false
            },
            _ => self.pchl(),
        }
    }
}

} // verus!
