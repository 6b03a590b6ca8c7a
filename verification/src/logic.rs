//! The logical group: and, or, exclusive or, the rotates and the carry switches.

use vstd::prelude::*;
use crate::cpu::Cpu;
use crate::instruction::{AluOp, Instruction, Reg};
use crate::register::Register;
use crate::state::State;

verus! {

impl Cpu {
    /// `ANA src`.
    pub fn ana(&mut self, src: Reg)
        ensures
            final(self)@ == old(self)@.ana(old(self)@.reg(src)),
    {
        let lhs: u8 = self.a.0;
        let rhs: u8 = self.reg(src);
        let answer: u8 = lhs & rhs;
        self.a = Register(answer);
        self.conditions.set_all(answer as u16, answer);
    }

    /// `ANI`.
    pub fn ani(&mut self)
        ensures
            final(self)@ == old(self)@.ani(),
    {
        let answer: u8 = self.a.0 & self.get_d8();
        self.conditions.set_cy(answer as u16);
        self.conditions.set_z(answer as u16);
        self.conditions.set_s(answer as u16);
        self.conditions.set_p(answer as u16);
        self.a = Register(answer);
    }

    /// `XRA src`.
    pub fn xra(&mut self, src: Reg)
        ensures
            final(self)@ == old(self)@.xra(old(self)@.reg(src)),
    {
        let rhs: u8 = self.reg(src);
        let lhs: u8 = self.a.0;
        let answer: u8 = lhs ^ rhs;
        proof {
            crate::bits::lemma_nibble_xor(lhs, rhs);
        }
        self.a = Register(answer);
        self.conditions.set_all(answer as u16, (lhs & 0xf) ^ (rhs & 0xf));
    }

    /// `XRI`.
    pub fn xri(&mut self)
        ensures
            final(self)@ == old(self)@.xri(),
    {
        let rhs: u8 = self.get_d8();
        let lhs: u8 = self.a.0;
        let answer: u8 = lhs ^ rhs;
        self.a = Register(answer);
        self.conditions.set_all(answer as u16, answer);
    }

    /// `ORA src`.
    pub fn ora(&mut self, src: Reg)
        ensures
            final(self)@ == old(self)@.ora(old(self)@.reg(src)),
    {
        let rhs: u8 = self.reg(src);
        let answer: u8 = self.a.0 | rhs;
        self.a = Register(answer);
        self.conditions.set_all(answer as u16, 0);
    }

    /// `ORI`.
    pub fn ori(&mut self)
        ensures
            final(self)@ == old(self)@.ori(),
    {
        let answer: u8 = self.a.0 | self.get_d8();
        self.conditions.set_cy(answer as u16);
        self.conditions.set_z(answer as u16);
        self.conditions.set_s(answer as u16);
        self.conditions.set_p(answer as u16);
        self.a = Register(answer);
    }

    /// One of the eight operations between the accumulator and a register or `M`.
    pub fn alu(&mut self, op: AluOp, src: Reg)
        ensures
            final(self)@ == old(self)@.alu(op, old(self)@.reg(src)),
    {
        match op {
            AluOp::Add => self.add(src),
            AluOp::Adc => self.adc(src),
            AluOp::Sub => self.sub(src),
            AluOp::Sbb => self.sbb(src),
            AluOp::Ana => self.ana(src),
            AluOp::Xra => self.xra(src),
            AluOp::Ora => self.ora(src),
            AluOp::Compare => self.compare(src),
        }
    }

    /// One of the eight operations between the accumulator and the byte after the
    /// opcode.
    pub fn alu_immediate(&mut self, op: AluOp)
        ensures
            final(self)@ == old(self)@.alu_immediate(op),
    {
        match op {
            AluOp::Add => self.adi(),
            AluOp::Adc => self.aci(),
            AluOp::Sub => self.sui(),
            AluOp::Sbb => self.sbi(),
            AluOp::Ana => self.ani(),
            AluOp::Xra => self.xri(),
            AluOp::Ora => self.ori(),
            AluOp::Compare => self.cpi(),
        }
    }

    /// `RLC`.
    pub fn rlc(&mut self)
        ensures
            final(self)@ == old(self)@.rlc(),
    {
        let before: u8 = self.a.0;
        proof {
            crate::bits::lemma_rotate_left(before, 0);
            crate::bits::lemma_u8_parts(before);
        }
        self.a = Register((before << 1) | (before >> 7));
        self.conditions.cy = before & 0x80 != 0;
    }

    /// `RAL`.
    pub fn ral(&mut self)
        ensures
            final(self)@ == old(self)@.ral(),
    {
        let before: u8 = self.a.0;
        let carry: u8 = if self.conditions.cy { 1 } else { 0 };
        proof {
            crate::bits::lemma_rotate_left(before, carry);
            crate::bits::lemma_u8_parts(before);
        }
        let new_carry: bool = before & 0x80 != 0;
        self.a = Register((before << 1) | carry);
        self.conditions.cy = new_carry;
    }

    /// `RAR`.
    pub fn rar(&mut self)
        ensures
            final(self)@ == old(self)@.rar(),
    {
        let before: u8 = self.a.0;
        let carry: u8 = if self.conditions.cy { 1 } else { 0 };
        proof {
            crate::bits::lemma_rotate_right(before, carry);
            crate::bits::lemma_u8_parts(before);
        }
        let new_carry: bool = before & 1 != 0;
        self.a = Register((before >> 1) | (carry << 7));
        self.conditions.cy = new_carry;
    }

    /// `RRC`.
    pub fn rrc(&mut self)
        ensures
            final(self)@ == old(self)@.rrc(),
    {
        let before: u8 = self.a.0;
        proof {
            crate::bits::lemma_rotate_right(before, 0);
            crate::bits::lemma_u8_parts(before);
        }
        self.a = Register((before >> 1) | (before << 7));
        self.conditions.cy = before & 1 != 0;
    }

    /// `STC`.
    pub fn stc(&mut self)
        ensures
            final(self)@ == old(self)@.stc(),
    {
        self.conditions.cy = true;
    }

    /// `CMA`.
    pub fn cma(&mut self)
        ensures
            final(self)@ == old(self)@.cma(),
    {
        proof {
            crate::bits::lemma_u8_parts(self.a.0);
        }
        self.a = Register(!self.a.0);
    }

    /// `CMC`.
    pub fn cmc(&mut self)
        ensures
            final(self)@ == old(self)@.cmc(),
    {
        self.conditions.cy = !self.conditions.cy;
    }

    /// Executes a rotate, the complement or a carry switch.
    pub(crate) fn execute_rotate(&mut self, instruction: Instruction) -> (jumped: bool)
        requires
            instruction.is_rotate(),
        ensures
            final(self)@ == old(self)@.effect(instruction, 0),
            jumped == old(self)@.takes(instruction),
    {
        proof {
            reveal(State::effect);
        }
        match instruction {
            Instruction::Rlc => self.rlc(),
            Instruction::Rrc => self.rrc(),
            Instruction::Ral => self.ral(),
            Instruction::Rar => self.rar(),
            Instruction::Cma => self.cma(),
            Instruction::Stc => self.stc(),
            _ => self.cmc(),
        }
        false
    }
}

} // verus!
