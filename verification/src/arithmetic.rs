//! The arithmetic group. Eight-bit results are formed in sixteen bits, so that the
//! carry shows as a ninth bit; auxiliary carry comes from the low nibbles of the two
//! operands.

use vstd::prelude::*;
use crate::bits::{high8, low8};
use crate::cpu::Cpu;
use crate::instruction::{Instruction, Pair, Reg};
use crate::register::Register;
use crate::state::State;

verus! {

impl Cpu {
    /// Adds `operand` and `carry` to the accumulator and sets all five flags.
    pub fn add_with(&mut self, operand: u8, carry: bool)
        ensures
            final(self)@ == old(self)@.add_with(operand, carry),
    {
        let lhs: u8 = self.a.0;
        let extra: u8 = if carry { 1 } else { 0 };
        let answer: u16 = lhs as u16 + operand as u16 + extra as u16;
        proof {
            crate::bits::lemma_u8_parts(lhs);
            crate::bits::lemma_u8_parts(operand);
        }
        let nibbles: u8 = (lhs & 0xf) + (operand & 0xf) + extra;
        self.a = Register(low8(answer));
        self.conditions.set_all(answer, nibbles);
    }

    /// Subtracts `operand` and `borrow` from the accumulator and sets all five flags.
    pub fn sub_with(&mut self, operand: u8, borrow: bool)
        ensures
            final(self)@ == old(self)@.sub_with(operand, borrow),
    {
        let lhs: u8 = self.a.0;
        let extra: u8 = if borrow { 1 } else { 0 };
        let rhs: u16 = operand as u16 + extra as u16;
        let answer: u16 = (lhs as u16).wrapping_sub(rhs);
        proof {
            crate::bits::lemma_u8_parts(lhs);
            crate::bits::lemma_u8_parts(operand);
            crate::state::lemma_wrap16(lhs - operand - extra);
            crate::state::lemma_wrap8(lhs % 16 - operand % 16 - extra);
        }
        let nibbles: u8 = (lhs & 0xf).wrapping_sub((operand & 0xf) + extra);
        self.a = Register(low8(answer));
        self.conditions.set_all(answer, nibbles);
    }

    /// Sets the flags as a subtraction of `operand` from the accumulator would, and
    /// keeps the accumulator.
    pub fn compare_with(&mut self, operand: u8)
        ensures
            final(self)@ == old(self)@.compare(operand),
    {
        let lhs: u8 = self.a.0;
        let answer: u16 = (lhs as u16).wrapping_sub(operand as u16);
        proof {
            crate::bits::lemma_u8_parts(lhs);
            crate::bits::lemma_u8_parts(operand);
            crate::state::lemma_wrap16(lhs - operand);
            crate::state::lemma_wrap8(lhs % 16 - operand % 16);
        }
        let nibbles: u8 = (lhs & 0xf).wrapping_sub(operand & 0xf);
        self.conditions.set_all(answer, nibbles);
    }

    /// `ADD src`.
    pub fn add(&mut self, src: Reg)
        ensures
            final(self)@ == old(self)@.add_with(old(self)@.reg(src), false),
    {
        let rhs: u8 = self.reg(src);
        self.add_with(rhs, false);
    }

    /// `ADC src`.
    pub fn adc(&mut self, src: Reg)
        ensures
            final(self)@ == old(self)@.add_with(old(self)@.reg(src), old(self)@.conditions.cy),
    {
        let rhs: u8 = self.reg(src);
        let carry: bool = self.conditions.cy;
        self.add_with(rhs, carry);
    }

    /// `ADI`.
    pub fn adi(&mut self)
        ensures
            final(self)@ == old(self)@.add_with(old(self)@.d8(), false),
    {
        let rhs: u8 = self.get_d8();
        self.add_with(rhs, false);
    }

    /// `ACI`.
    pub fn aci(&mut self)
        ensures
            final(self)@ == old(self)@.add_with(old(self)@.d8(), old(self)@.conditions.cy),
    {
        let rhs: u8 = self.get_d8();
        let carry: bool = self.conditions.cy;
        self.add_with(rhs, carry);
    }

    /// `SUB src`.
    pub fn sub(&mut self, src: Reg)
        ensures
            final(self)@ == old(self)@.sub_with(old(self)@.reg(src), false),
    {
        let rhs: u8 = self.reg(src);
        self.sub_with(rhs, false);
    }

    /// `SBB src`.
    pub fn sbb(&mut self, src: Reg)
        ensures
            final(self)@ == old(self)@.sub_with(old(self)@.reg(src), old(self)@.conditions.cy),
    {
        let rhs: u8 = self.reg(src);
        let borrow: bool = self.conditions.cy;
        self.sub_with(rhs, borrow);
    }

    /// `SUI`.
    pub fn sui(&mut self)
        ensures
            final(self)@ == old(self)@.sub_with(old(self)@.d8(), false),
    {
        let rhs: u8 = self.get_d8();
        self.sub_with(rhs, false);
    }

    /// `SBI`.
    pub fn sbi(&mut self)
        ensures
            final(self)@ == old(self)@.sub_with(old(self)@.d8(), old(self)@.conditions.cy),
    {
        let rhs: u8 = self.get_d8();
        let borrow: bool = self.conditions.cy;
        self.sub_with(rhs, borrow);
    }

    /// `CMP src`.
    pub fn compare(&mut self, src: Reg)
        ensures
            final(self)@ == old(self)@.compare(old(self)@.reg(src)),
    {
        let rhs: u8 = self.reg(src);
        self.compare_with(rhs);
    }

    /// `CPI`.
    pub fn cpi(&mut self)
        ensures
            final(self)@ == old(self)@.compare(old(self)@.d8()),
    {
        let byte: u8 = self.get_d8();
        self.compare_with(byte);
    }

    /// `INR reg`.
    pub fn inr(&mut self, reg: Reg)
        ensures
            final(self)@ == old(self)@.inr(reg),
    {
        let lhs: u8 = self.reg(reg);
        let value: u8 = lhs.wrapping_add(1);
        proof {
            crate::bits::lemma_u8_parts(lhs);
        }
        self.conditions.set_all_except_carry(value as u16, (lhs & 0xf) + 1);
        self.set_reg(reg, value);
    }

    /// `DCR reg`.
    pub fn dcr(&mut self, reg: Reg)
        ensures
            final(self)@ == old(self)@.dcr(reg),
    {
        let lhs: u8 = self.reg(reg);
        let value: u8 = lhs.wrapping_sub(1);
        proof {
            crate::bits::lemma_u8_parts(lhs);
            crate::state::lemma_wrap8(lhs - 1);
            crate::state::lemma_wrap8(lhs % 16 - 1);
        }
        self.conditions.set_all_except_carry(value as u16, (lhs & 0xf).wrapping_sub(1));
        self.set_reg(reg, value);
    }

    /// `INX pair`.
    pub fn inx(&mut self, pair: Pair)
        ensures
            final(self)@ == old(self)@.inx(pair),
    {
        let answer: u16 = self.pair(pair).wrapping_add(1);
        self.set_pair(pair, answer);
    }

    /// `DCX pair`.
    pub fn dcx(&mut self, pair: Pair)
        ensures
            final(self)@ == old(self)@.dcx(pair),
    {
        let answer: u16 = self.pair(pair).wrapping_sub(1);
        self.set_pair(pair, answer);
    }

    /// `DAD pair`.
    pub fn dad(&mut self, pair: Pair)
        ensures
            final(self)@ == old(self)@.dad(pair),
    {
        let hl: u16 = self.pair(Pair::HL);
        let second: u16 = self.pair(pair);
        let total: u32 = hl as u32 + second as u32;
        let answer: u16 = hl.wrapping_add(second);
        self.conditions.cy = total > 0xffff;
        self.h = Register(high8(answer));
        self.l = Register(low8(answer));
    }

    /// `DAA`.
    pub fn daa(&mut self)
        ensures
            final(self)@ == old(self)@.daa(),
    {
        let mut answer: u16 = self.a.0 as u16;
        proof {
            crate::bits::lemma_u16_bytes(answer);
        }
        let least: u16 = answer & 0xf;
        if self.conditions.ac || least > 9 {
            answer = answer + 6;
            proof {
                crate::bits::lemma_u16_bytes(answer);
            }
            if answer & 0xf < least {
                self.conditions.ac = true;
            }
        }
        let least: u16 = answer & 0xf;
        let mut most: u16 = (answer >> 4) & 0xf;
        if self.conditions.cy || most > 9 {
            most = most + 6;
        }
        proof {
            crate::bits::lemma_join_nibbles(most, least);
        }
        let answer: u16 = (most << 4) | least;
        self.conditions.set_all_except_ac(answer);
        self.a = Register(low8(answer));
    }

    /// Executes an instruction of the arithmetic group.
    pub(crate) fn execute_arithmetic(&mut self, instruction: Instruction) -> (jumped: bool)
        requires
            instruction.is_arithmetic(),
        ensures
            final(self)@ == old(self)@.effect(instruction, 0),
            jumped == old(self)@.takes(instruction),
    {
        proof {
            reveal(State::effect);
        }
        match instruction {
            Instruction::Alu(op, src) => self.alu(op, src),
            Instruction::AluImmediate(op) => self.alu_immediate(op),
            Instruction::Inr(reg) => self.inr(reg),
            Instruction::Dcr(reg) => self.dcr(reg),
            Instruction::Inx(pair) => self.inx(pair),
            Instruction::Dcx(pair) => self.dcx(pair),
            Instruction::Dad(pair) => self.dad(pair),
            _ => self.daa(),
        }
        false
    }
}

} // verus!
