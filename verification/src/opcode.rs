//! The opcode byte: how long its instruction is and how many cycles it takes.

use vstd::prelude::*;
use crate::instruction::{AluOp, Condition, Instruction, Pair, Reg, StackPair};

verus! {

/// The nominal number of cycles of each opcode byte.
pub const CYCLES: [u8; 256] = [
    4, 10, 7, 5, 5, 5, 7, 4, 4, 10, 7, 5, 5, 5, 7, 4,
    4, 10, 7, 5, 5, 5, 7, 4, 4, 10, 7, 5, 5, 5, 7, 4,
    4, 10, 16, 5, 5, 5, 7, 4, 4, 10, 16, 5, 5, 5, 7, 4,
    4, 10, 13, 5, 10, 10, 10, 4, 4, 10, 13, 5, 5, 5, 7, 4,
    5, 5, 5, 5, 5, 5, 7, 5, 5, 5, 5, 5, 5, 5, 7, 5,
    5, 5, 5, 5, 5, 5, 7, 5, 5, 5, 5, 5, 5, 5, 7, 5,
    5, 5, 5, 5, 5, 5, 7, 5, 5, 5, 5, 5, 5, 5, 7, 5,
    7, 7, 7, 7, 7, 7, 7, 7, 5, 5, 5, 5, 5, 5, 7, 5,
    4, 4, 4, 4, 4, 4, 7, 4, 4, 4, 4, 4, 4, 4, 7, 4,
    4, 4, 4, 4, 4, 4, 7, 4, 4, 4, 4, 4, 4, 4, 7, 4,
    4, 4, 4, 4, 4, 4, 7, 4, 4, 4, 4, 4, 4, 4, 7, 4,
    4, 4, 4, 4, 4, 4, 7, 4, 4, 4, 4, 4, 4, 4, 7, 4,
    11, 10, 10, 10, 17, 11, 7, 11, 11, 10, 10, 10, 10, 17, 7, 11,
    11, 10, 10, 10, 17, 11, 7, 11, 11, 10, 10, 10, 10, 17, 7, 11,
    11, 10, 10, 18, 17, 11, 7, 11, 11, 5, 10, 5, 17, 17, 7, 11,
    11, 10, 10, 4, 17, 11, 7, 11, 11, 5, 10, 4, 17, 17, 7, 11,
];

/// What `IN` and `OUT` cost, whatever the table holds for them.
pub const PORT_CYCLES: u8 = 3;

/// The opcode of `OUT`.
pub const OUT: u8 = 0xd3;

/// The opcode of `IN`.
pub const IN: u8 = 0xdb;

/// The first byte of an instruction.
#[derive(Debug, Clone, Copy, Hash, PartialEq, Eq, PartialOrd, Ord, Structural)]
pub struct Opcode(pub u8);

impl Opcode {
    /// The number of cycles that the byte `code` costs.
    pub open spec fn cycles_of(code: u8) -> u8 {
        if code == OUT || code == IN {
            PORT_CYCLES
        } else {
            CYCLES[code as int]
        }
    }

    /// The length in bytes of the instruction that starts with `code`: the opcode
    /// and its operand. The byte 0xcb counts for one byte, though it is executed as
    /// a `JMP`; a jump never has the program counter moved on by its length.
    pub open spec fn size_of(code: u8) -> u8 {
        if code == 0xcb {
            1
        } else {
            (1 + Instruction::of(code).operand_len()) as u8
        }
    }

    /// Every instruction costs at least 3 and at most 18 cycles.
    pub proof fn lemma_cycles_bounds(code: u8)
        ensures
            3 <= Self::cycles_of(code) <= 18,
    {
        assert forall|i: int| 0 <= i < 256 implies 4 <= #[trigger] CYCLES[i] <= 18 by {
            if i < 64 {
            } else if i < 128 {
            } else if i < 192 {
            } else {
            }
        }
    }

    /// Every instruction takes time.
    pub proof fn lemma_cycles_positive(code: u8)
        ensures
            Self::cycles_of(code) > 0,
    {
        Self::lemma_cycles_bounds(code);
    }

    /// The length of the instruction in bytes: 1, 2 or 3.
    pub fn size(&self) -> (size: u8)
        ensures
            size == Self::size_of(self.0),
            1 <= size <= 3,
    {
        proof {
            crate::bits::lemma_fields(self.0);
        }
        match self.0 {
            0x01 | 0x11 | 0x21 | 0x22 | 0x2a | 0x31 | 0x32 | 0x3a | 0xc2 | 0xc3 | 0xc4 | 0xca | 0xcc
            | 0xcd | 0xd2 | 0xd4 | 0xda | 0xdc | 0xe2 | 0xe4 | 0xea | 0xec | 0xf2 | 0xf4 | 0xfa
            | 0xfc | 0xdd | 0xed | 0xfd => 3,
            0x06 | 0x0e | 0x16 | 0x1e | 0x26 | 0x2e | 0x36 | 0x3e | 0xc6 | 0xce | 0xd3 | 0xde | 0xd6
            | 0xdb | 0xe6 | 0xee | 0xf6 | 0xfe => 2,
            _ => 1,
        }
    }

    /// The number of cycles that the instruction costs.
    pub fn cycle_size(&self) -> (cycles: u8)
        ensures
            cycles == Self::cycles_of(self.0),
            3 <= cycles <= 18,
    {
        proof {
            Self::lemma_cycles_bounds(self.0);
        }
        if self.0 == OUT || self.0 == IN {
            PORT_CYCLES
        } else {
            CYCLES[self.0 as usize]
        }
    }

    /// The instruction that the byte stands for.
    pub fn decode(&self) -> (instruction: Instruction)
        ensures
            instruction == Instruction::of(self.0),
    {
        let code: u8 = self.0;
        proof {
            crate::bits::lemma_fields(code);
            crate::bits::lemma_fields(code >> 3);
        }
        match code {
            0x00 | 0x08 | 0x10 | 0x18 | 0x20 | 0x28 | 0x30 | 0x38 => Instruction::Nop,
            0x01 => Instruction::Lxi(Pair::BC),
            0x11 => Instruction::Lxi(Pair::DE),
            0x21 => Instruction::Lxi(Pair::HL),
            0x31 => Instruction::Lxi(Pair::SP),
            0x02 => Instruction::Stax(Pair::BC),
            0x12 => Instruction::Stax(Pair::DE),
            0x03 => Instruction::Inx(Pair::BC),
            0x13 => Instruction::Inx(Pair::DE),
            0x23 => Instruction::Inx(Pair::HL),
            0x33 => Instruction::Inx(Pair::SP),
            0x04 | 0x0c | 0x14 | 0x1c | 0x24 | 0x2c | 0x34 | 0x3c => Instruction::Inr(
                Reg::from_field(code >> 3),
            ),
            0x05 | 0x0d | 0x15 | 0x1d | 0x25 | 0x2d | 0x35 | 0x3d => Instruction::Dcr(
                Reg::from_field(code >> 3),
            ),
            0x06 | 0x0e | 0x16 | 0x1e | 0x26 | 0x2e | 0x36 | 0x3e => Instruction::Mvi(
                Reg::from_field(code >> 3),
            ),
            0x07 => Instruction::Rlc,
            0x09 => Instruction::Dad(Pair::BC),
            0x19 => Instruction::Dad(Pair::DE),
            0x29 => Instruction::Dad(Pair::HL),
            0x39 => Instruction::Dad(Pair::SP),
            0x0a => Instruction::Ldax(Pair::BC),
            0x1a => Instruction::Ldax(Pair::DE),
            0x0b => Instruction::Dcx(Pair::BC),
            0x1b => Instruction::Dcx(Pair::DE),
            0x2b => Instruction::Dcx(Pair::HL),
            0x3b => Instruction::Dcx(Pair::SP),
            0x0f => Instruction::Rrc,
            0x17 => Instruction::Ral,
            0x1f => Instruction::Rar,
            0x22 => Instruction::Shld,
            0x27 => Instruction::Daa,
            0x2a => Instruction::Lhld,
            0x2f => Instruction::Cma,
            0x32 => Instruction::Sta,
            0x3a => Instruction::Lda,
            0x37 => Instruction::Stc,
            0x3f => Instruction::Cmc,
            0x40..=0x75 | 0x77..=0x7f => Instruction::Mov(
                Reg::from_field(code >> 3),
                Reg::from_field(code),
            ),
            0x76 => Instruction::Hlt,
            0x80..=0xbf => Instruction::Alu(AluOp::from_field(code >> 3), Reg::from_field(code)),
            0xc0 => Instruction::ReturnIf(Condition::NotZero),
            0xc8 => Instruction::ReturnIf(Condition::Zero),
            0xd0 => Instruction::ReturnIf(Condition::NoCarry),
            0xd8 => Instruction::ReturnIf(Condition::Carry),
            0xe0 => Instruction::ReturnIf(Condition::ParityOdd),
            0xe8 => Instruction::ReturnIf(Condition::ParityEven),
            0xf0 => Instruction::ReturnIf(Condition::Plus),
            0xf8 => Instruction::ReturnIf(Condition::Minus),
            0xc1 => Instruction::Pop(StackPair::BC),
            0xd1 => Instruction::Pop(StackPair::DE),
            0xe1 => Instruction::Pop(StackPair::HL),
            0xf1 => Instruction::Pop(StackPair::PSW),
            0xc2 => Instruction::JumpIf(Condition::NotZero),
            0xca => Instruction::JumpIf(Condition::Zero),
            0xd2 => Instruction::JumpIf(Condition::NoCarry),
            0xda => Instruction::JumpIf(Condition::Carry),
            0xe2 => Instruction::JumpIf(Condition::ParityOdd),
            0xea => Instruction::JumpIf(Condition::ParityEven),
            0xf2 => Instruction::JumpIf(Condition::Plus),
            0xfa => Instruction::JumpIf(Condition::Minus),
            0xc3 | 0xcb => Instruction::Jmp,
            0xc4 => Instruction::CallIf(Condition::NotZero),
            0xcc => Instruction::CallIf(Condition::Zero),
            0xd4 => Instruction::CallIf(Condition::NoCarry),
            0xdc => Instruction::CallIf(Condition::Carry),
            0xe4 => Instruction::CallIf(Condition::ParityOdd),
            0xec => Instruction::CallIf(Condition::ParityEven),
            0xf4 => Instruction::CallIf(Condition::Plus),
            0xfc => Instruction::CallIf(Condition::Minus),
            0xc5 => Instruction::Push(StackPair::BC),
            0xd5 => Instruction::Push(StackPair::DE),
            0xe5 => Instruction::Push(StackPair::HL),
            0xf5 => Instruction::Push(StackPair::PSW),
            0xc6 | 0xce | 0xd6 | 0xde | 0xe6 | 0xee | 0xf6 | 0xfe => Instruction::AluImmediate(
                AluOp::from_field(code >> 3),
            ),
            0xc7 | 0xcf | 0xd7 | 0xdf | 0xe7 | 0xef | 0xf7 | 0xff => Instruction::Rst(
                (code >> 3) & 0x07,
            ),
            0xc9 | 0xd9 => Instruction::Ret,
            0xcd | 0xdd | 0xed | 0xfd => Instruction::Call,
            0xd3 => Instruction::Out,
            0xdb => Instruction::In,
            0xe3 => Instruction::Xthl,
            0xe9 => Instruction::Pchl,
            0xeb => Instruction::Xchg,
            0xf3 => Instruction::Di,
            0xf9 => Instruction::Sphl,
            0xfb => Instruction::Ei,
        }
    }
}

impl From<u8> for Opcode {
    fn from(new: u8) -> (opcode: Opcode)
    {
        Opcode(new)
    }
}

impl vstd::std_specs::convert::FromSpecImpl<u8> for Opcode {
    open spec fn obeys_from_spec() -> bool {
        true
    }

    open spec fn from_spec(new: u8) -> Opcode {
        Opcode(new)
    }
}

impl core::ops::Deref for Opcode {
    type Target = u8;

    fn deref(&self) -> (code: &u8)
        ensures
            *code == self.0,
    {
        &self.0
    }
}

impl core::ops::DerefMut for Opcode {
    fn deref_mut(&mut self) -> (code: &mut u8)
        ensures
            *code == old(self).0,
            final(self).0 == *final(code),
    {
        &mut self.0
    }
}

} // verus!
