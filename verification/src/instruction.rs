//! The instruction set as typed values, and how an opcode byte is read as one.
//!
//! An opcode byte is made of three fields, `xx yyy zzz`. The first selects one of four
//! groups; in most instructions the other two name a register, a register pair, a
//! condition or an arithmetic operation. Every byte stands for an instruction: the
//! twelve bytes that the processor documents none for are twins of `NOP`, `JMP`,
//! `RET` and `CALL`, as the processor executes them.

use vstd::prelude::*;

verus! {

/// An 8-bit operand: one of the seven registers, or `M`, the memory cell that the
/// pair `HL` addresses.
#[derive(Debug, Clone, Copy, PartialEq, Eq, Structural)]
pub enum Reg {
    B,
    C,
    D,
    E,
    H,
    L,
    M,
    A,
}

/// A 16-bit operand of `LXI`, `DAD`, `INX` and `DCX`, and of `STAX` and `LDAX`.
#[derive(Debug, Clone, Copy, PartialEq, Eq, Structural)]
pub enum Pair {
    BC,
    DE,
    HL,
    SP,
}

/// A 16-bit operand of `PUSH` and `POP`; `PSW` is the accumulator with the flag byte.
#[derive(Debug, Clone, Copy, PartialEq, Eq, Structural)]
pub enum StackPair {
    BC,
    DE,
    HL,
    PSW,
}

/// What a conditional jump, call or return tests: one flag, set or clear.
#[derive(Debug, Clone, Copy, PartialEq, Eq, Structural)]
pub enum Condition {
    NotZero,
    Zero,
    NoCarry,
    Carry,
    ParityOdd,
    ParityEven,
    Plus,
    Minus,
}

/// The eight operations between the accumulator and an 8-bit operand.
#[derive(Debug, Clone, Copy, PartialEq, Eq, Structural)]
pub enum AluOp {
    Add,
    Adc,
    Sub,
    Sbb,
    Ana,
    Xra,
    Ora,
    Compare,
}

/// One instruction, without its immediate operand.
#[derive(Debug, Clone, Copy, PartialEq, Eq, Structural)]
pub enum Instruction {
    Nop,
    Lxi(Pair),
    Stax(Pair),
    Ldax(Pair),
    Shld,
    Lhld,
    Sta,
    Lda,
    Inx(Pair),
    Dcx(Pair),
    Inr(Reg),
    Dcr(Reg),
    Mvi(Reg),
    Dad(Pair),
    Rlc,
    Rrc,
    Ral,
    Rar,
    Daa,
    Cma,
    Stc,
    Cmc,
    Mov(Reg, Reg),
    Hlt,
    Alu(AluOp, Reg),
    AluImmediate(AluOp),
    ReturnIf(Condition),
    Ret,
    Pop(StackPair),
    JumpIf(Condition),
    Jmp,
    CallIf(Condition),
    Call,
    Push(StackPair),
    Rst(u8),
    Out,
    In,
    Xthl,
    Pchl,
    Xchg,
    Di,
    Ei,
    Sphl,
}

impl Reg {
    /// The operand that a three-bit field names.
    pub open spec fn of(field: int) -> Reg {
        if field == 0 {
            Reg::B
        } else if field == 1 {
            Reg::C
        } else if field == 2 {
            Reg::D
        } else if field == 3 {
            Reg::E
        } else if field == 4 {
            Reg::H
        } else if field == 5 {
            Reg::L
        } else if field == 6 {
            Reg::M
        } else {
            Reg::A
        }
    }

    /// The operand that the low three bits of `field` name.
    pub fn from_field(field: u8) -> (reg: Reg)
        ensures
            reg == Reg::of(field as int % 8),
    {
        proof {
            crate::bits::lemma_fields(field);
        }
        match field & 0x07 {
            0 => Reg::B,
            1 => Reg::C,
            2 => Reg::D,
            3 => Reg::E,
            4 => Reg::H,
            5 => Reg::L,
            6 => Reg::M,
            _ => Reg::A,
        }
    }
}

impl Pair {
    /// The pair that a two-bit field names.
    pub open spec fn of(field: int) -> Pair {
        if field == 0 {
            Pair::BC
        } else if field == 1 {
            Pair::DE
        } else if field == 2 {
            Pair::HL
        } else {
            Pair::SP
        }
    }
}

impl StackPair {
    /// The pair that a two-bit field names.
    pub open spec fn of(field: int) -> StackPair {
        if field == 0 {
            StackPair::BC
        } else if field == 1 {
            StackPair::DE
        } else if field == 2 {
            StackPair::HL
        } else {
            StackPair::PSW
        }
    }
}

impl Condition {
    /// The condition that a three-bit field names.
    pub open spec fn of(field: int) -> Condition {
        if field == 0 {
            Condition::NotZero
        } else if field == 1 {
            Condition::Zero
        } else if field == 2 {
            Condition::NoCarry
        } else if field == 3 {
            Condition::Carry
        } else if field == 4 {
            Condition::ParityOdd
        } else if field == 5 {
            Condition::ParityEven
        } else if field == 6 {
            Condition::Plus
        } else {
            Condition::Minus
        }
    }
}

impl AluOp {
    /// The operation that a three-bit field names.
    pub open spec fn of(field: int) -> AluOp {
        if field == 0 {
            AluOp::Add
        } else if field == 1 {
            AluOp::Adc
        } else if field == 2 {
            AluOp::Sub
        } else if field == 3 {
            AluOp::Sbb
        } else if field == 4 {
            AluOp::Ana
        } else if field == 5 {
            AluOp::Xra
        } else if field == 6 {
            AluOp::Ora
        } else {
            AluOp::Compare
        }
    }

    /// The operation that the low three bits of `field` name.
    pub fn from_field(field: u8) -> (op: AluOp)
        ensures
            op == AluOp::of(field as int % 8),
    {
        proof {
            crate::bits::lemma_fields(field);
        }
        match field & 0x07 {
            0 => AluOp::Add,
            1 => AluOp::Adc,
            2 => AluOp::Sub,
            3 => AluOp::Sbb,
            4 => AluOp::Ana,
            5 => AluOp::Xra,
            6 => AluOp::Ora,
            _ => AluOp::Compare,
        }
    }
}

impl Instruction {
    /// The instruction of the first group, `00 yyy zzz`.
    pub open spec fn of_group_0(y: int, z: int) -> Instruction {
        if z == 0 {
            Instruction::Nop
        } else if z == 1 {
            if y % 2 == 0 {
                Instruction::Lxi(Pair::of(y / 2))
            } else {
                Instruction::Dad(Pair::of(y / 2))
            }
        } else if z == 2 {
            if y == 0 || y == 2 {
                Instruction::Stax(Pair::of(y / 2))
            } else if y == 1 || y == 3 {
                Instruction::Ldax(Pair::of(y / 2))
            } else if y == 4 {
                Instruction::Shld
            } else if y == 5 {
                Instruction::Lhld
            } else if y == 6 {
                Instruction::Sta
            } else {
                Instruction::Lda
            }
        } else if z == 3 {
            if y % 2 == 0 {
                Instruction::Inx(Pair::of(y / 2))
            } else {
                Instruction::Dcx(Pair::of(y / 2))
            }
        } else if z == 4 {
            Instruction::Inr(Reg::of(y))
        } else if z == 5 {
            Instruction::Dcr(Reg::of(y))
        } else if z == 6 {
            Instruction::Mvi(Reg::of(y))
        } else if y == 0 {
            Instruction::Rlc
        } else if y == 1 {
            Instruction::Rrc
        } else if y == 2 {
            Instruction::Ral
        } else if y == 3 {
            Instruction::Rar
        } else if y == 4 {
            Instruction::Daa
        } else if y == 5 {
            Instruction::Cma
        } else if y == 6 {
            Instruction::Stc
        } else {
            Instruction::Cmc
        }
    }

    /// The instruction of the last group, `11 yyy zzz`.
    pub open spec fn of_group_3(y: int, z: int) -> Instruction {
        if z == 0 {
            Instruction::ReturnIf(Condition::of(y))
        } else if z == 1 {
            if y % 2 == 0 {
                Instruction::Pop(StackPair::of(y / 2))
            } else if y == 1 || y == 3 {
                Instruction::Ret
            } else if y == 5 {
                Instruction::Pchl
            } else {
                Instruction::Sphl
            }
        } else if z == 2 {
            Instruction::JumpIf(Condition::of(y))
        } else if z == 3 {
            if y == 0 || y == 1 {
                Instruction::Jmp
            } else if y == 2 {
                Instruction::Out
            } else if y == 3 {
                Instruction::In
            } else if y == 4 {
                Instruction::Xthl
            } else if y == 5 {
                Instruction::Xchg
            } else if y == 6 {
                Instruction::Di
            } else {
                Instruction::Ei
            }
        } else if z == 4 {
            Instruction::CallIf(Condition::of(y))
        } else if z == 5 {
            if y % 2 == 0 {
                Instruction::Push(StackPair::of(y / 2))
            } else {
                Instruction::Call
            }
        } else if z == 6 {
            Instruction::AluImmediate(AluOp::of(y))
        } else {
            Instruction::Rst(y as u8)
        }
    }

    /// The instruction that an opcode byte stands for.
    pub open spec fn of(code: u8) -> Instruction {
        let x: int = code as int / 64;
        let y: int = (code as int / 8) % 8;
        let z: int = code as int % 8;
        if x == 0 {
            Self::of_group_0(y, z)
        } else if x == 1 {
            if y == 6 && z == 6 {
                Instruction::Hlt
            } else {
                Instruction::Mov(Reg::of(y), Reg::of(z))
            }
        } else if x == 2 {
            Instruction::Alu(AluOp::of(y), Reg::of(z))
        } else {
            Self::of_group_3(y, z)
        }
    }

    /// How many bytes of immediate operand follow the opcode byte.
    pub open spec fn operand_len(self) -> int {
        match self {
            Instruction::Lxi(_)
            | Instruction::Shld
            | Instruction::Lhld
            | Instruction::Sta
            | Instruction::Lda
            | Instruction::JumpIf(_)
            | Instruction::Jmp
            | Instruction::CallIf(_)
            | Instruction::Call => 2,
            Instruction::Mvi(_)
            | Instruction::AluImmediate(_)
            | Instruction::In
            | Instruction::Out => 1,
            _ => 0,
        }
    }

    /// The data transfer group.
    pub open spec fn is_transfer(self) -> bool {
        self is Mov || self is Mvi || self is Lxi || self is Ldax || self is Stax || self is Shld
            || self is Lhld || self is Lda || self is Sta || self is Sphl || self is Pchl
            || self is Xchg || self is Xthl
    }

    /// The group of the operations on the accumulator, the increments and decrements,
    /// the 16-bit addition and the decimal adjustment.
    pub open spec fn is_arithmetic(self) -> bool {
        self is Alu || self is AluImmediate || self is Inr || self is Dcr || self is Inx
            || self is Dcx || self is Dad || self is Daa
    }

    /// The rotates, the complement and the carry switches.
    pub open spec fn is_rotate(self) -> bool {
        self is Rlc || self is Rrc || self is Ral || self is Rar || self is Cma || self is Stc
            || self is Cmc
    }

    /// The branch group.
    pub open spec fn is_branch(self) -> bool {
        self is JumpIf || self is Jmp || self is CallIf || self is Call || self is ReturnIf
            || self is Ret || self is Rst
    }

    /// The stack and machine control group, without the two port instructions.
    pub open spec fn is_control(self) -> bool {
        self is Push || self is Pop || self is Ei || self is Di || self is Nop
    }

    /// Whether a step stops at this instruction instead of executing it.
    pub open spec fn stops(self) -> bool {
        self == Instruction::Hlt
    }
}

} // verus!
