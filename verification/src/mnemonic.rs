//! The names of the instructions, for a listing of the program.
//!
//! A name is spelled from the mnemonic of the instruction and the names of its
//! operands. A byte that the processor documents no instruction for has its value in
//! hexadecimal for a name, though it is executed as the twin of a documented one.

use vstd::prelude::*;
use crate::instruction::{AluOp, Condition, Instruction, Pair, Reg, StackPair};
use crate::opcode::Opcode;

verus! {

/// The decimal digit for a number below ten.
pub open spec fn digit(number: int) -> char {
    (number + 48) as char
}

/// The lower-case hexadecimal digit for a number below sixteen.
pub open spec fn hex_digit(nibble: int) -> char {
    if nibble < 10 {
        (nibble + 48) as char
    } else {
        (nibble + 87) as char
    }
}

impl Reg {
    /// A register goes by its letter.
    pub open spec fn name(self) -> Seq<char> {
        match self {
            Reg::B => "B"@,
            Reg::C => "C"@,
            Reg::D => "D"@,
            Reg::E => "E"@,
            Reg::H => "H"@,
            Reg::L => "L"@,
            Reg::M => "M"@,
            Reg::A => "A"@,
        }
    }
}

impl Pair {
    /// A pair goes by its first register.
    pub open spec fn name(self) -> Seq<char> {
        match self {
            Pair::BC => "B"@,
            Pair::DE => "D"@,
            Pair::HL => "H"@,
            Pair::SP => "SP"@,
        }
    }
}

impl StackPair {
    /// A pair goes by its first register.
    pub open spec fn name(self) -> Seq<char> {
        match self {
            StackPair::BC => "B"@,
            StackPair::DE => "D"@,
            StackPair::HL => "H"@,
            StackPair::PSW => "PSW"@,
        }
    }
}

impl Condition {
    /// The letters that a condition adds to `J`, `C` and `R`.
    pub open spec fn name(self) -> Seq<char> {
        match self {
            Condition::NotZero => "NZ"@,
            Condition::Zero => "Z"@,
            Condition::NoCarry => "NC"@,
            Condition::Carry => "C"@,
            Condition::ParityOdd => "PO"@,
            Condition::ParityEven => "PE"@,
            Condition::Plus => "P"@,
            Condition::Minus => "M"@,
        }
    }
}

impl AluOp {
    /// The mnemonic of the operation on a register or `M`.
    pub open spec fn name(self) -> Seq<char> {
        match self {
            AluOp::Add => "ADD"@,
            AluOp::Adc => "ADC"@,
            AluOp::Sub => "SUB"@,
            AluOp::Sbb => "SBB"@,
            AluOp::Ana => "ANA"@,
            AluOp::Xra => "XRA"@,
            AluOp::Ora => "ORA"@,
            AluOp::Compare => "CMP"@,
        }
    }

    /// The mnemonic of the operation on the byte after the opcode.
    pub open spec fn immediate_name(self) -> Seq<char> {
        match self {
            AluOp::Add => "ADI"@,
            AluOp::Adc => "ACI"@,
            AluOp::Sub => "SUI"@,
            AluOp::Sbb => "SBI"@,
            AluOp::Ana => "ANI"@,
            AluOp::Xra => "XRI"@,
            AluOp::Ora => "ORI"@,
            AluOp::Compare => "CPI"@,
        }
    }
}

impl Instruction {
    /// The name of the instruction with its operands.
    pub open spec fn name(self) -> Seq<char> {
        match self {
            Instruction::Nop => "NOP"@,
            Instruction::Lxi(pair) => "LXI "@ + pair.name(),
            Instruction::Stax(pair) => "STAX "@ + pair.name(),
            Instruction::Ldax(pair) => "LDAX "@ + pair.name(),
            Instruction::Shld => "SHLD"@,
            Instruction::Lhld => "LHLD"@,
            Instruction::Sta => "STA"@,
            Instruction::Lda => "LDA"@,
            Instruction::Inx(pair) => "INX "@ + pair.name(),
            Instruction::Dcx(pair) => "DCX "@ + pair.name(),
            Instruction::Inr(reg) => "INR "@ + reg.name(),
            Instruction::Dcr(reg) => "DCR "@ + reg.name(),
            Instruction::Mvi(reg) => "MVI "@ + reg.name(),
            Instruction::Dad(pair) => "DAD "@ + pair.name(),
            Instruction::Rlc => "RLC"@,
            Instruction::Rrc => "RRC"@,
            Instruction::Ral => "RAL"@,
            Instruction::Rar => "RAR"@,
            Instruction::Daa => "DAA"@,
            Instruction::Cma => "CMA"@,
            Instruction::Stc => "STC"@,
            Instruction::Cmc => "CMC"@,
            Instruction::Mov(dst, src) => "MOV "@ + dst.name() + ", "@ + src.name(),
            Instruction::Hlt => "HLT"@,
            Instruction::Alu(op, src) => op.name() + " "@ + src.name(),
            Instruction::AluImmediate(op) => op.immediate_name(),
            Instruction::ReturnIf(condition) => "R"@ + condition.name(),
            Instruction::Ret => "RET"@,
            Instruction::Pop(pair) => "POP "@ + pair.name(),
            Instruction::JumpIf(condition) => "J"@ + condition.name(),
            Instruction::Jmp => "JMP"@,
            Instruction::CallIf(condition) => "C"@ + condition.name(),
            Instruction::Call => "CALL"@,
            Instruction::Push(pair) => "PUSH "@ + pair.name(),
            Instruction::Rst(number) => "RST "@ + seq![digit(number as int)],
            Instruction::Out => "OUT"@,
            Instruction::In => "IN"@,
            Instruction::Xthl => "XTHL"@,
            Instruction::Pchl => "PCHL"@,
            Instruction::Xchg => "XCHG"@,
            Instruction::Di => "DI"@,
            Instruction::Ei => "EI"@,
            Instruction::Sphl => "SPHL"@,
        }
    }
}

impl Opcode {
    /// Whether the processor documents no instruction for the byte `code`: the seven
    /// bytes beside `NOP` in its column, and five bytes of the last group.
    pub open spec fn undocumented(code: u8) -> bool {
        ||| code / 64 == 0 && code % 8 == 0 && code != 0
        ||| code == 0xcb
        ||| code == 0xd9
        ||| code == 0xdd
        ||| code == 0xed
        ||| code == 0xfd
    }

    /// The byte `code` in hexadecimal: `0x` and two digits.
    pub open spec fn hex_name(code: u8) -> Seq<char> {
        "0x"@ + seq![hex_digit(code as int / 16), hex_digit(code as int % 16)]
    }

    /// The name of the byte `code`.
    pub open spec fn name_of(code: u8) -> Seq<char> {
        if Self::undocumented(code) {
            Self::hex_name(code)
        } else {
            Instruction::of(code).name()
        }
    }

    /// The name of the instruction that the byte stands for.
    pub fn mnemonic(&self) -> (name: &'static str)
        ensures
            name@ == Self::name_of(self.0),
    {
        if self.0 < 0x40 {
            name_below_40(self.0)
        } else if self.0 < 0x80 {
            name_below_80(self.0)
        } else if self.0 < 0xc0 {
            name_below_c0(self.0)
        } else {
            name_from_c0(self.0)
        }
    }
}

/// The names of the first group: the loads, the stores, the increments and the rotates.
fn name_below_40(code: u8) -> (name: &'static str)
    requires
        code < 0x40,
    ensures
        name@ == Opcode::name_of(code),
{
    proof {
        reveal_strlit("0x");
        reveal_strlit("A");
        reveal_strlit("B");
        reveal_strlit("C");
        reveal_strlit("CMA");
        reveal_strlit("CMC");
        reveal_strlit("D");
        reveal_strlit("DAA");
        reveal_strlit("DAD ");
        reveal_strlit("DCR ");
        reveal_strlit("DCX ");
        reveal_strlit("E");
        reveal_strlit("H");
        reveal_strlit("INR ");
        reveal_strlit("INX ");
        reveal_strlit("L");
        reveal_strlit("LDA");
        reveal_strlit("LDAX ");
        reveal_strlit("LHLD");
        reveal_strlit("LXI ");
        reveal_strlit("M");
        reveal_strlit("MVI ");
        reveal_strlit("NOP");
        reveal_strlit("RAL");
        reveal_strlit("RAR");
        reveal_strlit("RLC");
        reveal_strlit("RRC");
        reveal_strlit("SHLD");
        reveal_strlit("SP");
        reveal_strlit("STA");
        reveal_strlit("STAX ");
        reveal_strlit("STC");
    }
    match code {
        0x00 => {
            "NOP"
        },
        0x01 => {
            proof {
                reveal_strlit("LXI B");
                assert("LXI B"@ =~= "LXI "@ + "B"@);
            }
            "LXI B"
        },
        0x02 => {
            proof {
                reveal_strlit("STAX B");
                assert("STAX B"@ =~= "STAX "@ + "B"@);
            }
            "STAX B"
        },
        0x03 => {
            proof {
                reveal_strlit("INX B");
                assert("INX B"@ =~= "INX "@ + "B"@);
            }
            "INX B"
        },
        0x04 => {
            proof {
                reveal_strlit("INR B");
                assert("INR B"@ =~= "INR "@ + "B"@);
            }
            "INR B"
        },
        0x05 => {
            proof {
                reveal_strlit("DCR B");
                assert("DCR B"@ =~= "DCR "@ + "B"@);
            }
            "DCR B"
        },
        0x06 => {
            proof {
                reveal_strlit("MVI B");
                assert("MVI B"@ =~= "MVI "@ + "B"@);
            }
            "MVI B"
        },
        0x07 => {
            "RLC"
        },
        0x08 => {
            proof {
                reveal_strlit("0x08");
                assert("0x08"@ =~= "0x"@ + seq![hex_digit(0), hex_digit(8)]);
            }
            "0x08"
        },
        0x09 => {
            proof {
                reveal_strlit("DAD B");
                assert("DAD B"@ =~= "DAD "@ + "B"@);
            }
            "DAD B"
        },
        0x0a => {
            proof {
                reveal_strlit("LDAX B");
                assert("LDAX B"@ =~= "LDAX "@ + "B"@);
            }
            "LDAX B"
        },
        0x0b => {
            proof {
                reveal_strlit("DCX B");
                assert("DCX B"@ =~= "DCX "@ + "B"@);
            }
            "DCX B"
        },
        0x0c => {
            proof {
                reveal_strlit("INR C");
                assert("INR C"@ =~= "INR "@ + "C"@);
            }
            "INR C"
        },
        0x0d => {
            proof {
                reveal_strlit("DCR C");
                assert("DCR C"@ =~= "DCR "@ + "C"@);
            }
            "DCR C"
        },
        0x0e => {
            proof {
                reveal_strlit("MVI C");
                assert("MVI C"@ =~= "MVI "@ + "C"@);
            }
            "MVI C"
        },
        0x0f => {
            "RRC"
        },
        0x10 => {
            proof {
                reveal_strlit("0x10");
                assert("0x10"@ =~= "0x"@ + seq![hex_digit(1), hex_digit(0)]);
            }
            "0x10"
        },
        0x11 => {
            proof {
                reveal_strlit("LXI D");
                assert("LXI D"@ =~= "LXI "@ + "D"@);
            }
            "LXI D"
        },
        0x12 => {
            proof {
                reveal_strlit("STAX D");
                assert("STAX D"@ =~= "STAX "@ + "D"@);
            }
            "STAX D"
        },
        0x13 => {
            proof {
                reveal_strlit("INX D");
                assert("INX D"@ =~= "INX "@ + "D"@);
            }
            "INX D"
        },
        0x14 => {
            proof {
                reveal_strlit("INR D");
                assert("INR D"@ =~= "INR "@ + "D"@);
            }
            "INR D"
        },
        0x15 => {
            proof {
                reveal_strlit("DCR D");
                assert("DCR D"@ =~= "DCR "@ + "D"@);
            }
            "DCR D"
        },
        0x16 => {
            proof {
                reveal_strlit("MVI D");
                assert("MVI D"@ =~= "MVI "@ + "D"@);
            }
            "MVI D"
        },
        0x17 => {
            "RAL"
        },
        0x18 => {
            proof {
                reveal_strlit("0x18");
                assert("0x18"@ =~= "0x"@ + seq![hex_digit(1), hex_digit(8)]);
            }
            "0x18"
        },
        0x19 => {
            proof {
                reveal_strlit("DAD D");
                assert("DAD D"@ =~= "DAD "@ + "D"@);
            }
            "DAD D"
        },
        0x1a => {
            proof {
                reveal_strlit("LDAX D");
                assert("LDAX D"@ =~= "LDAX "@ + "D"@);
            }
            "LDAX D"
        },
        0x1b => {
            proof {
                reveal_strlit("DCX D");
                assert("DCX D"@ =~= "DCX "@ + "D"@);
            }
            "DCX D"
        },
        0x1c => {
            proof {
                reveal_strlit("INR E");
                assert("INR E"@ =~= "INR "@ + "E"@);
            }
            "INR E"
        },
        0x1d => {
            proof {
                reveal_strlit("DCR E");
                assert("DCR E"@ =~= "DCR "@ + "E"@);
            }
            "DCR E"
        },
        0x1e => {
            proof {
                reveal_strlit("MVI E");
                assert("MVI E"@ =~= "MVI "@ + "E"@);
            }
            "MVI E"
        },
        0x1f => {
            "RAR"
        },
        0x20 => {
            proof {
                reveal_strlit("0x20");
                assert("0x20"@ =~= "0x"@ + seq![hex_digit(2), hex_digit(0)]);
            }
            "0x20"
        },
        0x21 => {
            proof {
                reveal_strlit("LXI H");
                assert("LXI H"@ =~= "LXI "@ + "H"@);
            }
            "LXI H"
        },
        0x22 => {
            "SHLD"
        },
        0x23 => {
            proof {
                reveal_strlit("INX H");
                assert("INX H"@ =~= "INX "@ + "H"@);
            }
            "INX H"
        },
        0x24 => {
            proof {
                reveal_strlit("INR H");
                assert("INR H"@ =~= "INR "@ + "H"@);
            }
            "INR H"
        },
        0x25 => {
            proof {
                reveal_strlit("DCR H");
                assert("DCR H"@ =~= "DCR "@ + "H"@);
            }
            "DCR H"
        },
        0x26 => {
            proof {
                reveal_strlit("MVI H");
                assert("MVI H"@ =~= "MVI "@ + "H"@);
            }
            "MVI H"
        },
        0x27 => {
            "DAA"
        },
        0x28 => {
            proof {
                reveal_strlit("0x28");
                assert("0x28"@ =~= "0x"@ + seq![hex_digit(2), hex_digit(8)]);
            }
            "0x28"
        },
        0x29 => {
            proof {
                reveal_strlit("DAD H");
                assert("DAD H"@ =~= "DAD "@ + "H"@);
            }
            "DAD H"
        },
        0x2a => {
            "LHLD"
        },
        0x2b => {
            proof {
                reveal_strlit("DCX H");
                assert("DCX H"@ =~= "DCX "@ + "H"@);
            }
            "DCX H"
        },
        0x2c => {
            proof {
                reveal_strlit("INR L");
                assert("INR L"@ =~= "INR "@ + "L"@);
            }
            "INR L"
        },
        0x2d => {
            proof {
                reveal_strlit("DCR L");
                assert("DCR L"@ =~= "DCR "@ + "L"@);
            }
            "DCR L"
        },
        0x2e => {
            proof {
                reveal_strlit("MVI L");
                assert("MVI L"@ =~= "MVI "@ + "L"@);
            }
            "MVI L"
        },
        0x2f => {
            "CMA"
        },
        0x30 => {
            proof {
                reveal_strlit("0x30");
                assert("0x30"@ =~= "0x"@ + seq![hex_digit(3), hex_digit(0)]);
            }
            "0x30"
        },
        0x31 => {
            proof {
                reveal_strlit("LXI SP");
                assert("LXI SP"@ =~= "LXI "@ + "SP"@);
            }
            "LXI SP"
        },
        0x32 => {
            "STA"
        },
        0x33 => {
            proof {
                reveal_strlit("INX SP");
                assert("INX SP"@ =~= "INX "@ + "SP"@);
            }
            "INX SP"
        },
        0x34 => {
            proof {
                reveal_strlit("INR M");
                assert("INR M"@ =~= "INR "@ + "M"@);
            }
            "INR M"
        },
        0x35 => {
            proof {
                reveal_strlit("DCR M");
                assert("DCR M"@ =~= "DCR "@ + "M"@);
            }
            "DCR M"
        },
        0x36 => {
            proof {
                reveal_strlit("MVI M");
                assert("MVI M"@ =~= "MVI "@ + "M"@);
            }
            "MVI M"
        },
        0x37 => {
            "STC"
        },
        0x38 => {
            proof {
                reveal_strlit("0x38");
                assert("0x38"@ =~= "0x"@ + seq![hex_digit(3), hex_digit(8)]);
            }
            "0x38"
        },
        0x39 => {
            proof {
                reveal_strlit("DAD SP");
                assert("DAD SP"@ =~= "DAD "@ + "SP"@);
            }
            "DAD SP"
        },
        0x3a => {
            "LDA"
        },
        0x3b => {
            proof {
                reveal_strlit("DCX SP");
                assert("DCX SP"@ =~= "DCX "@ + "SP"@);
            }
            "DCX SP"
        },
        0x3c => {
            proof {
                reveal_strlit("INR A");
                assert("INR A"@ =~= "INR "@ + "A"@);
            }
            "INR A"
        },
        0x3d => {
            proof {
                reveal_strlit("DCR A");
                assert("DCR A"@ =~= "DCR "@ + "A"@);
            }
            "DCR A"
        },
        0x3e => {
            proof {
                reveal_strlit("MVI A");
                assert("MVI A"@ =~= "MVI "@ + "A"@);
            }
            "MVI A"
        },
        _ => {
            "CMC"
        },
    }
}

/// The names of the moves.
fn name_below_80(code: u8) -> (name: &'static str)
    requires
        0x40 <= code,
        code < 0x80,
    ensures
        name@ == Opcode::name_of(code),
{
    proof {
        reveal_strlit(", ");
        reveal_strlit("A");
        reveal_strlit("B");
        reveal_strlit("C");
        reveal_strlit("D");
        reveal_strlit("E");
        reveal_strlit("H");
        reveal_strlit("HLT");
        reveal_strlit("L");
        reveal_strlit("M");
        reveal_strlit("MOV ");
    }
    match code {
        0x40 => {
            proof {
                reveal_strlit("MOV B, B");
                assert("MOV B, B"@ =~= "MOV "@ + "B"@ + ", "@ + "B"@);
            }
            "MOV B, B"
        },
        0x41 => {
            proof {
                reveal_strlit("MOV B, C");
                assert("MOV B, C"@ =~= "MOV "@ + "B"@ + ", "@ + "C"@);
            }
            "MOV B, C"
        },
        0x42 => {
            proof {
                reveal_strlit("MOV B, D");
                assert("MOV B, D"@ =~= "MOV "@ + "B"@ + ", "@ + "D"@);
            }
            "MOV B, D"
        },
        0x43 => {
            proof {
                reveal_strlit("MOV B, E");
                assert("MOV B, E"@ =~= "MOV "@ + "B"@ + ", "@ + "E"@);
            }
            "MOV B, E"
        },
        0x44 => {
            proof {
                reveal_strlit("MOV B, H");
                assert("MOV B, H"@ =~= "MOV "@ + "B"@ + ", "@ + "H"@);
            }
            "MOV B, H"
        },
        0x45 => {
            proof {
                reveal_strlit("MOV B, L");
                assert("MOV B, L"@ =~= "MOV "@ + "B"@ + ", "@ + "L"@);
            }
            "MOV B, L"
        },
        0x46 => {
            proof {
                reveal_strlit("MOV B, M");
                assert("MOV B, M"@ =~= "MOV "@ + "B"@ + ", "@ + "M"@);
            }
            "MOV B, M"
        },
        0x47 => {
            proof {
                reveal_strlit("MOV B, A");
                assert("MOV B, A"@ =~= "MOV "@ + "B"@ + ", "@ + "A"@);
            }
            "MOV B, A"
        },
        0x48 => {
            proof {
                reveal_strlit("MOV C, B");
                assert("MOV C, B"@ =~= "MOV "@ + "C"@ + ", "@ + "B"@);
            }
            "MOV C, B"
        },
        0x49 => {
            proof {
                reveal_strlit("MOV C, C");
                assert("MOV C, C"@ =~= "MOV "@ + "C"@ + ", "@ + "C"@);
            }
            "MOV C, C"
        },
        0x4a => {
            proof {
                reveal_strlit("MOV C, D");
                assert("MOV C, D"@ =~= "MOV "@ + "C"@ + ", "@ + "D"@);
            }
            "MOV C, D"
        },
        0x4b => {
            proof {
                reveal_strlit("MOV C, E");
                assert("MOV C, E"@ =~= "MOV "@ + "C"@ + ", "@ + "E"@);
            }
            "MOV C, E"
        },
        0x4c => {
            proof {
                reveal_strlit("MOV C, H");
                assert("MOV C, H"@ =~= "MOV "@ + "C"@ + ", "@ + "H"@);
            }
            "MOV C, H"
        },
        0x4d => {
            proof {
                reveal_strlit("MOV C, L");
                assert("MOV C, L"@ =~= "MOV "@ + "C"@ + ", "@ + "L"@);
            }
            "MOV C, L"
        },
        0x4e => {
            proof {
                reveal_strlit("MOV C, M");
                assert("MOV C, M"@ =~= "MOV "@ + "C"@ + ", "@ + "M"@);
            }
            "MOV C, M"
        },
        0x4f => {
            proof {
                reveal_strlit("MOV C, A");
                assert("MOV C, A"@ =~= "MOV "@ + "C"@ + ", "@ + "A"@);
            }
            "MOV C, A"
        },
        0x50 => {
            proof {
                reveal_strlit("MOV D, B");
                assert("MOV D, B"@ =~= "MOV "@ + "D"@ + ", "@ + "B"@);
            }
            "MOV D, B"
        },
        0x51 => {
            proof {
                reveal_strlit("MOV D, C");
                assert("MOV D, C"@ =~= "MOV "@ + "D"@ + ", "@ + "C"@);
            }
            "MOV D, C"
        },
        0x52 => {
            proof {
                reveal_strlit("MOV D, D");
                assert("MOV D, D"@ =~= "MOV "@ + "D"@ + ", "@ + "D"@);
            }
            "MOV D, D"
        },
        0x53 => {
            proof {
                reveal_strlit("MOV D, E");
                assert("MOV D, E"@ =~= "MOV "@ + "D"@ + ", "@ + "E"@);
            }
            "MOV D, E"
        },
        0x54 => {
            proof {
                reveal_strlit("MOV D, H");
                assert("MOV D, H"@ =~= "MOV "@ + "D"@ + ", "@ + "H"@);
            }
            "MOV D, H"
        },
        0x55 => {
            proof {
                reveal_strlit("MOV D, L");
                assert("MOV D, L"@ =~= "MOV "@ + "D"@ + ", "@ + "L"@);
            }
            "MOV D, L"
        },
        0x56 => {
            proof {
                reveal_strlit("MOV D, M");
                assert("MOV D, M"@ =~= "MOV "@ + "D"@ + ", "@ + "M"@);
            }
            "MOV D, M"
        },
        0x57 => {
            proof {
                reveal_strlit("MOV D, A");
                assert("MOV D, A"@ =~= "MOV "@ + "D"@ + ", "@ + "A"@);
            }
            "MOV D, A"
        },
        0x58 => {
            proof {
                reveal_strlit("MOV E, B");
                assert("MOV E, B"@ =~= "MOV "@ + "E"@ + ", "@ + "B"@);
            }
            "MOV E, B"
        },
        0x59 => {
            proof {
                reveal_strlit("MOV E, C");
                assert("MOV E, C"@ =~= "MOV "@ + "E"@ + ", "@ + "C"@);
            }
            "MOV E, C"
        },
        0x5a => {
            proof {
                reveal_strlit("MOV E, D");
                assert("MOV E, D"@ =~= "MOV "@ + "E"@ + ", "@ + "D"@);
            }
            "MOV E, D"
        },
        0x5b => {
            proof {
                reveal_strlit("MOV E, E");
                assert("MOV E, E"@ =~= "MOV "@ + "E"@ + ", "@ + "E"@);
            }
            "MOV E, E"
        },
        0x5c => {
            proof {
                reveal_strlit("MOV E, H");
                assert("MOV E, H"@ =~= "MOV "@ + "E"@ + ", "@ + "H"@);
            }
            "MOV E, H"
        },
        0x5d => {
            proof {
                reveal_strlit("MOV E, L");
                assert("MOV E, L"@ =~= "MOV "@ + "E"@ + ", "@ + "L"@);
            }
            "MOV E, L"
        },
        0x5e => {
            proof {
                reveal_strlit("MOV E, M");
                assert("MOV E, M"@ =~= "MOV "@ + "E"@ + ", "@ + "M"@);
            }
            "MOV E, M"
        },
        0x5f => {
            proof {
                reveal_strlit("MOV E, A");
                assert("MOV E, A"@ =~= "MOV "@ + "E"@ + ", "@ + "A"@);
            }
            "MOV E, A"
        },
        0x60 => {
            proof {
                reveal_strlit("MOV H, B");
                assert("MOV H, B"@ =~= "MOV "@ + "H"@ + ", "@ + "B"@);
            }
            "MOV H, B"
        },
        0x61 => {
            proof {
                reveal_strlit("MOV H, C");
                assert("MOV H, C"@ =~= "MOV "@ + "H"@ + ", "@ + "C"@);
            }
            "MOV H, C"
        },
        0x62 => {
            proof {
                reveal_strlit("MOV H, D");
                assert("MOV H, D"@ =~= "MOV "@ + "H"@ + ", "@ + "D"@);
            }
            "MOV H, D"
        },
        0x63 => {
            proof {
                reveal_strlit("MOV H, E");
                assert("MOV H, E"@ =~= "MOV "@ + "H"@ + ", "@ + "E"@);
            }
            "MOV H, E"
        },
        0x64 => {
            proof {
                reveal_strlit("MOV H, H");
                assert("MOV H, H"@ =~= "MOV "@ + "H"@ + ", "@ + "H"@);
            }
            "MOV H, H"
        },
        0x65 => {
            proof {
                reveal_strlit("MOV H, L");
                assert("MOV H, L"@ =~= "MOV "@ + "H"@ + ", "@ + "L"@);
            }
            "MOV H, L"
        },
        0x66 => {
            proof {
                reveal_strlit("MOV H, M");
                assert("MOV H, M"@ =~= "MOV "@ + "H"@ + ", "@ + "M"@);
            }
            "MOV H, M"
        },
        0x67 => {
            proof {
                reveal_strlit("MOV H, A");
                assert("MOV H, A"@ =~= "MOV "@ + "H"@ + ", "@ + "A"@);
            }
            "MOV H, A"
        },
        0x68 => {
            proof {
                reveal_strlit("MOV L, B");
                assert("MOV L, B"@ =~= "MOV "@ + "L"@ + ", "@ + "B"@);
            }
            "MOV L, B"
        },
        0x69 => {
            proof {
                reveal_strlit("MOV L, C");
                assert("MOV L, C"@ =~= "MOV "@ + "L"@ + ", "@ + "C"@);
            }
            "MOV L, C"
        },
        0x6a => {
            proof {
                reveal_strlit("MOV L, D");
                assert("MOV L, D"@ =~= "MOV "@ + "L"@ + ", "@ + "D"@);
            }
            "MOV L, D"
        },
        0x6b => {
            proof {
                reveal_strlit("MOV L, E");
                assert("MOV L, E"@ =~= "MOV "@ + "L"@ + ", "@ + "E"@);
            }
            "MOV L, E"
        },
        0x6c => {
            proof {
                reveal_strlit("MOV L, H");
                assert("MOV L, H"@ =~= "MOV "@ + "L"@ + ", "@ + "H"@);
            }
            "MOV L, H"
        },
        0x6d => {
            proof {
                reveal_strlit("MOV L, L");
                assert("MOV L, L"@ =~= "MOV "@ + "L"@ + ", "@ + "L"@);
            }
            "MOV L, L"
        },
        0x6e => {
            proof {
                reveal_strlit("MOV L, M");
                assert("MOV L, M"@ =~= "MOV "@ + "L"@ + ", "@ + "M"@);
            }
            "MOV L, M"
        },
        0x6f => {
            proof {
                reveal_strlit("MOV L, A");
                assert("MOV L, A"@ =~= "MOV "@ + "L"@ + ", "@ + "A"@);
            }
            "MOV L, A"
        },
        0x70 => {
            proof {
                reveal_strlit("MOV M, B");
                assert("MOV M, B"@ =~= "MOV "@ + "M"@ + ", "@ + "B"@);
            }
            "MOV M, B"
        },
        0x71 => {
            proof {
                reveal_strlit("MOV M, C");
                assert("MOV M, C"@ =~= "MOV "@ + "M"@ + ", "@ + "C"@);
            }
            "MOV M, C"
        },
        0x72 => {
            proof {
                reveal_strlit("MOV M, D");
                assert("MOV M, D"@ =~= "MOV "@ + "M"@ + ", "@ + "D"@);
            }
            "MOV M, D"
        },
        0x73 => {
            proof {
                reveal_strlit("MOV M, E");
                assert("MOV M, E"@ =~= "MOV "@ + "M"@ + ", "@ + "E"@);
            }
            "MOV M, E"
        },
        0x74 => {
            proof {
                reveal_strlit("MOV M, H");
                assert("MOV M, H"@ =~= "MOV "@ + "M"@ + ", "@ + "H"@);
            }
            "MOV M, H"
        },
        0x75 => {
            proof {
                reveal_strlit("MOV M, L");
                assert("MOV M, L"@ =~= "MOV "@ + "M"@ + ", "@ + "L"@);
            }
            "MOV M, L"
        },
        0x76 => {
            "HLT"
        },
        0x77 => {
            proof {
                reveal_strlit("MOV M, A");
                assert("MOV M, A"@ =~= "MOV "@ + "M"@ + ", "@ + "A"@);
            }
            "MOV M, A"
        },
        0x78 => {
            proof {
                reveal_strlit("MOV A, B");
                assert("MOV A, B"@ =~= "MOV "@ + "A"@ + ", "@ + "B"@);
            }
            "MOV A, B"
        },
        0x79 => {
            proof {
                reveal_strlit("MOV A, C");
                assert("MOV A, C"@ =~= "MOV "@ + "A"@ + ", "@ + "C"@);
            }
            "MOV A, C"
        },
        0x7a => {
            proof {
                reveal_strlit("MOV A, D");
                assert("MOV A, D"@ =~= "MOV "@ + "A"@ + ", "@ + "D"@);
            }
            "MOV A, D"
        },
        0x7b => {
            proof {
                reveal_strlit("MOV A, E");
                assert("MOV A, E"@ =~= "MOV "@ + "A"@ + ", "@ + "E"@);
            }
            "MOV A, E"
        },
        0x7c => {
            proof {
                reveal_strlit("MOV A, H");
                assert("MOV A, H"@ =~= "MOV "@ + "A"@ + ", "@ + "H"@);
            }
            "MOV A, H"
        },
        0x7d => {
            proof {
                reveal_strlit("MOV A, L");
                assert("MOV A, L"@ =~= "MOV "@ + "A"@ + ", "@ + "L"@);
            }
            "MOV A, L"
        },
        0x7e => {
            proof {
                reveal_strlit("MOV A, M");
                assert("MOV A, M"@ =~= "MOV "@ + "A"@ + ", "@ + "M"@);
            }
            "MOV A, M"
        },
        _ => {
            proof {
                reveal_strlit("MOV A, A");
                assert("MOV A, A"@ =~= "MOV "@ + "A"@ + ", "@ + "A"@);
            }
            "MOV A, A"
        },
    }
}

/// The names of the operations on the accumulator.
fn name_below_c0(code: u8) -> (name: &'static str)
    requires
        0x80 <= code,
        code < 0xc0,
    ensures
        name@ == Opcode::name_of(code),
{
    proof {
        reveal_strlit(" ");
        reveal_strlit("A");
        reveal_strlit("ADC");
        reveal_strlit("ADD");
        reveal_strlit("ANA");
        reveal_strlit("B");
        reveal_strlit("C");
        reveal_strlit("CMP");
        reveal_strlit("D");
        reveal_strlit("E");
        reveal_strlit("H");
        reveal_strlit("L");
        reveal_strlit("M");
        reveal_strlit("ORA");
        reveal_strlit("SBB");
        reveal_strlit("SUB");
        reveal_strlit("XRA");
    }
    match code {
        0x80 => {
            proof {
                reveal_strlit("ADD B");
                assert("ADD B"@ =~= "ADD"@ + " "@ + "B"@);
            }
            "ADD B"
        },
        0x81 => {
            proof {
                reveal_strlit("ADD C");
                assert("ADD C"@ =~= "ADD"@ + " "@ + "C"@);
            }
            "ADD C"
        },
        0x82 => {
            proof {
                reveal_strlit("ADD D");
                assert("ADD D"@ =~= "ADD"@ + " "@ + "D"@);
            }
            "ADD D"
        },
        0x83 => {
            proof {
                reveal_strlit("ADD E");
                assert("ADD E"@ =~= "ADD"@ + " "@ + "E"@);
            }
            "ADD E"
        },
        0x84 => {
            proof {
                reveal_strlit("ADD H");
                assert("ADD H"@ =~= "ADD"@ + " "@ + "H"@);
            }
            "ADD H"
        },
        0x85 => {
            proof {
                reveal_strlit("ADD L");
                assert("ADD L"@ =~= "ADD"@ + " "@ + "L"@);
            }
            "ADD L"
        },
        0x86 => {
            proof {
                reveal_strlit("ADD M");
                assert("ADD M"@ =~= "ADD"@ + " "@ + "M"@);
            }
            "ADD M"
        },
        0x87 => {
            proof {
                reveal_strlit("ADD A");
                assert("ADD A"@ =~= "ADD"@ + " "@ + "A"@);
            }
            "ADD A"
        },
        0x88 => {
            proof {
                reveal_strlit("ADC B");
                assert("ADC B"@ =~= "ADC"@ + " "@ + "B"@);
            }
            "ADC B"
        },
        0x89 => {
            proof {
                reveal_strlit("ADC C");
                assert("ADC C"@ =~= "ADC"@ + " "@ + "C"@);
            }
            "ADC C"
        },
        0x8a => {
            proof {
                reveal_strlit("ADC D");
                assert("ADC D"@ =~= "ADC"@ + " "@ + "D"@);
            }
            "ADC D"
        },
        0x8b => {
            proof {
                reveal_strlit("ADC E");
                assert("ADC E"@ =~= "ADC"@ + " "@ + "E"@);
            }
            "ADC E"
        },
        0x8c => {
            proof {
                reveal_strlit("ADC H");
                assert("ADC H"@ =~= "ADC"@ + " "@ + "H"@);
            }
            "ADC H"
        },
        0x8d => {
            proof {
                reveal_strlit("ADC L");
                assert("ADC L"@ =~= "ADC"@ + " "@ + "L"@);
            }
            "ADC L"
        },
        0x8e => {
            proof {
                reveal_strlit("ADC M");
                assert("ADC M"@ =~= "ADC"@ + " "@ + "M"@);
            }
            "ADC M"
        },
        0x8f => {
            proof {
                reveal_strlit("ADC A");
                assert("ADC A"@ =~= "ADC"@ + " "@ + "A"@);
            }
            "ADC A"
        },
        0x90 => {
            proof {
                reveal_strlit("SUB B");
                assert("SUB B"@ =~= "SUB"@ + " "@ + "B"@);
            }
            "SUB B"
        },
        0x91 => {
            proof {
                reveal_strlit("SUB C");
                assert("SUB C"@ =~= "SUB"@ + " "@ + "C"@);
            }
            "SUB C"
        },
        0x92 => {
            proof {
                reveal_strlit("SUB D");
                assert("SUB D"@ =~= "SUB"@ + " "@ + "D"@);
            }
            "SUB D"
        },
        0x93 => {
            proof {
                reveal_strlit("SUB E");
                assert("SUB E"@ =~= "SUB"@ + " "@ + "E"@);
            }
            "SUB E"
        },
        0x94 => {
            proof {
                reveal_strlit("SUB H");
                assert("SUB H"@ =~= "SUB"@ + " "@ + "H"@);
            }
            "SUB H"
        },
        0x95 => {
            proof {
                reveal_strlit("SUB L");
                assert("SUB L"@ =~= "SUB"@ + " "@ + "L"@);
            }
            "SUB L"
        },
        0x96 => {
            proof {
                reveal_strlit("SUB M");
                assert("SUB M"@ =~= "SUB"@ + " "@ + "M"@);
            }
            "SUB M"
        },
        0x97 => {
            proof {
                reveal_strlit("SUB A");
                assert("SUB A"@ =~= "SUB"@ + " "@ + "A"@);
            }
            "SUB A"
        },
        0x98 => {
            proof {
                reveal_strlit("SBB B");
                assert("SBB B"@ =~= "SBB"@ + " "@ + "B"@);
            }
            "SBB B"
        },
        0x99 => {
            proof {
                reveal_strlit("SBB C");
                assert("SBB C"@ =~= "SBB"@ + " "@ + "C"@);
            }
            "SBB C"
        },
        0x9a => {
            proof {
                reveal_strlit("SBB D");
                assert("SBB D"@ =~= "SBB"@ + " "@ + "D"@);
            }
            "SBB D"
        },
        0x9b => {
            proof {
                reveal_strlit("SBB E");
                assert("SBB E"@ =~= "SBB"@ + " "@ + "E"@);
            }
            "SBB E"
        },
        0x9c => {
            proof {
                reveal_strlit("SBB H");
                assert("SBB H"@ =~= "SBB"@ + " "@ + "H"@);
            }
            "SBB H"
        },
        0x9d => {
            proof {
                reveal_strlit("SBB L");
                assert("SBB L"@ =~= "SBB"@ + " "@ + "L"@);
            }
            "SBB L"
        },
        0x9e => {
            proof {
                reveal_strlit("SBB M");
                assert("SBB M"@ =~= "SBB"@ + " "@ + "M"@);
            }
            "SBB M"
        },
        0x9f => {
            proof {
                reveal_strlit("SBB A");
                assert("SBB A"@ =~= "SBB"@ + " "@ + "A"@);
            }
            "SBB A"
        },
        0xa0 => {
            proof {
                reveal_strlit("ANA B");
                assert("ANA B"@ =~= "ANA"@ + " "@ + "B"@);
            }
            "ANA B"
        },
        0xa1 => {
            proof {
                reveal_strlit("ANA C");
                assert("ANA C"@ =~= "ANA"@ + " "@ + "C"@);
            }
            "ANA C"
        },
        0xa2 => {
            proof {
                reveal_strlit("ANA D");
                assert("ANA D"@ =~= "ANA"@ + " "@ + "D"@);
            }
            "ANA D"
        },
        0xa3 => {
            proof {
                reveal_strlit("ANA E");
                assert("ANA E"@ =~= "ANA"@ + " "@ + "E"@);
            }
            "ANA E"
        },
        0xa4 => {
            proof {
                reveal_strlit("ANA H");
                assert("ANA H"@ =~= "ANA"@ + " "@ + "H"@);
            }
            "ANA H"
        },
        0xa5 => {
            proof {
                reveal_strlit("ANA L");
                assert("ANA L"@ =~= "ANA"@ + " "@ + "L"@);
            }
            "ANA L"
        },
        0xa6 => {
            proof {
                reveal_strlit("ANA M");
                assert("ANA M"@ =~= "ANA"@ + " "@ + "M"@);
            }
            "ANA M"
        },
        0xa7 => {
            proof {
                reveal_strlit("ANA A");
                assert("ANA A"@ =~= "ANA"@ + " "@ + "A"@);
            }
            "ANA A"
        },
        0xa8 => {
            proof {
                reveal_strlit("XRA B");
                assert("XRA B"@ =~= "XRA"@ + " "@ + "B"@);
            }
            "XRA B"
        },
        0xa9 => {
            proof {
                reveal_strlit("XRA C");
                assert("XRA C"@ =~= "XRA"@ + " "@ + "C"@);
            }
            "XRA C"
        },
        0xaa => {
            proof {
                reveal_strlit("XRA D");
                assert("XRA D"@ =~= "XRA"@ + " "@ + "D"@);
            }
            "XRA D"
        },
        0xab => {
            proof {
                reveal_strlit("XRA E");
                assert("XRA E"@ =~= "XRA"@ + " "@ + "E"@);
            }
            "XRA E"
        },
        0xac => {
            proof {
                reveal_strlit("XRA H");
                assert("XRA H"@ =~= "XRA"@ + " "@ + "H"@);
            }
            "XRA H"
        },
        0xad => {
            proof {
                reveal_strlit("XRA L");
                assert("XRA L"@ =~= "XRA"@ + " "@ + "L"@);
            }
            "XRA L"
        },
        0xae => {
            proof {
                reveal_strlit("XRA M");
                assert("XRA M"@ =~= "XRA"@ + " "@ + "M"@);
            }
            "XRA M"
        },
        0xaf => {
            proof {
                reveal_strlit("XRA A");
                assert("XRA A"@ =~= "XRA"@ + " "@ + "A"@);
            }
            "XRA A"
        },
        0xb0 => {
            proof {
                reveal_strlit("ORA B");
                assert("ORA B"@ =~= "ORA"@ + " "@ + "B"@);
            }
            "ORA B"
        },
        0xb1 => {
            proof {
                reveal_strlit("ORA C");
                assert("ORA C"@ =~= "ORA"@ + " "@ + "C"@);
            }
            "ORA C"
        },
        0xb2 => {
            proof {
                reveal_strlit("ORA D");
                assert("ORA D"@ =~= "ORA"@ + " "@ + "D"@);
            }
            "ORA D"
        },
        0xb3 => {
            proof {
                reveal_strlit("ORA E");
                assert("ORA E"@ =~= "ORA"@ + " "@ + "E"@);
            }
            "ORA E"
        },
        0xb4 => {
            proof {
                reveal_strlit("ORA H");
                assert("ORA H"@ =~= "ORA"@ + " "@ + "H"@);
            }
            "ORA H"
        },
        0xb5 => {
            proof {
                reveal_strlit("ORA L");
                assert("ORA L"@ =~= "ORA"@ + " "@ + "L"@);
            }
            "ORA L"
        },
        0xb6 => {
            proof {
                reveal_strlit("ORA M");
                assert("ORA M"@ =~= "ORA"@ + " "@ + "M"@);
            }
            "ORA M"
        },
        0xb7 => {
            proof {
                reveal_strlit("ORA A");
                assert("ORA A"@ =~= "ORA"@ + " "@ + "A"@);
            }
            "ORA A"
        },
        0xb8 => {
            proof {
                reveal_strlit("CMP B");
                assert("CMP B"@ =~= "CMP"@ + " "@ + "B"@);
            }
            "CMP B"
        },
        0xb9 => {
            proof {
                reveal_strlit("CMP C");
                assert("CMP C"@ =~= "CMP"@ + " "@ + "C"@);
            }
            "CMP C"
        },
        0xba => {
            proof {
                reveal_strlit("CMP D");
                assert("CMP D"@ =~= "CMP"@ + " "@ + "D"@);
            }
            "CMP D"
        },
        0xbb => {
            proof {
                reveal_strlit("CMP E");
                assert("CMP E"@ =~= "CMP"@ + " "@ + "E"@);
            }
            "CMP E"
        },
        0xbc => {
            proof {
                reveal_strlit("CMP H");
                assert("CMP H"@ =~= "CMP"@ + " "@ + "H"@);
            }
            "CMP H"
        },
        0xbd => {
            proof {
                reveal_strlit("CMP L");
                assert("CMP L"@ =~= "CMP"@ + " "@ + "L"@);
            }
            "CMP L"
        },
        0xbe => {
            proof {
                reveal_strlit("CMP M");
                assert("CMP M"@ =~= "CMP"@ + " "@ + "M"@);
            }
            "CMP M"
        },
        _ => {
            proof {
                reveal_strlit("CMP A");
                assert("CMP A"@ =~= "CMP"@ + " "@ + "A"@);
            }
            "CMP A"
        },
    }
}

/// The names of the last group: the branches, the stack and the ports.
fn name_from_c0(code: u8) -> (name: &'static str)
    requires
        0xc0 <= code,
    ensures
        name@ == Opcode::name_of(code),
{
    proof {
        reveal_strlit("0x");
        reveal_strlit("ACI");
        reveal_strlit("ADI");
        reveal_strlit("ANI");
        reveal_strlit("B");
        reveal_strlit("C");
        reveal_strlit("CALL");
        reveal_strlit("CPI");
        reveal_strlit("D");
        reveal_strlit("DI");
        reveal_strlit("EI");
        reveal_strlit("H");
        reveal_strlit("IN");
        reveal_strlit("J");
        reveal_strlit("JMP");
        reveal_strlit("M");
        reveal_strlit("NC");
        reveal_strlit("NZ");
        reveal_strlit("ORI");
        reveal_strlit("OUT");
        reveal_strlit("P");
        reveal_strlit("PCHL");
        reveal_strlit("PE");
        reveal_strlit("PO");
        reveal_strlit("POP ");
        reveal_strlit("PSW");
        reveal_strlit("PUSH ");
        reveal_strlit("R");
        reveal_strlit("RET");
        reveal_strlit("RST ");
        reveal_strlit("SBI");
        reveal_strlit("SPHL");
        reveal_strlit("SUI");
        reveal_strlit("XCHG");
        reveal_strlit("XRI");
        reveal_strlit("XTHL");
        reveal_strlit("Z");
    }
    match code {
        0xc0 => {
            proof {
                reveal_strlit("RNZ");
                assert("RNZ"@ =~= "R"@ + "NZ"@);
            }
            "RNZ"
        },
        0xc1 => {
            proof {
                reveal_strlit("POP B");
                assert("POP B"@ =~= "POP "@ + "B"@);
            }
            "POP B"
        },
        0xc2 => {
            proof {
                reveal_strlit("JNZ");
                assert("JNZ"@ =~= "J"@ + "NZ"@);
            }
            "JNZ"
        },
        0xc3 => {
            "JMP"
        },
        0xc4 => {
            proof {
                reveal_strlit("CNZ");
                assert("CNZ"@ =~= "C"@ + "NZ"@);
            }
            "CNZ"
        },
        0xc5 => {
            proof {
                reveal_strlit("PUSH B");
                assert("PUSH B"@ =~= "PUSH "@ + "B"@);
            }
            "PUSH B"
        },
        0xc6 => {
            "ADI"
        },
        0xc7 => {
            proof {
                reveal_strlit("RST 0");
                assert("RST 0"@ =~= "RST "@ + seq![digit(0)]);
            }
            "RST 0"
        },
        0xc8 => {
            proof {
                reveal_strlit("RZ");
                assert("RZ"@ =~= "R"@ + "Z"@);
            }
            "RZ"
        },
        0xc9 => {
            "RET"
        },
        0xca => {
            proof {
                reveal_strlit("JZ");
                assert("JZ"@ =~= "J"@ + "Z"@);
            }
            "JZ"
        },
        0xcb => {
            proof {
                reveal_strlit("0xcb");
                assert("0xcb"@ =~= "0x"@ + seq![hex_digit(12), hex_digit(11)]);
            }
            "0xcb"
        },
        0xcc => {
            proof {
                reveal_strlit("CZ");
                assert("CZ"@ =~= "C"@ + "Z"@);
            }
            "CZ"
        },
        0xcd => {
            "CALL"
        },
        0xce => {
            "ACI"
        },
        0xcf => {
            proof {
                reveal_strlit("RST 1");
                assert("RST 1"@ =~= "RST "@ + seq![digit(1)]);
            }
            "RST 1"
        },
        0xd0 => {
            proof {
                reveal_strlit("RNC");
                assert("RNC"@ =~= "R"@ + "NC"@);
            }
            "RNC"
        },
        0xd1 => {
            proof {
                reveal_strlit("POP D");
                assert("POP D"@ =~= "POP "@ + "D"@);
            }
            "POP D"
        },
        0xd2 => {
            proof {
                reveal_strlit("JNC");
                assert("JNC"@ =~= "J"@ + "NC"@);
            }
            "JNC"
        },
        0xd3 => {
            "OUT"
        },
        0xd4 => {
            proof {
                reveal_strlit("CNC");
                assert("CNC"@ =~= "C"@ + "NC"@);
            }
            "CNC"
        },
        0xd5 => {
            proof {
                reveal_strlit("PUSH D");
                assert("PUSH D"@ =~= "PUSH "@ + "D"@);
            }
            "PUSH D"
        },
        0xd6 => {
            "SUI"
        },
        0xd7 => {
            proof {
                reveal_strlit("RST 2");
                assert("RST 2"@ =~= "RST "@ + seq![digit(2)]);
            }
            "RST 2"
        },
        0xd8 => {
            proof {
                reveal_strlit("RC");
                assert("RC"@ =~= "R"@ + "C"@);
            }
            "RC"
        },
        0xd9 => {
            proof {
                reveal_strlit("0xd9");
                assert("0xd9"@ =~= "0x"@ + seq![hex_digit(13), hex_digit(9)]);
            }
            "0xd9"
        },
        0xda => {
            proof {
                reveal_strlit("JC");
                assert("JC"@ =~= "J"@ + "C"@);
            }
            "JC"
        },
        0xdb => {
            "IN"
        },
        0xdc => {
            proof {
                reveal_strlit("CC");
                assert("CC"@ =~= "C"@ + "C"@);
            }
            "CC"
        },
        0xdd => {
            proof {
                reveal_strlit("0xdd");
                assert("0xdd"@ =~= "0x"@ + seq![hex_digit(13), hex_digit(13)]);
            }
            "0xdd"
        },
        0xde => {
            "SBI"
        },
        0xdf => {
            proof {
                reveal_strlit("RST 3");
                assert("RST 3"@ =~= "RST "@ + seq![digit(3)]);
            }
            "RST 3"
        },
        0xe0 => {
            proof {
                reveal_strlit("RPO");
                assert("RPO"@ =~= "R"@ + "PO"@);
            }
            "RPO"
        },
        0xe1 => {
            proof {
                reveal_strlit("POP H");
                assert("POP H"@ =~= "POP "@ + "H"@);
            }
            "POP H"
        },
        0xe2 => {
            proof {
                reveal_strlit("JPO");
                assert("JPO"@ =~= "J"@ + "PO"@);
            }
            "JPO"
        },
        0xe3 => {
            "XTHL"
        },
        0xe4 => {
            proof {
                reveal_strlit("CPO");
                assert("CPO"@ =~= "C"@ + "PO"@);
            }
            "CPO"
        },
        0xe5 => {
            proof {
                reveal_strlit("PUSH H");
                assert("PUSH H"@ =~= "PUSH "@ + "H"@);
            }
            "PUSH H"
        },
        0xe6 => {
            "ANI"
        },
        0xe7 => {
            proof {
                reveal_strlit("RST 4");
                assert("RST 4"@ =~= "RST "@ + seq![digit(4)]);
            }
            "RST 4"
        },
        0xe8 => {
            proof {
                reveal_strlit("RPE");
                assert("RPE"@ =~= "R"@ + "PE"@);
            }
            "RPE"
        },
        0xe9 => {
            "PCHL"
        },
        0xea => {
            proof {
                reveal_strlit("JPE");
                assert("JPE"@ =~= "J"@ + "PE"@);
            }
            "JPE"
        },
        0xeb => {
            "XCHG"
        },
        0xec => {
            proof {
                reveal_strlit("CPE");
                assert("CPE"@ =~= "C"@ + "PE"@);
            }
            "CPE"
        },
        0xed => {
            proof {
                reveal_strlit("0xed");
                assert("0xed"@ =~= "0x"@ + seq![hex_digit(14), hex_digit(13)]);
            }
            "0xed"
        },
        0xee => {
            "XRI"
        },
        0xef => {
            proof {
                reveal_strlit("RST 5");
                assert("RST 5"@ =~= "RST "@ + seq![digit(5)]);
            }
            "RST 5"
        },
        0xf0 => {
            proof {
                reveal_strlit("RP");
                assert("RP"@ =~= "R"@ + "P"@);
            }
            "RP"
        },
        0xf1 => {
            proof {
                reveal_strlit("POP PSW");
                assert("POP PSW"@ =~= "POP "@ + "PSW"@);
            }
            "POP PSW"
        },
        0xf2 => {
            proof {
                reveal_strlit("JP");
                assert("JP"@ =~= "J"@ + "P"@);
            }
            "JP"
        },
        0xf3 => {
            "DI"
        },
        0xf4 => {
            proof {
                reveal_strlit("CP");
                assert("CP"@ =~= "C"@ + "P"@);
            }
            "CP"
        },
        0xf5 => {
            proof {
                reveal_strlit("PUSH PSW");
                assert("PUSH PSW"@ =~= "PUSH "@ + "PSW"@);
            }
            "PUSH PSW"
        },
        0xf6 => {
            "ORI"
        },
        0xf7 => {
            proof {
                reveal_strlit("RST 6");
                assert("RST 6"@ =~= "RST "@ + seq![digit(6)]);
            }
            "RST 6"
        },
        0xf8 => {
            proof {
                reveal_strlit("RM");
                assert("RM"@ =~= "R"@ + "M"@);
            }
            "RM"
        },
        0xf9 => {
            "SPHL"
        },
        0xfa => {
            proof {
                reveal_strlit("JM");
                assert("JM"@ =~= "J"@ + "M"@);
            }
            "JM"
        },
        0xfb => {
            "EI"
        },
        0xfc => {
            proof {
                reveal_strlit("CM");
                assert("CM"@ =~= "C"@ + "M"@);
            }
            "CM"
        },
        0xfd => {
            proof {
                reveal_strlit("0xfd");
                assert("0xfd"@ =~= "0x"@ + seq![hex_digit(15), hex_digit(13)]);
            }
            "0xfd"
        },
        0xfe => {
            "CPI"
        },
        _ => {
            proof {
                reveal_strlit("RST 7");
                assert("RST 7"@ =~= "RST "@ + seq![digit(7)]);
            }
            "RST 7"
        },
    }
}

} // verus!
