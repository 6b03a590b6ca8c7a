use i8080::instruction::{AluOp, Condition, Instruction, Pair, Reg, StackPair};
use i8080::opcode::{CYCLES, PORT_CYCLES};
use i8080::Opcode;

const THREE_BYTES: [u8; 29] = [
    0x01, 0x11, 0x21, 0x22, 0x2a, 0x31, 0x32, 0x3a, 0xc2, 0xc3, 0xc4, 0xca, 0xcc, 0xcd, 0xd2, 0xd4,
    0xda, 0xdc, 0xe2, 0xe4, 0xea, 0xec, 0xf2, 0xf4, 0xfa, 0xfc, 0xdd, 0xed, 0xfd,
];

const TWO_BYTES: [u8; 18] = [
    0x06, 0x0e, 0x16, 0x1e, 0x26, 0x2e, 0x36, 0x3e, 0xc6, 0xce, 0xd3, 0xde, 0xd6, 0xdb, 0xe6, 0xee,
    0xf6, 0xfe,
];

const NAMES: [&str; 256] = [
    "NOP", "LXI B", "STAX B", "INX B",
    "INR B", "DCR B", "MVI B", "RLC",
    "0x08", "DAD B", "LDAX B", "DCX B",
    "INR C", "DCR C", "MVI C", "RRC",
    "0x10", "LXI D", "STAX D", "INX D",
    "INR D", "DCR D", "MVI D", "RAL",
    "0x18", "DAD D", "LDAX D", "DCX D",
    "INR E", "DCR E", "MVI E", "RAR",
    "0x20", "LXI H", "SHLD", "INX H",
    "INR H", "DCR H", "MVI H", "DAA",
    "0x28", "DAD H", "LHLD", "DCX H",
    "INR L", "DCR L", "MVI L", "CMA",
    "0x30", "LXI SP", "STA", "INX SP",
    "INR M", "DCR M", "MVI M", "STC",
    "0x38", "DAD SP", "LDA", "DCX SP",
    "INR A", "DCR A", "MVI A", "CMC",
    "MOV B, B", "MOV B, C", "MOV B, D", "MOV B, E",
    "MOV B, H", "MOV B, L", "MOV B, M", "MOV B, A",
    "MOV C, B", "MOV C, C", "MOV C, D", "MOV C, E",
    "MOV C, H", "MOV C, L", "MOV C, M", "MOV C, A",
    "MOV D, B", "MOV D, C", "MOV D, D", "MOV D, E",
    "MOV D, H", "MOV D, L", "MOV D, M", "MOV D, A",
    "MOV E, B", "MOV E, C", "MOV E, D", "MOV E, E",
    "MOV E, H", "MOV E, L", "MOV E, M", "MOV E, A",
    "MOV H, B", "MOV H, C", "MOV H, D", "MOV H, E",
    "MOV H, H", "MOV H, L", "MOV H, M", "MOV H, A",
    "MOV L, B", "MOV L, C", "MOV L, D", "MOV L, E",
    "MOV L, H", "MOV L, L", "MOV L, M", "MOV L, A",
    "MOV M, B", "MOV M, C", "MOV M, D", "MOV M, E",
    "MOV M, H", "MOV M, L", "HLT", "MOV M, A",
    "MOV A, B", "MOV A, C", "MOV A, D", "MOV A, E",
    "MOV A, H", "MOV A, L", "MOV A, M", "MOV A, A",
    "ADD B", "ADD C", "ADD D", "ADD E",
    "ADD H", "ADD L", "ADD M", "ADD A",
    "ADC B", "ADC C", "ADC D", "ADC E",
    "ADC H", "ADC L", "ADC M", "ADC A",
    "SUB B", "SUB C", "SUB D", "SUB E",
    "SUB H", "SUB L", "SUB M", "SUB A",
    "SBB B", "SBB C", "SBB D", "SBB E",
    "SBB H", "SBB L", "SBB M", "SBB A",
    "ANA B", "ANA C", "ANA D", "ANA E",
    "ANA H", "ANA L", "ANA M", "ANA A",
    "XRA B", "XRA C", "XRA D", "XRA E",
    "XRA H", "XRA L", "XRA M", "XRA A",
    "ORA B", "ORA C", "ORA D", "ORA E",
    "ORA H", "ORA L", "ORA M", "ORA A",
    "CMP B", "CMP C", "CMP D", "CMP E",
    "CMP H", "CMP L", "CMP M", "CMP A",
    "RNZ", "POP B", "JNZ", "JMP",
    "CNZ", "PUSH B", "ADI", "RST 0",
    "RZ", "RET", "JZ", "0xcb",
    "CZ", "CALL", "ACI", "RST 1",
    "RNC", "POP D", "JNC", "OUT",
    "CNC", "PUSH D", "SUI", "RST 2",
    "RC", "0xd9", "JC", "IN",
    "CC", "0xdd", "SBI", "RST 3",
    "RPO", "POP H", "JPO", "XTHL",
    "CPO", "PUSH H", "ANI", "RST 4",
    "RPE", "PCHL", "JPE", "XCHG",
    "CPE", "0xed", "XRI", "RST 5",
    "RP", "POP PSW", "JP", "DI",
    "CP", "PUSH PSW", "ORI", "RST 6",
    "RM", "SPHL", "JM", "EI",
    "CM", "0xfd", "CPI", "RST 7",
];

#[test]
fn size_of_every_opcode() {
    for code in 0u8..=255 {
        let expected = if THREE_BYTES.contains(&code) {
            3
        } else if TWO_BYTES.contains(&code) {
            2
        } else {
            1
        };
        assert_eq!(Opcode::from(code).size(), expected);
    }
}

#[test]
fn sizes_of_some_opcodes() {
    assert_eq!(Opcode(0x00).size(), 1);
    assert_eq!(Opcode(0x3e).size(), 2);
    assert_eq!(Opcode(0xc3).size(), 3);
    assert_eq!(Opcode(0xcb).size(), 1);
    assert_eq!(Opcode(0xdb).size(), 2);
    assert_eq!(Opcode(0xfd).size(), 3);
    assert_eq!(Opcode(0x76).size(), 1);
}

#[test]
fn cycles_of_every_opcode() {
    for code in 0u8..=255 {
        let expected = if code == 0xd3 || code == 0xdb {
            3
        } else {
            CYCLES[code as usize]
        };
        let cycles = Opcode::from(code).cycle_size();
        assert_eq!(cycles, expected);
        assert!(cycles >= 3 && cycles <= 18);
    }
}

#[test]
fn cycles_of_some_opcodes() {
    assert_eq!(PORT_CYCLES, 3);
    assert_eq!(Opcode(0x00).cycle_size(), 4);
    assert_eq!(Opcode(0x01).cycle_size(), 10);
    assert_eq!(Opcode(0x22).cycle_size(), 16);
    assert_eq!(Opcode(0x32).cycle_size(), 13);
    assert_eq!(Opcode(0x34).cycle_size(), 10);
    assert_eq!(Opcode(0x41).cycle_size(), 5);
    assert_eq!(Opcode(0x46).cycle_size(), 7);
    assert_eq!(Opcode(0x76).cycle_size(), 7);
    assert_eq!(Opcode(0x80).cycle_size(), 4);
    assert_eq!(Opcode(0x86).cycle_size(), 7);
    assert_eq!(Opcode(0xc4).cycle_size(), 17);
    assert_eq!(Opcode(0xcc).cycle_size(), 10);
    assert_eq!(Opcode(0xcd).cycle_size(), 17);
    assert_eq!(Opcode(0xd3).cycle_size(), 3);
    assert_eq!(Opcode(0xdb).cycle_size(), 3);
    assert_eq!(Opcode(0xe3).cycle_size(), 18);
    assert_eq!(Opcode(0xff).cycle_size(), 11);
    assert_eq!(CYCLES[0xd3], 10);
    assert_eq!(CYCLES[0xdb], 10);
}

#[test]
fn opcode_is_a_byte() {
    let mut opcode = Opcode::from(0xc3u8);
    assert_eq!(*opcode, 0xc3);
    assert_eq!(opcode, Opcode(0xc3));
    assert_eq!(opcode.0, 0xc3);
    *opcode = 0x76;
    assert_eq!(opcode, Opcode(0x76));
    *opcode += 1;
    assert_eq!(opcode.mnemonic(), "MOV M, A");
}

#[test]
fn decode_of_the_first_group() {
    assert_eq!(Opcode(0x00).decode(), Instruction::Nop);
    for code in [0x08u8, 0x10, 0x18, 0x20, 0x28, 0x30, 0x38] {
        assert_eq!(Opcode(code).decode(), Instruction::Nop);
    }
    assert_eq!(Opcode(0x01).decode(), Instruction::Lxi(Pair::BC));
    assert_eq!(Opcode(0x11).decode(), Instruction::Lxi(Pair::DE));
    assert_eq!(Opcode(0x21).decode(), Instruction::Lxi(Pair::HL));
    assert_eq!(Opcode(0x31).decode(), Instruction::Lxi(Pair::SP));
    assert_eq!(Opcode(0x02).decode(), Instruction::Stax(Pair::BC));
    assert_eq!(Opcode(0x12).decode(), Instruction::Stax(Pair::DE));
    assert_eq!(Opcode(0x0a).decode(), Instruction::Ldax(Pair::BC));
    assert_eq!(Opcode(0x1a).decode(), Instruction::Ldax(Pair::DE));
    assert_eq!(Opcode(0x22).decode(), Instruction::Shld);
    assert_eq!(Opcode(0x2a).decode(), Instruction::Lhld);
    assert_eq!(Opcode(0x32).decode(), Instruction::Sta);
    assert_eq!(Opcode(0x3a).decode(), Instruction::Lda);
    assert_eq!(Opcode(0x03).decode(), Instruction::Inx(Pair::BC));
    assert_eq!(Opcode(0x33).decode(), Instruction::Inx(Pair::SP));
    assert_eq!(Opcode(0x0b).decode(), Instruction::Dcx(Pair::BC));
    assert_eq!(Opcode(0x2b).decode(), Instruction::Dcx(Pair::HL));
    assert_eq!(Opcode(0x09).decode(), Instruction::Dad(Pair::BC));
    assert_eq!(Opcode(0x39).decode(), Instruction::Dad(Pair::SP));
    assert_eq!(Opcode(0x04).decode(), Instruction::Inr(Reg::B));
    assert_eq!(Opcode(0x34).decode(), Instruction::Inr(Reg::M));
    assert_eq!(Opcode(0x3c).decode(), Instruction::Inr(Reg::A));
    assert_eq!(Opcode(0x0d).decode(), Instruction::Dcr(Reg::C));
    assert_eq!(Opcode(0x2d).decode(), Instruction::Dcr(Reg::L));
    assert_eq!(Opcode(0x16).decode(), Instruction::Mvi(Reg::D));
    assert_eq!(Opcode(0x1e).decode(), Instruction::Mvi(Reg::E));
    assert_eq!(Opcode(0x26).decode(), Instruction::Mvi(Reg::H));
    assert_eq!(Opcode(0x07).decode(), Instruction::Rlc);
    assert_eq!(Opcode(0x0f).decode(), Instruction::Rrc);
    assert_eq!(Opcode(0x17).decode(), Instruction::Ral);
    assert_eq!(Opcode(0x1f).decode(), Instruction::Rar);
    assert_eq!(Opcode(0x27).decode(), Instruction::Daa);
    assert_eq!(Opcode(0x2f).decode(), Instruction::Cma);
    assert_eq!(Opcode(0x37).decode(), Instruction::Stc);
    assert_eq!(Opcode(0x3f).decode(), Instruction::Cmc);
}

#[test]
fn decode_of_the_moves_and_the_operations() {
    let regs = [Reg::B, Reg::C, Reg::D, Reg::E, Reg::H, Reg::L, Reg::M, Reg::A];
    let ops = [
        AluOp::Add,
        AluOp::Adc,
        AluOp::Sub,
        AluOp::Sbb,
        AluOp::Ana,
        AluOp::Xra,
        AluOp::Ora,
        AluOp::Compare,
    ];
    for y in 0..8usize {
        for z in 0..8usize {
            let code = (8 * y + z) as u8;
            if y == 6 && z == 6 {
                assert_eq!(Opcode(0x40 + code).decode(), Instruction::Hlt);
            } else {
                assert_eq!(Opcode(0x40 + code).decode(), Instruction::Mov(regs[y], regs[z]));
            }
            assert_eq!(Opcode(0x80 + code).decode(), Instruction::Alu(ops[y], regs[z]));
        }
        assert_eq!(
            Opcode(0xc6 + 8 * y as u8).decode(),
            Instruction::AluImmediate(ops[y])
        );
    }
}

#[test]
fn decode_of_the_last_group() {
    let conditions = [
        Condition::NotZero,
        Condition::Zero,
        Condition::NoCarry,
        Condition::Carry,
        Condition::ParityOdd,
        Condition::ParityEven,
        Condition::Plus,
        Condition::Minus,
    ];
    for y in 0..8usize {
        let step = 8 * y as u8;
        assert_eq!(Opcode(0xc0 + step).decode(), Instruction::ReturnIf(conditions[y]));
        assert_eq!(Opcode(0xc2 + step).decode(), Instruction::JumpIf(conditions[y]));
        assert_eq!(Opcode(0xc4 + step).decode(), Instruction::CallIf(conditions[y]));
        assert_eq!(Opcode(0xc7 + step).decode(), Instruction::Rst(y as u8));
    }
    assert_eq!(Opcode(0xc1).decode(), Instruction::Pop(StackPair::BC));
    assert_eq!(Opcode(0xd1).decode(), Instruction::Pop(StackPair::DE));
    assert_eq!(Opcode(0xe1).decode(), Instruction::Pop(StackPair::HL));
    assert_eq!(Opcode(0xf1).decode(), Instruction::Pop(StackPair::PSW));
    assert_eq!(Opcode(0xc5).decode(), Instruction::Push(StackPair::BC));
    assert_eq!(Opcode(0xd5).decode(), Instruction::Push(StackPair::DE));
    assert_eq!(Opcode(0xe5).decode(), Instruction::Push(StackPair::HL));
    assert_eq!(Opcode(0xf5).decode(), Instruction::Push(StackPair::PSW));
    assert_eq!(Opcode(0xc3).decode(), Instruction::Jmp);
    assert_eq!(Opcode(0xcb).decode(), Instruction::Jmp);
    assert_eq!(Opcode(0xc9).decode(), Instruction::Ret);
    assert_eq!(Opcode(0xd9).decode(), Instruction::Ret);
    for code in [0xcdu8, 0xdd, 0xed, 0xfd] {
        assert_eq!(Opcode(code).decode(), Instruction::Call);
    }
    assert_eq!(Opcode(0xd3).decode(), Instruction::Out);
    assert_eq!(Opcode(0xdb).decode(), Instruction::In);
    assert_eq!(Opcode(0xe3).decode(), Instruction::Xthl);
    assert_eq!(Opcode(0xe9).decode(), Instruction::Pchl);
    assert_eq!(Opcode(0xeb).decode(), Instruction::Xchg);
    assert_eq!(Opcode(0xf3).decode(), Instruction::Di);
    assert_eq!(Opcode(0xf9).decode(), Instruction::Sphl);
    assert_eq!(Opcode(0xfb).decode(), Instruction::Ei);
}

#[test]
fn operands_by_their_field() {
    assert_eq!(Reg::from_field(0), Reg::B);
    assert_eq!(Reg::from_field(6), Reg::M);
    assert_eq!(Reg::from_field(7), Reg::A);
    assert_eq!(Reg::from_field(0x0f), Reg::A);
    assert_eq!(Reg::from_field(0xf9), Reg::C);
    assert_eq!(AluOp::from_field(0), AluOp::Add);
    assert_eq!(AluOp::from_field(7), AluOp::Compare);
    assert_eq!(AluOp::from_field(0x13), AluOp::Sbb);
}

#[test]
fn name_of_every_opcode() {
    for code in 0u8..=255 {
        assert_eq!(Opcode(code).mnemonic(), NAMES[code as usize]);
    }
}

#[test]
fn names_of_some_opcodes() {
    assert_eq!(Opcode(0x00).mnemonic(), "NOP");
    assert_eq!(Opcode(0x08).mnemonic(), "0x08");
    assert_eq!(Opcode(0x31).mnemonic(), "LXI SP");
    assert_eq!(Opcode(0x4e).mnemonic(), "MOV C, M");
    assert_eq!(Opcode(0x76).mnemonic(), "HLT");
    assert_eq!(Opcode(0xbf).mnemonic(), "CMP A");
    assert_eq!(Opcode(0xcb).mnemonic(), "0xcb");
    assert_eq!(Opcode(0xd9).mnemonic(), "0xd9");
    assert_eq!(Opcode(0xf1).mnemonic(), "POP PSW");
    assert_eq!(Opcode(0xfc).mnemonic(), "CM");
    assert_eq!(Opcode(0xff).mnemonic(), "RST 7");
}
