use i8080::condition_codes::ConditionCodes;
use i8080::instruction::{AluOp, Pair, Reg};
use i8080::{Cpu, Machine};

struct Quiet;

impl Machine for Quiet {
    fn input(&mut self, _: u8) -> u8 {
        0
    }

    fn output(&mut self, _: u8, _: u8) {}
}

fn cpu_with(program: &[u8]) -> Cpu {
    let mut cpu = Cpu::new();
    cpu.load_into_rom(program, 0).unwrap();
    cpu
}

fn flags(s: bool, z: bool, ac: bool, p: bool, cy: bool) -> ConditionCodes {
    ConditionCodes { s, z, ac, p, cy }
}

#[test]
fn add_register() {
    let mut cpu = cpu_with(&[0x82]);
    cpu.a = 0x6cu8.into();
    cpu.d = 0x2eu8.into();
    assert_eq!(cpu.emulate(&mut Quiet), 4);
    assert_eq!(cpu.a, 0x9a);
    assert_eq!(cpu.d, 0x2e);
    assert_eq!(cpu.conditions, flags(true, false, true, true, false));
    assert_eq!(cpu.pc, 1);
}

#[test]
fn add_sets_carry_and_zero_on_overflow_to_zero() {
    let mut cpu = cpu_with(&[0x80]);
    cpu.a = 0xffu8.into();
    cpu.b = 0x01u8.into();
    cpu.emulate(&mut Quiet);
    assert_eq!(cpu.a, 0x00);
    assert_eq!(cpu.conditions, flags(false, true, true, true, true));
}

#[test]
fn add_ignores_incoming_carry() {
    let mut cpu = cpu_with(&[0x80]);
    cpu.a = 0x01u8.into();
    cpu.b = 0x01u8.into();
    cpu.conditions.cy = true;
    cpu.emulate(&mut Quiet);
    assert_eq!(cpu.a, 0x02);
    assert!(!cpu.conditions.cy);
}

#[test]
fn add_memory() {
    let mut cpu = cpu_with(&[0x86]);
    cpu.h = 0x30u8.into();
    cpu.l = 0x10u8.into();
    cpu.memory.write(0x3010, 0x22);
    cpu.a = 0x11u8.into();
    assert_eq!(cpu.emulate(&mut Quiet), 7);
    assert_eq!(cpu.a, 0x33);
    assert_eq!(cpu.conditions, flags(false, false, false, true, false));
}

#[test]
fn add_accumulator_to_itself() {
    let mut cpu = cpu_with(&[0x87]);
    cpu.a = 0x88u8.into();
    cpu.emulate(&mut Quiet);
    assert_eq!(cpu.a, 0x10);
    assert_eq!(cpu.conditions, flags(false, false, true, false, true));
}

#[test]
fn adc_without_and_with_carry() {
    let mut cpu = cpu_with(&[0x89]);
    cpu.a = 0x42u8.into();
    cpu.c = 0x3du8.into();
    cpu.emulate(&mut Quiet);
    assert_eq!(cpu.a, 0x7f);
    assert_eq!(cpu.conditions, flags(false, false, false, false, false));

    let mut cpu = cpu_with(&[0x89]);
    cpu.a = 0x42u8.into();
    cpu.c = 0x3du8.into();
    cpu.conditions.cy = true;
    cpu.emulate(&mut Quiet);
    assert_eq!(cpu.a, 0x80);
    assert_eq!(cpu.conditions, flags(true, false, true, false, false));
}

#[test]
fn adc_of_ff_with_carry_keeps_the_accumulator_and_carries() {
    let mut cpu = cpu_with(&[0x88]);
    cpu.a = 0x00u8.into();
    cpu.b = 0xffu8.into();
    cpu.conditions.cy = true;
    cpu.emulate(&mut Quiet);
    assert_eq!(cpu.a, 0x00);
    assert_eq!(cpu.conditions, flags(false, true, true, true, true));

    let mut cpu = cpu_with(&[0x88]);
    cpu.a = 0x35u8.into();
    cpu.b = 0xffu8.into();
    cpu.conditions.cy = true;
    cpu.emulate(&mut Quiet);
    assert_eq!(cpu.a, 0x35);
    assert_eq!(cpu.conditions, flags(false, false, true, true, true));
}

#[test]
fn aci_adds_the_immediate_and_the_carry() {
    let mut cpu = cpu_with(&[0xce, 0xbe, 0xce, 0x42]);
    cpu.a = 0x56u8.into();
    assert_eq!(cpu.emulate(&mut Quiet), 7);
    assert_eq!(cpu.a, 0x14);
    assert!(cpu.conditions.cy);
    assert_eq!(cpu.pc, 2);
    cpu.emulate(&mut Quiet);
    assert_eq!(cpu.a, 0x57);
    assert!(!cpu.conditions.cy);
    assert_eq!(cpu.pc, 4);
}

#[test]
fn aci_of_ff_with_carry_carries() {
    let mut cpu = cpu_with(&[0xce, 0xff]);
    cpu.a = 0x00u8.into();
    cpu.conditions.cy = true;
    cpu.emulate(&mut Quiet);
    assert_eq!(cpu.a, 0x00);
    assert_eq!(cpu.conditions, flags(false, true, true, true, true));
}

#[test]
fn sub_register() {
    let mut cpu = cpu_with(&[0x97]);
    cpu.a = 0x3eu8.into();
    cpu.emulate(&mut Quiet);
    assert_eq!(cpu.a, 0x00);
    assert_eq!(cpu.conditions, flags(false, true, false, true, false));
}

#[test]
fn sub_with_borrow_out() {
    let mut cpu = cpu_with(&[0x90]);
    cpu.a = 0x05u8.into();
    cpu.b = 0x06u8.into();
    cpu.emulate(&mut Quiet);
    assert_eq!(cpu.a, 0xff);
    assert_eq!(cpu.conditions, flags(true, false, true, true, true));
}

#[test]
fn sub_borrows_from_the_low_nibble_only() {
    let mut cpu = cpu_with(&[0x90]);
    cpu.a = 0x20u8.into();
    cpu.b = 0x01u8.into();
    cpu.emulate(&mut Quiet);
    assert_eq!(cpu.a, 0x1f);
    assert_eq!(cpu.conditions, flags(false, false, true, false, false));
}

#[test]
fn sbb_register() {
    let mut cpu = cpu_with(&[0x9d]);
    cpu.a = 0x04u8.into();
    cpu.l = 0x02u8.into();
    cpu.conditions.cy = true;
    cpu.emulate(&mut Quiet);
    assert_eq!(cpu.a, 0x01);
    assert_eq!(cpu.conditions, flags(false, false, false, false, false));
}

#[test]
fn sbb_of_ff_with_borrow_keeps_the_accumulator_and_borrows() {
    let mut cpu = cpu_with(&[0x98]);
    cpu.a = 0x00u8.into();
    cpu.b = 0xffu8.into();
    cpu.conditions.cy = true;
    cpu.emulate(&mut Quiet);
    assert_eq!(cpu.a, 0x00);
    assert_eq!(cpu.conditions, flags(false, true, true, true, true));
}

#[test]
fn sui_subtracts_the_immediate() {
    let mut cpu = cpu_with(&[0xd6, 0x01]);
    cpu.a = 0x00u8.into();
    assert_eq!(cpu.emulate(&mut Quiet), 7);
    assert_eq!(cpu.a, 0xff);
    assert_eq!(cpu.conditions, flags(true, false, true, true, true));
    assert_eq!(cpu.pc, 2);
}

#[test]
fn sbi_subtracts_the_immediate_and_the_borrow() {
    let mut cpu = cpu_with(&[0xde, 0x01]);
    cpu.a = 0x00u8.into();
    cpu.conditions.cy = true;
    cpu.emulate(&mut Quiet);
    assert_eq!(cpu.a, 0xfe);
    assert_eq!(cpu.conditions, flags(true, false, true, false, true));

    let mut cpu = cpu_with(&[0xde, 0xff]);
    cpu.a = 0x10u8.into();
    cpu.conditions.cy = true;
    cpu.emulate(&mut Quiet);
    assert_eq!(cpu.a, 0x10);
    assert_eq!(cpu.conditions, flags(false, false, true, false, true));
}

#[test]
fn cmp_sets_flags_and_keeps_the_accumulator() {
    let mut cpu = cpu_with(&[0xbb, 0xbb, 0xbb]);
    cpu.a = 0x0au8.into();
    cpu.e = 0x05u8.into();
    assert_eq!(cpu.emulate(&mut Quiet), 4);
    assert_eq!(cpu.a, 0x0a);
    assert_eq!(cpu.conditions, flags(false, false, false, true, false));
    cpu.a = 0x02u8.into();
    cpu.emulate(&mut Quiet);
    assert_eq!(cpu.a, 0x02);
    assert_eq!(cpu.conditions, flags(true, false, true, false, true));
    cpu.a = 0x05u8.into();
    cpu.emulate(&mut Quiet);
    assert_eq!(cpu.a, 0x05);
    assert_eq!(cpu.conditions, flags(false, true, false, true, false));
}

#[test]
fn cpi_with_a_larger_operand_borrows() {
    let mut cpu = cpu_with(&[0xfe, 0x40]);
    cpu.a = 0x3fu8.into();
    assert_eq!(cpu.emulate(&mut Quiet), 7);
    assert_eq!(cpu.a, 0x3f);
    assert_eq!(cpu.conditions, flags(true, false, false, true, true));
    assert_eq!(cpu.pc, 2);
}

#[test]
fn inr_register_keeps_carry() {
    let mut cpu = cpu_with(&[0x04, 0x0c]);
    cpu.b = 0xffu8.into();
    cpu.c = 0x99u8.into();
    cpu.conditions.cy = true;
    assert_eq!(cpu.emulate(&mut Quiet), 5);
    assert_eq!(cpu.b, 0x00);
    assert_eq!(cpu.conditions, flags(false, true, true, true, true));
    cpu.emulate(&mut Quiet);
    assert_eq!(cpu.c, 0x9a);
    assert_eq!(cpu.conditions, flags(true, false, false, true, true));
}

#[test]
fn inr_sets_auxiliary_carry_only_on_a_nibble_overflow() {
    let mut cpu = cpu_with(&[0x3c, 0x3c]);
    cpu.a = 0x0fu8.into();
    cpu.emulate(&mut Quiet);
    assert_eq!(cpu.a, 0x10);
    assert!(cpu.conditions.ac);
    cpu.emulate(&mut Quiet);
    assert_eq!(cpu.a, 0x11);
    assert!(!cpu.conditions.ac);
}

#[test]
fn inr_memory() {
    let mut cpu = cpu_with(&[0x34]);
    cpu.h = 0x20u8.into();
    cpu.l = 0x00u8.into();
    cpu.memory.write(0x2000, 0x0f);
    assert_eq!(cpu.emulate(&mut Quiet), 10);
    assert_eq!(cpu.memory.read(0x2000), 0x10);
    assert_eq!(cpu.conditions, flags(false, false, true, false, false));
}

#[test]
fn dcr_register_keeps_carry() {
    let mut cpu = cpu_with(&[0x05, 0x0d, 0x15]);
    cpu.b = 0x00u8.into();
    cpu.c = 0x11u8.into();
    cpu.d = 0x01u8.into();
    assert_eq!(cpu.emulate(&mut Quiet), 5);
    assert_eq!(cpu.b, 0xff);
    assert_eq!(cpu.conditions, flags(true, false, true, true, false));
    cpu.conditions.cy = true;
    cpu.emulate(&mut Quiet);
    assert_eq!(cpu.c, 0x10);
    assert_eq!(cpu.conditions, flags(false, false, false, false, true));
    cpu.emulate(&mut Quiet);
    assert_eq!(cpu.d, 0x00);
    assert_eq!(cpu.conditions, flags(false, true, false, true, true));
}

#[test]
fn dcr_memory() {
    let mut cpu = cpu_with(&[0x35]);
    cpu.h = 0x20u8.into();
    cpu.l = 0x01u8.into();
    cpu.memory.write(0x2001, 0x10);
    assert_eq!(cpu.emulate(&mut Quiet), 10);
    assert_eq!(cpu.memory.read(0x2001), 0x0f);
    assert_eq!(cpu.conditions, flags(false, false, true, true, false));
}

#[test]
fn inx_and_dcx_wrap_and_touch_no_flag() {
    let mut cpu = cpu_with(&[0x03, 0x1b, 0x23, 0x33, 0x2b, 0x3b, 0x0b, 0x13]);
    cpu.b = 0x38u8.into();
    cpu.c = 0xffu8.into();
    cpu.d = 0x98u8.into();
    cpu.e = 0x00u8.into();
    cpu.h = 0xffu8.into();
    cpu.l = 0xffu8.into();
    cpu.sp = 0xffffu16.into();
    let before = cpu.conditions;
    assert_eq!(cpu.emulate(&mut Quiet), 5);
    assert_eq!((cpu.b, cpu.c), (0x39u8.into(), 0x00u8.into()));
    assert_eq!(cpu.emulate(&mut Quiet), 5);
    assert_eq!((cpu.d, cpu.e), (0x97u8.into(), 0xffu8.into()));
    cpu.emulate(&mut Quiet);
    assert_eq!((cpu.h, cpu.l), (0x00u8.into(), 0x00u8.into()));
    cpu.emulate(&mut Quiet);
    assert_eq!(cpu.sp, 0x0000);
    cpu.emulate(&mut Quiet);
    assert_eq!((cpu.h, cpu.l), (0xffu8.into(), 0xffu8.into()));
    cpu.emulate(&mut Quiet);
    assert_eq!(cpu.sp, 0xffff);
    cpu.emulate(&mut Quiet);
    assert_eq!((cpu.b, cpu.c), (0x38u8.into(), 0xffu8.into()));
    cpu.emulate(&mut Quiet);
    assert_eq!((cpu.d, cpu.e), (0x98u8.into(), 0x00u8.into()));
    assert_eq!(cpu.conditions, before);
    assert_eq!(cpu.pc, 8);
}

#[test]
fn dad_adds_a_pair_to_hl() {
    let mut cpu = cpu_with(&[0x09]);
    cpu.b = 0x33u8.into();
    cpu.c = 0x9fu8.into();
    cpu.h = 0xa1u8.into();
    cpu.l = 0x7bu8.into();
    cpu.conditions = flags(true, true, true, true, true);
    assert_eq!(cpu.emulate(&mut Quiet), 10);
    assert_eq!((cpu.h, cpu.l), (0xd5u8.into(), 0x1au8.into()));
    assert_eq!(cpu.conditions, flags(true, true, true, true, false));
}

#[test]
fn dad_carries_out_of_sixteen_bits() {
    let mut cpu = cpu_with(&[0x19, 0x29, 0x39]);
    cpu.h = 0xffu8.into();
    cpu.l = 0xffu8.into();
    cpu.d = 0x00u8.into();
    cpu.e = 0x01u8.into();
    cpu.emulate(&mut Quiet);
    assert_eq!((cpu.h, cpu.l), (0x00u8.into(), 0x00u8.into()));
    assert_eq!(cpu.conditions, flags(false, false, false, false, true));
    cpu.h = 0x80u8.into();
    cpu.l = 0x01u8.into();
    cpu.emulate(&mut Quiet);
    assert_eq!((cpu.h, cpu.l), (0x00u8.into(), 0x02u8.into()));
    assert!(cpu.conditions.cy);
    cpu.sp = 0x1000u16.into();
    cpu.emulate(&mut Quiet);
    assert_eq!((cpu.h, cpu.l), (0x10u8.into(), 0x02u8.into()));
    assert!(!cpu.conditions.cy);
}

#[test]
fn daa_adjusts_both_digits() {
    let mut cpu = cpu_with(&[0x27]);
    cpu.a = 0x9bu8.into();
    assert_eq!(cpu.emulate(&mut Quiet), 4);
    assert_eq!(cpu.a, 0x01);
    assert_eq!(cpu.conditions, flags(false, false, true, false, true));
}

#[test]
fn daa_leaves_a_decimal_value_alone() {
    let mut cpu = cpu_with(&[0x27]);
    cpu.a = 0x99u8.into();
    cpu.emulate(&mut Quiet);
    assert_eq!(cpu.a, 0x99);
    assert_eq!(cpu.conditions, flags(true, false, false, true, false));
}

#[test]
fn daa_low_digit_only() {
    let mut cpu = cpu_with(&[0x27]);
    cpu.a = 0x0au8.into();
    cpu.emulate(&mut Quiet);
    assert_eq!(cpu.a, 0x10);
    assert_eq!(cpu.conditions, flags(false, false, true, false, false));
}

#[test]
fn daa_with_incoming_auxiliary_carry() {
    let mut cpu = cpu_with(&[0x27]);
    cpu.a = 0x12u8.into();
    cpu.conditions.ac = true;
    cpu.emulate(&mut Quiet);
    assert_eq!(cpu.a, 0x18);
    assert_eq!(cpu.conditions, flags(false, false, true, true, false));
}

#[test]
fn daa_with_incoming_carry() {
    let mut cpu = cpu_with(&[0x27]);
    cpu.a = 0x00u8.into();
    cpu.conditions.cy = true;
    cpu.emulate(&mut Quiet);
    assert_eq!(cpu.a, 0x60);
    assert_eq!(cpu.conditions, flags(false, false, false, true, false));

    let mut cpu = cpu_with(&[0x27]);
    cpu.a = 0xa0u8.into();
    cpu.conditions.cy = true;
    cpu.emulate(&mut Quiet);
    assert_eq!(cpu.a, 0x00);
    assert_eq!(cpu.conditions, flags(false, true, false, true, true));
}

#[test]
fn daa_loses_the_carry_out_of_the_low_digit_step() {
    let mut cpu = cpu_with(&[0x27]);
    cpu.a = 0xfau8.into();
    cpu.emulate(&mut Quiet);
    assert_eq!(cpu.a, 0x00);
    assert_eq!(cpu.conditions, flags(false, true, true, true, false));
}

#[test]
fn handlers_can_be_called_without_a_program() {
    let mut cpu = Cpu::new();
    cpu.a = 0x10u8.into();
    cpu.add_with(0x22, true);
    assert_eq!(cpu.a, 0x33);
    cpu.sub_with(0x03, false);
    assert_eq!(cpu.a, 0x30);
    cpu.compare_with(0x30);
    assert!(cpu.conditions.z);
    cpu.b = 0x01u8.into();
    cpu.add(Reg::B);
    assert_eq!(cpu.a, 0x31);
    cpu.alu(AluOp::Sub, Reg::B);
    assert_eq!(cpu.a, 0x30);
    cpu.inr(Reg::B);
    assert_eq!(cpu.b, 0x02);
    cpu.dcr(Reg::B);
    assert_eq!(cpu.b, 0x01);
    cpu.inx(Pair::BC);
    assert_eq!(cpu.pair(Pair::BC), 0x0101);
    cpu.dcx(Pair::BC);
    assert_eq!(cpu.pair(Pair::BC), 0x0100);
    cpu.set_pair(Pair::HL, 0x1234);
    cpu.dad(Pair::BC);
    assert_eq!(cpu.pair(Pair::HL), 0x1334);
    assert_eq!(cpu.pc, 0);
}
