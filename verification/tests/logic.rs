use i8080::condition_codes::ConditionCodes;
use i8080::{Cpu, Machine};

struct Quiet;

impl Machine for Quiet {
    fn input(&mut self, _: u8) -> u8 {
        0
    }

    fn output(&mut self, _: u8, _: u8) {}
}

fn cpu_with(program: &[u8]) -> Cpu {
    let mut cpu = Cpu::new();
    cpu.load_into_rom(program, 0).unwrap();
    cpu
}

fn flags(s: bool, z: bool, ac: bool, p: bool, cy: bool) -> ConditionCodes {
    ConditionCodes { s, z, ac, p, cy }
}

#[test]
fn ana_clears_carry() {
    let mut cpu = cpu_with(&[0xa1]);
    cpu.a = 0xfcu8.into();
    cpu.c = 0x0fu8.into();
    cpu.conditions = flags(true, true, true, false, true);
    assert_eq!(cpu.emulate(&mut Quiet), 4);
    assert_eq!(cpu.a, 0x0c);
    assert_eq!(cpu.conditions, flags(false, false, false, true, false));
}

#[test]
fn ana_sets_auxiliary_carry_for_a_result_above_fifteen() {
    let mut cpu = cpu_with(&[0xa0]);
    cpu.a = 0xffu8.into();
    cpu.b = 0xf0u8.into();
    cpu.emulate(&mut Quiet);
    assert_eq!(cpu.a, 0xf0);
    assert_eq!(cpu.conditions, flags(true, false, true, true, false));
}

#[test]
fn ani_keeps_auxiliary_carry() {
    let mut cpu = cpu_with(&[0xe6, 0x0f, 0xe6, 0xf0]);
    cpu.a = 0x3au8.into();
    cpu.conditions = flags(true, true, true, false, true);
    assert_eq!(cpu.emulate(&mut Quiet), 7);
    assert_eq!(cpu.a, 0x0a);
    assert_eq!(cpu.conditions, flags(false, false, true, true, false));
    assert_eq!(cpu.pc, 2);
    cpu.conditions.ac = false;
    cpu.a = 0xf1u8.into();
    cpu.emulate(&mut Quiet);
    assert_eq!(cpu.a, 0xf0);
    assert_eq!(cpu.conditions, flags(true, false, false, true, false));
}

#[test]
fn xra_clears_carry_and_auxiliary_carry() {
    let mut cpu = cpu_with(&[0xa8, 0xaf]);
    cpu.a = 0x5cu8.into();
    cpu.b = 0x78u8.into();
    cpu.conditions = flags(true, true, true, false, true);
    assert_eq!(cpu.emulate(&mut Quiet), 4);
    assert_eq!(cpu.a, 0x24);
    assert_eq!(cpu.conditions, flags(false, false, false, true, false));
    cpu.emulate(&mut Quiet);
    assert_eq!(cpu.a, 0x00);
    assert_eq!(cpu.conditions, flags(false, true, false, true, false));
}

#[test]
fn xri_sets_auxiliary_carry_for_a_result_above_fifteen() {
    let mut cpu = cpu_with(&[0xee, 0x81, 0xee, 0xb0]);
    cpu.a = 0x3bu8.into();
    cpu.conditions.cy = true;
    assert_eq!(cpu.emulate(&mut Quiet), 7);
    assert_eq!(cpu.a, 0xba);
    assert_eq!(cpu.conditions, flags(true, false, true, false, false));
    cpu.emulate(&mut Quiet);
    assert_eq!(cpu.a, 0x0a);
    assert_eq!(cpu.conditions, flags(false, false, false, true, false));
}

#[test]
fn ora_clears_carry_and_auxiliary_carry() {
    let mut cpu = cpu_with(&[0xb1, 0xb6]);
    cpu.a = 0x33u8.into();
    cpu.c = 0x0fu8.into();
    cpu.conditions = flags(true, true, true, false, true);
    assert_eq!(cpu.emulate(&mut Quiet), 4);
    assert_eq!(cpu.a, 0x3f);
    assert_eq!(cpu.conditions, flags(false, false, false, true, false));
    cpu.h = 0x21u8.into();
    cpu.l = 0x00u8.into();
    cpu.memory.write(0x2100, 0x80);
    assert_eq!(cpu.emulate(&mut Quiet), 7);
    assert_eq!(cpu.a, 0xbf);
    assert_eq!(cpu.conditions, flags(true, false, false, false, false));
}

#[test]
fn ori_keeps_auxiliary_carry() {
    let mut cpu = cpu_with(&[0xf6, 0x0f]);
    cpu.a = 0xb5u8.into();
    cpu.conditions = flags(false, true, true, true, true);
    assert_eq!(cpu.emulate(&mut Quiet), 7);
    assert_eq!(cpu.a, 0xbf);
    assert_eq!(cpu.conditions, flags(true, false, true, false, false));
    assert_eq!(cpu.pc, 2);
}

#[test]
fn rlc_turns_left_and_copies_bit_seven_to_carry() {
    let mut cpu = cpu_with(&[0x07, 0x07]);
    cpu.a = 0xf2u8.into();
    cpu.conditions = flags(true, true, true, true, false);
    assert_eq!(cpu.emulate(&mut Quiet), 4);
    assert_eq!(cpu.a, 0xe5);
    assert_eq!(cpu.conditions, flags(true, true, true, true, true));
    cpu.a = 0x7fu8.into();
    cpu.emulate(&mut Quiet);
    assert_eq!(cpu.a, 0xfe);
    assert!(!cpu.conditions.cy);
}

#[test]
fn rrc_turns_right_and_copies_bit_zero_to_carry() {
    let mut cpu = cpu_with(&[0x0f, 0x0f]);
    cpu.a = 0xf2u8.into();
    cpu.conditions.cy = true;
    assert_eq!(cpu.emulate(&mut Quiet), 4);
    assert_eq!(cpu.a, 0x79);
    assert!(!cpu.conditions.cy);
    cpu.emulate(&mut Quiet);
    assert_eq!(cpu.a, 0xbc);
    assert!(cpu.conditions.cy);
}

#[test]
fn ral_turns_left_through_carry() {
    let mut cpu = cpu_with(&[0x17, 0x17]);
    cpu.a = 0xb5u8.into();
    assert_eq!(cpu.emulate(&mut Quiet), 4);
    assert_eq!(cpu.a, 0x6a);
    assert!(cpu.conditions.cy);
    cpu.emulate(&mut Quiet);
    assert_eq!(cpu.a, 0xd5);
    assert!(!cpu.conditions.cy);
}

#[test]
fn rar_turns_right_through_carry() {
    let mut cpu = cpu_with(&[0x1f, 0x1f]);
    cpu.a = 0x6au8.into();
    cpu.conditions.cy = true;
    assert_eq!(cpu.emulate(&mut Quiet), 4);
    assert_eq!(cpu.a, 0xb5);
    assert!(!cpu.conditions.cy);
    cpu.emulate(&mut Quiet);
    assert_eq!(cpu.a, 0x5a);
    assert!(cpu.conditions.cy);
}

#[test]
fn rotates_touch_carry_only() {
    for opcode in [0x07u8, 0x0f, 0x17, 0x1f] {
        let mut cpu = cpu_with(&[opcode]);
        cpu.a = 0x00u8.into();
        cpu.conditions = flags(true, true, true, true, false);
        cpu.emulate(&mut Quiet);
        assert_eq!(cpu.a, 0x00);
        assert_eq!(cpu.conditions, flags(true, true, true, true, false));
    }
}

#[test]
fn stc_cmc_and_cma() {
    let mut cpu = cpu_with(&[0x37, 0x3f, 0x3f, 0x2f]);
    cpu.a = 0x51u8.into();
    cpu.conditions = flags(true, false, true, false, false);
    assert_eq!(cpu.emulate(&mut Quiet), 4);
    assert_eq!(cpu.conditions, flags(true, false, true, false, true));
    assert_eq!(cpu.emulate(&mut Quiet), 4);
    assert_eq!(cpu.conditions, flags(true, false, true, false, false));
    cpu.emulate(&mut Quiet);
    assert_eq!(cpu.conditions, flags(true, false, true, false, true));
    assert_eq!(cpu.emulate(&mut Quiet), 4);
    assert_eq!(cpu.a, 0xae);
    assert_eq!(cpu.conditions, flags(true, false, true, false, true));
    assert_eq!(cpu.pc, 4);
}
