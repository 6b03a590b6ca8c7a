use i8080::condition_codes::ConditionCodes;
use i8080::state::PortRequest;
use i8080::instruction::StackPair;
use i8080::state::Fault;
use i8080::{Cpu, Machine};

struct Quiet;

impl Machine for Quiet {
    fn input(&mut self, _: u8) -> u8 {
        0
    }

    fn output(&mut self, _: u8, _: u8) {}
}

/// A device that keeps what went through it.
struct Recorder {
    reads: Vec<u8>,
    writes: Vec<(u8, u8)>,
    answer: u8,
}

impl Machine for Recorder {
    fn input(&mut self, port: u8) -> u8 {
        self.reads.push(port);
        self.answer
    }

    fn output(&mut self, port: u8, byte: u8) {
        self.writes.push((port, byte));
    }
}

fn cpu_with(program: &[u8]) -> Cpu {
    let mut cpu = Cpu::new();
    cpu.load_into_rom(program, 0).unwrap();
    cpu
}

fn flags(s: bool, z: bool, ac: bool, p: bool, cy: bool) -> ConditionCodes {
    ConditionCodes { s, z, ac, p, cy }
}

/// The flags with which the condition of the branch opcode `0b11ccc...` holds, and
/// those with which it does not.
fn meeting(condition: u8) -> (ConditionCodes, ConditionCodes) {
    let clear = flags(false, false, false, false, false);
    match condition {
        0 => (clear, ConditionCodes { z: true, ..clear }),
        1 => (ConditionCodes { z: true, ..clear }, clear),
        2 => (clear, ConditionCodes { cy: true, ..clear }),
        3 => (ConditionCodes { cy: true, ..clear }, clear),
        4 => (clear, ConditionCodes { p: true, ..clear }),
        5 => (ConditionCodes { p: true, ..clear }, clear),
        6 => (clear, ConditionCodes { s: true, ..clear }),
        _ => (ConditionCodes { s: true, ..clear }, clear),
    }
}

#[test]
fn jmp_and_its_undocumented_twin_go_to_their_operand() {
    for opcode in [0xc3u8, 0xcb] {
        let mut cpu = cpu_with(&[opcode, 0x00, 0x3e]);
        assert_eq!(cpu.fault(), None);
        assert_eq!(cpu.emulate(&mut Quiet), 10);
        assert_eq!(cpu.pc, 0x3e00);
        assert_eq!(cpu.sp, 0);
    }
}

#[test]
fn conditional_jumps_test_one_flag() {
    for condition in 0u8..8 {
        let opcode = 0xc2 + 8 * condition;
        let (taken, passed) = meeting(condition);
        let mut cpu = cpu_with(&[opcode, 0x34, 0x12]);
        cpu.conditions = taken;
        assert_eq!(cpu.emulate(&mut Quiet), 10);
        assert_eq!(cpu.pc, 0x1234);
        assert_eq!(cpu.conditions, taken);
        let mut cpu = cpu_with(&[opcode, 0x34, 0x12]);
        cpu.conditions = passed;
        assert_eq!(cpu.emulate(&mut Quiet), 10);
        assert_eq!(cpu.pc, 0x0003);
        assert_eq!(cpu.conditions, passed);
    }
}

#[test]
fn call_pushes_the_address_of_the_next_instruction() {
    for opcode in [0xcdu8, 0xdd, 0xed, 0xfd] {
        let mut cpu = Cpu::new();
        cpu.load_into_rom(&[opcode, 0x78, 0x56], 0x1234).unwrap();
        cpu.pc = 0x1234u16.into();
        cpu.sp = 0x2400u16.into();
        assert_eq!(cpu.emulate(&mut Quiet), 17);
        assert_eq!(cpu.pc, 0x5678);
        assert_eq!(cpu.sp, 0x23fe);
        assert_eq!(cpu.memory.read(0x23ff), 0x12);
        assert_eq!(cpu.memory.read(0x23fe), 0x37);
    }
}

#[test]
fn call_reads_its_target_after_the_push() {
    let mut cpu = cpu_with(&[0xcd, 0x34, 0x12]);
    cpu.sp = 0x0003u16.into();
    cpu.emulate(&mut Quiet);
    assert_eq!(cpu.memory.read(0x0002), 0x00);
    assert_eq!(cpu.memory.read(0x0001), 0x03);
    assert_eq!(cpu.pc, 0x0003);
    assert_eq!(cpu.sp, 0x0001);
}

#[test]
fn conditional_calls_test_one_flag() {
    let cycles = [17u8, 10, 17, 10, 17, 17, 17, 17];
    for condition in 0u8..8 {
        let opcode = 0xc4 + 8 * condition;
        let (taken, passed) = meeting(condition);
        let mut cpu = cpu_with(&[opcode, 0x00, 0x30]);
        cpu.sp = 0x2400u16.into();
        cpu.conditions = taken;
        assert_eq!(cpu.emulate(&mut Quiet), cycles[condition as usize]);
        assert_eq!(cpu.pc, 0x3000);
        assert_eq!(cpu.sp, 0x23fe);
        assert_eq!(cpu.memory.read(0x23ff), 0x00);
        assert_eq!(cpu.memory.read(0x23fe), 0x03);
        let mut cpu = cpu_with(&[opcode, 0x00, 0x30]);
        cpu.sp = 0x2400u16.into();
        cpu.conditions = passed;
        assert_eq!(cpu.emulate(&mut Quiet), cycles[condition as usize]);
        assert_eq!(cpu.pc, 0x0003);
        assert_eq!(cpu.sp, 0x2400);
        assert_eq!(cpu.memory.read(0x23fe), 0x00);
    }
}

#[test]
fn ret_pops_the_program_counter() {
    for opcode in [0xc9u8, 0xd9] {
        let mut cpu = cpu_with(&[opcode]);
        cpu.sp = 0x23feu16.into();
        cpu.memory.write(0x23fe, 0x37);
        cpu.memory.write(0x23ff, 0x12);
        assert_eq!(cpu.emulate(&mut Quiet), 10);
        assert_eq!(cpu.pc, 0x1237);
        assert_eq!(cpu.sp, 0x2400);
    }
}

#[test]
fn conditional_returns_test_one_flag() {
    for condition in 0u8..8 {
        let opcode = 0xc0 + 8 * condition;
        let (taken, passed) = meeting(condition);
        let mut cpu = cpu_with(&[opcode]);
        cpu.sp = 0x23feu16.into();
        cpu.memory.write(0x23fe, 0xcd);
        cpu.memory.write(0x23ff, 0xab);
        cpu.conditions = taken;
        assert_eq!(cpu.emulate(&mut Quiet), 11);
        assert_eq!(cpu.pc, 0xabcd);
        assert_eq!(cpu.sp, 0x2400);
        let mut cpu = cpu_with(&[opcode]);
        cpu.sp = 0x23feu16.into();
        cpu.conditions = passed;
        assert_eq!(cpu.emulate(&mut Quiet), 11);
        assert_eq!(cpu.pc, 0x0001);
        assert_eq!(cpu.sp, 0x23fe);
    }
}

#[test]
fn call_then_ret_comes_back_behind_the_call() {
    let mut cpu = cpu_with(&[0xcd, 0x10, 0x00]);
    cpu.load_into_rom(&[0xc9], 0x0010).unwrap();
    cpu.sp = 0x0000u16.into();
    cpu.emulate(&mut Quiet);
    assert_eq!(cpu.pc, 0x0010);
    assert_eq!(cpu.sp, 0xfffe);
    cpu.emulate(&mut Quiet);
    assert_eq!(cpu.pc, 0x0003);
    assert_eq!(cpu.sp, 0x0000);
}

#[test]
fn rst_pushes_the_program_counter_and_goes_to_eight_times_its_number() {
    for number in 0u16..8 {
        let opcode = 0xc7 + 8 * number as u8;
        let mut cpu = Cpu::new();
        cpu.load_into_rom(&[opcode], 0x1234).unwrap();
        cpu.pc = 0x1234u16.into();
        cpu.sp = 0x2400u16.into();
        assert_eq!(cpu.emulate(&mut Quiet), 11);
        assert_eq!(cpu.pc, 8 * number);
        assert_eq!(cpu.sp, 0x23fe);
        assert_eq!(cpu.memory.read(0x23ff), 0x12);
        assert_eq!(cpu.memory.read(0x23fe), 0x34);
    }
}

#[test]
fn interrupt_is_a_restart_that_switches_interrupts_off() {
    let mut cpu = Cpu::new();
    cpu.pc = 0x1a2bu16.into();
    cpu.sp = 0x2400u16.into();
    cpu.int_enable = true;
    cpu.interrupt(8);
    assert_eq!(cpu.pc, 0x0008);
    assert!(!cpu.int_enable);
    assert_eq!(cpu.sp, 0x23fe);
    assert_eq!(cpu.memory.read(0x23ff), 0x1a);
    assert_eq!(cpu.memory.read(0x23fe), 0x2b);
    cpu.interrupt(16);
    assert_eq!(cpu.pc, 0x0010);
    assert_eq!(cpu.sp, 0x23fc);
    assert_eq!(cpu.memory.read(0x23fd), 0x00);
    assert_eq!(cpu.memory.read(0x23fc), 0x08);
    assert!(!cpu.int_enable);
}

#[test]
fn interrupt_takes_bits_three_to_five_of_its_code() {
    let mut cpu = Cpu::new();
    cpu.interrupt(0xff);
    assert_eq!(cpu.pc, 0x0038);
    cpu.interrupt(0xcf);
    assert_eq!(cpu.pc, 0x0008);
    cpu.interrupt(0x07);
    assert_eq!(cpu.pc, 0x0000);
}

#[test]
fn push_and_pop_move_a_pair_through_the_stack() {
    let mut cpu = cpu_with(&[0xd5, 0xe1]);
    cpu.d = 0x8fu8.into();
    cpu.e = 0x9du8.into();
    cpu.sp = 0x3a2cu16.into();
    assert_eq!(cpu.emulate(&mut Quiet), 11);
    assert_eq!(cpu.memory.read(0x3a2b), 0x8f);
    assert_eq!(cpu.memory.read(0x3a2a), 0x9d);
    assert_eq!(cpu.sp, 0x3a2a);
    assert_eq!(cpu.emulate(&mut Quiet), 10);
    assert_eq!((cpu.h, cpu.l), (0x8fu8.into(), 0x9du8.into()));
    assert_eq!(cpu.sp, 0x3a2c);
}

#[test]
fn push_psw_stores_the_flag_byte() {
    let mut cpu = cpu_with(&[0xf5]);
    cpu.a = 0x1fu8.into();
    cpu.conditions = flags(false, true, false, true, true);
    cpu.sp = 0x502au16.into();
    assert_eq!(cpu.emulate(&mut Quiet), 11);
    assert_eq!(cpu.memory.read(0x5029), 0x1f);
    assert_eq!(cpu.memory.read(0x5028), 0x47);
    assert_eq!(cpu.sp, 0x5028);
}

#[test]
fn pop_psw_loads_the_flags_from_the_five_flag_bits() {
    let mut cpu = cpu_with(&[0xf1]);
    cpu.sp = 0x2c00u16.into();
    cpu.memory.write(0x2c00, 0xc3);
    cpu.memory.write(0x2c01, 0xff);
    assert_eq!(cpu.emulate(&mut Quiet), 10);
    assert_eq!(cpu.a, 0xff);
    assert_eq!(cpu.conditions, flags(true, true, false, false, true));
    assert_eq!(cpu.sp, 0x2c02);
}

#[test]
fn push_pop_round_trip_for_every_pair_and_many_values() {
    let pairs = [StackPair::BC, StackPair::DE, StackPair::HL, StackPair::PSW];
    for pair in pairs {
        for first in [0x00u8, 0x01, 0x7f, 0x80, 0xa5, 0xff] {
            for second in [0x00u8, 0x02, 0x47, 0xd7, 0xff] {
                let mut cpu = Cpu::new();
                cpu.sp = 0x0001u16.into();
                match pair {
                    StackPair::BC => {
                        cpu.b = first.into();
                        cpu.c = second.into();
                    }
                    StackPair::DE => {
                        cpu.d = first.into();
                        cpu.e = second.into();
                    }
                    StackPair::HL => {
                        cpu.h = first.into();
                        cpu.l = second.into();
                    }
                    StackPair::PSW => {
                        cpu.a = first.into();
                        cpu.conditions = second.into();
                    }
                }
                let flags_before = cpu.conditions;
                cpu.push(pair);
                assert_eq!(cpu.sp, 0xffff);
                cpu.b = 0u8.into();
                cpu.c = 0u8.into();
                cpu.d = 0u8.into();
                cpu.e = 0u8.into();
                cpu.h = 0u8.into();
                cpu.l = 0u8.into();
                cpu.a = 0u8.into();
                cpu.conditions = 0u8.into();
                cpu.pop(pair);
                assert_eq!(cpu.sp, 0x0001);
                match pair {
                    StackPair::BC => assert_eq!((*cpu.b, *cpu.c), (first, second)),
                    StackPair::DE => assert_eq!((*cpu.d, *cpu.e), (first, second)),
                    StackPair::HL => assert_eq!((*cpu.h, *cpu.l), (first, second)),
                    StackPair::PSW => {
                        assert_eq!(*cpu.a, first);
                        assert_eq!(cpu.conditions, flags_before);
                    }
                }
            }
        }
    }
}

#[test]
fn a_push_into_the_rom_is_lost_while_a_mirror_is_set() {
    let mut cpu = cpu_with(&[0xc5, 0xc1]);
    cpu.memory.ram_mirror = Some(0x4000);
    cpu.sp = 0x2000u16.into();
    cpu.b = 0x12u8.into();
    cpu.c = 0x34u8.into();
    cpu.emulate(&mut Quiet);
    cpu.b = 0u8.into();
    cpu.c = 0u8.into();
    cpu.emulate(&mut Quiet);
    assert_eq!((cpu.b, cpu.c), (0x00u8.into(), 0x00u8.into()));
    assert_eq!(cpu.sp, 0x2000);
}

#[test]
fn ei_and_di() {
    let mut cpu = cpu_with(&[0xfb, 0xf3, 0xf3, 0xfb]);
    assert_eq!(cpu.emulate(&mut Quiet), 4);
    assert!(cpu.int_enable);
    assert_eq!(cpu.emulate(&mut Quiet), 4);
    assert!(!cpu.int_enable);
    cpu.emulate(&mut Quiet);
    assert!(!cpu.int_enable);
    cpu.emulate(&mut Quiet);
    assert!(cpu.int_enable);
    assert_eq!(cpu.pc, 4);
}

#[test]
fn out_hands_the_accumulator_to_the_port() {
    let mut cpu = cpu_with(&[0xd3, 0x05, 0x00]);
    cpu.a = 0x9au8.into();
    let mut device = Recorder { reads: vec![], writes: vec![], answer: 0 };
    assert_eq!(cpu.port_request(), PortRequest::Output { port: 5, byte: 0x9a });
    assert_eq!(cpu.emulate(&mut device), 3);
    assert_eq!(device.writes, vec![(5, 0x9a)]);
    assert!(device.reads.is_empty());
    assert_eq!(cpu.a, 0x9a);
    assert_eq!(cpu.pc, 2);
    assert_eq!(cpu.port_request(), PortRequest::Idle);
    cpu.emulate(&mut device);
    assert_eq!(device.writes.len(), 1);
}

#[test]
fn in_takes_the_byte_that_the_port_gives() {
    let mut cpu = cpu_with(&[0xdb, 0x03]);
    cpu.a = 0x11u8.into();
    cpu.conditions = flags(true, false, true, false, true);
    let mut device = Recorder { reads: vec![], writes: vec![], answer: 0xc4 };
    assert_eq!(cpu.port_request(), PortRequest::Input { port: 3 });
    assert_eq!(cpu.emulate(&mut device), 3);
    assert_eq!(device.reads, vec![3]);
    assert!(device.writes.is_empty());
    assert_eq!(cpu.a, 0xc4);
    assert_eq!(cpu.conditions, flags(true, false, true, false, true));
    assert_eq!(cpu.pc, 2);
}

#[test]
fn step_takes_the_port_byte_as_an_argument() {
    let mut cpu = cpu_with(&[0xdb, 0x01, 0x3c]);
    assert_eq!(cpu.step(0x7f), 3);
    assert_eq!(cpu.a, 0x7f);
    assert_eq!(cpu.step(0xee), 5);
    assert_eq!(cpu.a, 0x80);
    assert_eq!(cpu.pc, 3);
}

#[test]
fn hlt_is_a_fault() {
    let mut cpu = Cpu::new();
    cpu.load_into_rom(&[0x00, 0x76], 0x0100).unwrap();
    cpu.pc = 0x0100u16.into();
    assert_eq!(cpu.fault(), None);
    cpu.emulate(&mut Quiet);
    assert_eq!(cpu.fault(), Some(Fault::Halt { address: 0x0101 }));
}

#[test]
fn every_byte_but_hlt_is_executed() {
    for opcode in 0u8..=255 {
        let mut cpu = cpu_with(&[opcode]);
        if opcode == 0x76 {
            assert_eq!(cpu.fault(), Some(Fault::Halt { address: 0 }));
            assert_eq!(cpu.try_emulate(&mut Quiet), Err(Fault::Halt { address: 0 }));
            assert_eq!(cpu.pc, 0);
        } else {
            assert_eq!(cpu.fault(), None);
            let cycles = cpu.emulate(&mut Quiet);
            assert_eq!(cycles, i8080::Opcode(opcode).cycle_size());
        }
    }
}

#[test]
fn try_emulate_stops_at_a_halt_and_leaves_the_device_alone() {
    let mut cpu = cpu_with(&[0xd3, 0x02, 0x76]);
    cpu.a = 0x44u8.into();
    let mut device = Recorder { reads: vec![], writes: vec![], answer: 0 };
    assert_eq!(cpu.try_emulate(&mut device), Ok(3));
    assert_eq!(device.writes, vec![(2, 0x44)]);
    assert_eq!(cpu.pc, 2);
    assert_eq!(cpu.try_emulate(&mut device), Err(Fault::Halt { address: 2 }));
    assert_eq!(cpu.pc, 2);
    assert_eq!(cpu.a, 0x44);
    assert_eq!(device.writes.len(), 1);
    assert!(device.reads.is_empty());
}

#[test]
fn only_ei_and_di_move_the_interrupt_switch() {
    for opcode in 0u8..=255 {
        if opcode == 0x76 {
            continue;
        }
        for before in [false, true] {
            let mut cpu = cpu_with(&[opcode]);
            cpu.int_enable = before;
            let mut device = Recorder { reads: vec![], writes: vec![], answer: 0 };
            cpu.emulate(&mut device);
            let expected = match opcode {
                0xfb => true,
                0xf3 => false,
                _ => before,
            };
            assert_eq!(cpu.int_enable, expected);
            assert_eq!(device.reads.len(), if opcode == 0xdb { 1 } else { 0 });
            assert_eq!(device.writes.len(), if opcode == 0xd3 { 1 } else { 0 });
        }
    }
}
