use i8080::listing::{hex_byte, hex_word};
use i8080::Cpu;

#[test]
fn hexadecimal_bytes_and_words() {
    assert_eq!(hex_byte(0x00), "00");
    assert_eq!(hex_byte(0x0a), "0a");
    assert_eq!(hex_byte(0xf0), "f0");
    assert_eq!(hex_byte(0xff), "ff");
    assert_eq!(hex_word(0x0000), "0000");
    assert_eq!(hex_word(0x004a), "004a");
    assert_eq!(hex_word(0x1a2b), "1a2b");
    assert_eq!(hex_word(0xffff), "ffff");
    for byte in 0u8..=255 {
        assert_eq!(hex_byte(byte), format!("{:02x}", byte));
    }
    for word in [0u16, 1, 0x00ff, 0x0100, 0x7fff, 0x8000, 0xabcd, 0xffff] {
        assert_eq!(hex_word(word), format!("{:04x}", word));
    }
}

#[test]
fn listing_of_an_instruction_of_one_byte() {
    let mut cpu = Cpu::new();
    cpu.load_into_rom(&[0x41], 0x01ff).unwrap();
    cpu.pc = 0x01ffu16.into();
    assert_eq!(cpu.listing(), "01ff MOV B, C");
}

#[test]
fn listing_of_an_instruction_of_two_bytes() {
    let mut cpu = Cpu::new();
    cpu.load_into_rom(&[0xc6, 0x06], 0).unwrap();
    assert_eq!(cpu.listing(), "0000 ADI 06");
    cpu.load_into_rom(&[0xdb, 0xa1], 0x1000).unwrap();
    cpu.pc = 0x1000u16.into();
    assert_eq!(cpu.listing(), "1000 IN a1");
}

#[test]
fn listing_of_an_instruction_of_three_bytes() {
    let mut cpu = Cpu::new();
    cpu.load_into_rom(&[0xc3, 0x34, 0x12], 0xabc0).unwrap();
    cpu.pc = 0xabc0u16.into();
    assert_eq!(cpu.listing(), "abc0 JMP 1234");
    cpu.load_into_rom(&[0xfd, 0x0f, 0xf0], 0x0010).unwrap();
    cpu.pc = 0x0010u16.into();
    assert_eq!(cpu.listing(), "0010 0xfd f00f");
}

#[test]
fn listing_of_an_undocumented_byte() {
    let mut cpu = Cpu::new();
    cpu.load_into_rom(&[0xcb, 0x12, 0x34], 0).unwrap();
    assert_eq!(cpu.listing(), "0000 0xcb");
}

#[test]
fn dump_of_the_registers() {
    let mut cpu = Cpu::new();
    assert_eq!(
        cpu.dump(),
        "   a   bc   de   hl   pc   sp flags\n0000 0000 0000 0000 0000 0000 ....."
    );
    cpu.a = 0x4au8.into();
    cpu.b = 0x01u8.into();
    cpu.c = 0x23u8.into();
    cpu.d = 0x45u8.into();
    cpu.e = 0x67u8.into();
    cpu.h = 0x89u8.into();
    cpu.l = 0xabu8.into();
    cpu.pc = 0xcdefu16.into();
    cpu.sp = 0x2400u16.into();
    cpu.conditions.z = true;
    cpu.conditions.cy = true;
    assert_eq!(
        cpu.dump(),
        "   a   bc   de   hl   pc   sp flags\n004a 0123 4567 89ab cdef 2400 .z..cy"
    );
}
