use i8080::memory::{LoadError, Memory, ROM_END};
use i8080::pointer::Pointer;

#[test]
fn new_memory_is_zero_without_mirror() {
    let memory = Memory::new();
    assert!(memory.ram_mirror.is_none());
    assert!(memory.memory.iter().all(|byte| *byte == 0));
    assert_eq!(memory.memory.len(), 0x10000);
    let memory = Memory::default();
    assert!(memory.ram_mirror.is_none());
    assert!(memory.memory.iter().all(|byte| *byte == 0));
}

#[test]
fn load_copies_the_block() {
    let mut memory = Memory::new();
    assert_eq!(memory.load(&[1, 2, 3], 0x100), Ok(()));
    assert_eq!(memory.read(0x00ff), 0);
    assert_eq!(memory.read(0x0100), 1);
    assert_eq!(memory.read(0x0101), 2);
    assert_eq!(memory.read(0x0102), 3);
    assert_eq!(memory.read(0x0103), 0);
}

#[test]
fn load_of_an_empty_block_changes_nothing() {
    let mut memory = Memory::new();
    assert_eq!(memory.load(&[], 0xffff), Ok(()));
    assert!(memory.memory.iter().all(|byte| *byte == 0));
}

#[test]
fn load_up_to_the_last_address() {
    let mut memory = Memory::new();
    assert_eq!(memory.load(&[7, 8], 0xfffe), Ok(()));
    assert_eq!(memory.read(0xfffe), 7);
    assert_eq!(memory.read(0xffff), 8);
    let whole = vec![0x5a; 0x10000];
    assert_eq!(memory.load(&whole, 0), Ok(()));
    assert_eq!(memory.read(0), 0x5a);
    assert_eq!(memory.read(0xffff), 0x5a);
}

#[test]
fn load_past_the_last_address_is_refused() {
    let mut memory = Memory::new();
    memory.write(0xffff, 9);
    assert_eq!(
        memory.load(&[1, 2], 0xffff),
        Err(LoadError { position: 0xffff, length: 2 })
    );
    assert_eq!(memory.read(0xffff), 9);
    let too_long = vec![1; 0x10001];
    assert_eq!(
        memory.load(&too_long, 0),
        Err(LoadError { position: 0, length: 0x10001 })
    );
    assert_eq!(memory.read(0), 0);
    assert_eq!(
        memory.load(&[1, 2, 3], 0xfffe),
        Err(LoadError { position: 0xfffe, length: 3 })
    );
    assert_eq!(memory.read(0xfffe), 0);
}

#[test]
fn load_goes_past_write_protection() {
    let mut memory = Memory::new();
    memory.ram_mirror = Some(0x4000);
    assert_eq!(memory.load(&[0xaa], 0x0010), Ok(()));
    assert_eq!(memory.load(&[0xbb], 0x5000), Ok(()));
    assert_eq!(memory.memory[0x0010], 0xaa);
    assert_eq!(memory.memory[0x5000], 0xbb);
}

#[test]
fn without_mirror_every_write_is_kept() {
    let mut memory = Memory::new();
    memory.write(0x0000, 1);
    memory.write(0x1fff, 2);
    memory.write(0x2000, 3);
    memory.write(0xffff, 4);
    assert_eq!(memory.read(0x0000), 1);
    assert_eq!(memory.read(0x1fff), 2);
    assert_eq!(memory.read(0x2000), 3);
    assert_eq!(memory.read(0xffff), 4);
}

#[test]
fn with_mirror_writes_below_the_rom_end_are_dropped() {
    let mut memory = Memory::new();
    memory.load(&[0x11, 0x22], 0x1ffe).unwrap();
    memory.ram_mirror = Some(0x4000);
    assert_eq!(ROM_END, 0x2000);
    memory.write(0x0000, 9);
    memory.write(0x1ffe, 9);
    memory.write(0x1fff, 9);
    assert_eq!(memory.read(0x0000), 0);
    assert_eq!(memory.read(0x1ffe), 0x11);
    assert_eq!(memory.read(0x1fff), 0x22);
    memory.write(0x2000, 9);
    assert_eq!(memory.read(0x2000), 9);
    memory.write(0x3fff, 8);
    assert_eq!(memory.read(0x3fff), 8);
}

#[test]
fn with_mirror_writes_at_or_above_the_boundary_are_dropped() {
    let mut memory = Memory::new();
    memory.ram_mirror = Some(0x4000);
    memory.write(0x4000, 1);
    memory.write(0x4001, 2);
    memory.write(0xffff, 3);
    assert!(memory.memory.iter().all(|byte| *byte == 0));
    assert_eq!(memory.read(0x4000), 0);
    assert_eq!(memory.read(0x4001), 0);
    assert_eq!(memory.read(0xffff), 0);
}

#[test]
fn reads_above_the_boundary_wrap_into_the_window_above_it() {
    let mut memory = Memory::new();
    memory.load(&[0x10, 0x11, 0x12], 0x4000).unwrap();
    memory.load(&[0x7f], 0x7fff).unwrap();
    memory.load(&[0x33], 0x0001).unwrap();
    memory.ram_mirror = Some(0x4000);
    assert_eq!(memory.read(0x4000), 0x10);
    assert_eq!(memory.read(0x4001), 0x11);
    assert_eq!(memory.read(0x7fff), 0x7f);
    assert_eq!(memory.read(0x8000), 0x10);
    assert_eq!(memory.read(0x8001), 0x11);
    assert_eq!(memory.read(0xc002), 0x12);
    assert_eq!(memory.read(0xffff), 0x7f);
    assert_eq!(memory.read(0x0001), 0x33);
    assert_eq!(memory.read(0x3fff), 0x00);
}

#[test]
fn reads_wrap_for_a_boundary_that_is_no_power_of_two() {
    let mut memory = Memory::new();
    memory.load(&[0x42], 0x3000 + 0x0123).unwrap();
    memory.ram_mirror = Some(0x3000);
    assert_eq!(memory.read(0x3123), 0x42);
    assert_eq!(memory.read(0x6123), 0x42);
    assert_eq!(memory.read(0x9123), 0x42);
    assert_eq!(memory.read(0xc123), 0x42);
    assert_eq!(memory.read(0xf123), 0x42);
}

#[test]
fn a_high_boundary_leaves_addresses_above_it_in_place() {
    let mut memory = Memory::new();
    memory.load(&[0x5a], 0xffff).unwrap();
    memory.load(&[0x6b], 0xc000).unwrap();
    memory.ram_mirror = Some(0xc000);
    assert_eq!(memory.read(0xffff), 0x5a);
    assert_eq!(memory.read(0xc000), 0x6b);
}

#[test]
fn mirrored_write_then_read_shows_the_wrapped_cell() {
    let mut memory = Memory::new();
    memory.load(&[0x77], 0x4001).unwrap();
    memory.ram_mirror = Some(0x4000);
    memory.write(0x8001, 0x99);
    assert_eq!(memory.read(0x8001), 0x77);
    assert_eq!(memory.memory[0x8001], 0);
    assert_eq!(memory.memory[0x4001], 0x77);
}

#[test]
fn rom_write_never_changes_a_later_read() {
    let mut memory = Memory::new();
    memory.load(&[0xc3, 0x00, 0x01], 0).unwrap();
    memory.ram_mirror = Some(0x4000);
    for address in [0x0000u16, 0x0001, 0x0002, 0x0100, 0x1fff] {
        let before = memory.read(address);
        memory.write(address, before.wrapping_add(1));
        assert_eq!(memory.read(address), before);
    }
}

#[test]
fn a_boundary_of_zero_reads_in_place_and_drops_every_write() {
    let mut memory = Memory::new();
    memory.load(&[1, 2, 3], 0).unwrap();
    memory.load(&[4], 0x2345).unwrap();
    memory.ram_mirror = Some(0);
    assert_eq!(memory.read(0), 1);
    assert_eq!(memory.read(1), 2);
    assert_eq!(memory.read(2), 3);
    assert_eq!(memory.read(0x2345), 4);
    assert_eq!(memory.read(0xffff), 0);
    memory.write(0x2345, 9);
    memory.write(0x0000, 9);
    memory.write(0xffff, 9);
    assert_eq!(memory.read(0x2345), 4);
    assert_eq!(memory.read(0), 1);
    assert_eq!(memory.read(0xffff), 0);
}

#[test]
fn memory_is_indexed_by_addresses_and_by_ranges() {
    let mut memory = Memory::new();
    memory.load(&[1, 2, 3], 0x0004).unwrap();
    memory.load(&[9], 0x4001).unwrap();
    assert_eq!(memory[0x0004u16], 1);
    assert_eq!(memory[5u8], 2);
    assert_eq!(memory[Pointer(6)], 3);
    assert_eq!(&memory[4..7], &[1, 2, 3]);
    assert_eq!(memory[0..0x10000].len(), 0x10000);
    assert!(memory[7..7].is_empty());
    memory.ram_mirror = Some(0x4000);
    assert_eq!(memory[0x8001u16], 9);
    assert_eq!(memory[Pointer(0xc001)], 9);
    assert_eq!(memory[0x8001..0x8002], [0]);
    assert_eq!(memory[0x4001..0x4002], [9]);
    assert_eq!(memory[0xfffe..].len(), 2);
    assert_eq!(&memory[0x4001..][..1], &[9]);
    assert_eq!(memory[0..].len(), 0x10000);
    assert!(memory[0x10000..].is_empty());
}
