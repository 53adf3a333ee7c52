use gbc_core::memory::{MappedMemory, Memory, MemoryError, Request};

#[test]
fn fixed_rom_maps_to_itself() {
    let mut m = Memory::new();
    assert_eq!(m.map(0x0000), Ok(MappedMemory::Rom(0x0000)));
    assert_eq!(m.map(0x3fff), Ok(MappedMemory::Rom(0x3fff)));
    m.select_rom_bank(7);
    assert_eq!(m.map(0x1234), Ok(MappedMemory::Rom(0x1234)));
}

#[test]
fn switchable_rom_follows_bank() {
    let mut m = Memory::new();
    assert_eq!(m.map(0x4000), Ok(MappedMemory::Rom(0x4000)));
    m.select_rom_bank(3);
    assert_eq!(m.map(0x4000), Ok(MappedMemory::Rom(0xc000)));
    m.select_rom_bank(4);
    assert_eq!(m.map(0x4000), Ok(MappedMemory::Rom(0x10000)));
    m.select_rom_bank(255);
    assert_eq!(m.map(0x7fff), Ok(MappedMemory::Rom(0x7fff + 254 * 0x4000)));
}

#[test]
fn switchable_work_follows_bank() {
    let mut m = Memory::new();
    assert_eq!(m.map(0xd000), Ok(MappedMemory::Work(0x1000)));
    m.select_work_bank(2);
    assert_eq!(m.map(0xd123), Ok(MappedMemory::Work(0x2123)));
    assert_eq!(m.map(0xc123), Ok(MappedMemory::Work(0x0123)));
}

#[test]
fn illegal_regions_fail() {
    let mut m = Memory::new();
    for a in [0xe000u16, 0xf123, 0xfdff, 0xfea0, 0xfeff] {
        assert_eq!(m.map(a), Err(MemoryError::IllegalAddress(a)));
        assert_eq!(m.read_byte(a), Err(MemoryError::IllegalAddress(a)));
        assert_eq!(m.write_byte(a, 1), Err(MemoryError::IllegalAddress(a)));
    }
}

#[test]
fn echo_read_fails() {
    let m = Memory::new();
    assert_eq!(m.read_byte(0xe000), Err(MemoryError::IllegalAddress(0xe000)));
}

#[test]
fn other_regions_classified() {
    let mut m = Memory::new();
    assert_eq!(m.map(0x8000), Ok(MappedMemory::Video(0x2000)));
    m.select_video_bank(true);
    assert_eq!(m.map(0x8000), Ok(MappedMemory::Video(0x0000)));
    assert_eq!(m.map(0xa010), Ok(MappedMemory::ExternalRam(0x10)));
    assert_eq!(m.map(0xfe10), Ok(MappedMemory::Oam(0x10)));
    assert_eq!(m.map(0xff10), Ok(MappedMemory::Io(0x10)));
    assert_eq!(m.map(0xff90), Ok(MappedMemory::Hram(0x10)));
    assert_eq!(m.map(0xffff), Ok(MappedMemory::InterruptRegister));
}

#[test]
fn unwired_regions_fail() {
    let mut m = Memory::new();
    for a in [0x8000u16, 0xfe00, 0xff00, 0xff80, 0xffff] {
        assert_eq!(m.read_byte(a), Err(MemoryError::UnimplementedRegion(a)));
    }
    assert_eq!(m.write_byte(0xa000, 1), Err(MemoryError::UnimplementedRegion(0xa000)));
}

#[test]
fn rom_is_read_only() {
    let mut m = Memory::new();
    m.set_cartridge(&[1, 2, 3]);
    assert_eq!(m.write_byte(0x0001, 9), Err(MemoryError::ReadOnlyViolation(0x0001)));
    assert_eq!(m.read_byte(0x0001), Ok(2));
    assert_eq!(m.read_byte(0x0003), Err(MemoryError::OutOfRange(0x0003)));
}

#[test]
fn work_ram_round_trip() {
    let mut m = Memory::new();
    assert_eq!(m.write_byte(0xc000, 0xab), Ok(()));
    assert_eq!(m.read_byte(0xc000), Ok(0xab));
    assert_eq!(m.write_byte(0xd000, 0xcd), Ok(()));
    m.select_work_bank(2);
    assert_eq!(m.read_byte(0xd000), Ok(0));
    m.select_work_bank(1);
    assert_eq!(m.read_byte(0xd000), Ok(0xcd));
    m.select_work_bank(64);
    assert_eq!(m.read_byte(0xd000), Err(MemoryError::OutOfRange(0xd000)));
}

#[test]
fn sized_reads() {
    let mut m = Memory::new();
    m.set_cartridge(&[1, 2, 3, 4]);
    assert_eq!(m.read_sized(Request::<2>(0x0001)), Ok([2, 3]));
    assert_eq!(m.read_sized(Request::<4>(0x0000)), Ok([1, 2, 3, 4]));
    assert_eq!(m.read_sized(Request::<2>(0x0003)), Err(MemoryError::OutOfRange(0x0003)));
}

#[test]
fn program_byte_advances() {
    let mut m = Memory::new();
    m.set_cartridge(&[7, 8]);
    let mut pc: u16 = 1;
    assert_eq!(m.next_program_byte(&mut pc), Ok(8));
    assert_eq!(pc, 2);
    assert_eq!(m.next_program_byte(&mut pc), Err(MemoryError::OutOfRange(2)));
    assert_eq!(pc, 2);
}
