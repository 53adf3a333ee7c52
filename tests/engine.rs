use gbc_core::gb::{GameboyColor, StepError};
use gbc_core::memory::MemoryError;

fn machine_with(program: &[u8]) -> GameboyColor {
    let mut cart = vec![0u8; 0x8000];
    cart[0x100..0x100 + program.len()].copy_from_slice(program);
    let mut gb = GameboyColor::new();
    gb.set_cartridge(&cart).unwrap();
    gb
}

#[test]
fn load_sets_entry_point() {
    let gb = machine_with(&[]);
    assert_eq!(gb.registers().pc, 0x0100);
    assert_eq!(gb.registers().sp, 0);
    assert_eq!(gb.memory().read_byte(0x0000), Ok(0));
}

#[test]
fn jump_absolute_from_entry_point() {
    let mut gb = machine_with(&[0xc3, 0x50, 0x00]);
    assert_eq!(gb.step(), Ok(16));
    assert_eq!(gb.registers().pc, 0x0050);
}

#[test]
fn increment_b_once() {
    let mut gb = machine_with(&[0x04]);
    assert_eq!(gb.step(), Ok(4));
    let regs = gb.registers();
    assert_eq!(regs.pc, 0x0101);
    assert_eq!(regs.b, 1);
    assert!(!regs.zero_flag());
    assert_eq!(regs.f & 0x40, 0);
}

#[test]
fn xor_a_with_b_zero() {
    let mut gb = machine_with(&[0xa8]);
    assert_eq!(gb.step(), Ok(4));
    let regs = gb.registers();
    assert_eq!(regs.a, 0);
    assert!(regs.zero_flag());
    assert_eq!(regs.f, 0x80);
}

#[test]
fn load_through_echo_fails() {
    // LD BC, 0xE000; LD A, (BC)
    let mut gb = machine_with(&[0x01, 0x00, 0xe0, 0x0a]);
    assert_eq!(gb.step(), Ok(12));
    assert_eq!(gb.registers().read_pair(gbc_core::registers::DReg::BC), 0xe000);
    assert_eq!(gb.step(), Err(StepError::Memory(MemoryError::IllegalAddress(0xe000))));
}

#[test]
fn unknown_opcode_reports_byte_and_address() {
    let mut gb = machine_with(&[0x00, 0xd3]);
    assert_eq!(gb.step(), Ok(4));
    assert_eq!(gb.step(), Err(StepError::UnimplementedOpcode { opcode: 0xd3, pc: 0x0101 }));
}

#[test]
fn relative_jump_backwards() {
    let mut gb = machine_with(&[0x18, 0xfe]);
    assert_eq!(gb.step(), Ok(12));
    assert_eq!(gb.registers().pc, 0x0100);
}

#[test]
fn relative_jump_forwards() {
    let mut gb = machine_with(&[0x18, 0x05]);
    assert_eq!(gb.step(), Ok(12));
    assert_eq!(gb.registers().pc, 0x0107);
}

#[test]
fn conditional_jump_taken_and_not() {
    // JR Z, +3 with the zero flag clear: not taken.
    let mut gb = machine_with(&[0x28, 0x03, 0x20, 0x03]);
    assert_eq!(gb.step(), Ok(8));
    assert_eq!(gb.registers().pc, 0x0102);
    // JR NZ, +3 with the zero flag clear: taken.
    assert_eq!(gb.step(), Ok(12));
    assert_eq!(gb.registers().pc, 0x0107);
}

#[test]
fn register_moves_and_add() {
    // LD B, 0x12; LD A, B; ADD A, B
    let mut gb = machine_with(&[0x06, 0x12, 0x78, 0x80]);
    assert_eq!(gb.step(), Ok(8));
    assert_eq!(gb.step(), Ok(4));
    assert_eq!(gb.registers().a, 0x12);
    assert_eq!(gb.step(), Ok(4));
    assert_eq!(gb.registers().a, 0x24);
    assert_eq!(gb.registers().f, 0);
}

#[test]
fn decrement_sets_subtraction_and_carry() {
    let mut gb = machine_with(&[0x05]);
    assert_eq!(gb.step(), Ok(4));
    let regs = gb.registers();
    assert_eq!(regs.b, 0xff);
    assert_eq!(regs.f, 0x70);
    assert!(regs.carry_flag());
}

#[test]
fn store_and_load_through_hl() {
    // LD BC, 0xC010; LD (BC), A after INC A; LD H, B; LD L, C; LD D, (HL)
    let mut gb = machine_with(&[0x01, 0x10, 0xc0, 0x3c, 0x02, 0x60, 0x69, 0x56]);
    assert_eq!(gb.step(), Ok(12));
    assert_eq!(gb.step(), Ok(4));
    assert_eq!(gb.step(), Ok(8));
    assert_eq!(gb.memory().read_byte(0xc010), Ok(1));
    assert_eq!(gb.step(), Ok(4));
    assert_eq!(gb.step(), Ok(4));
    assert_eq!(gb.step(), Ok(8));
    assert_eq!(gb.registers().d, 1);
}

#[test]
fn store_into_rom_fails() {
    // LD (BC), A with BC = 0
    let mut gb = machine_with(&[0x02]);
    assert_eq!(gb.step(), Err(StepError::Memory(MemoryError::ReadOnlyViolation(0))));
}

#[test]
fn rotate_and_compare() {
    // LD BC, 0x0081; LD A, C; RLCA; CP 0x03
    let mut gb = machine_with(&[0x01, 0x81, 0x00, 0x79, 0x07, 0xfe, 0x03]);
    assert_eq!(gb.step(), Ok(12));
    assert_eq!(gb.step(), Ok(4));
    assert_eq!(gb.step(), Ok(4));
    assert_eq!(gb.registers().a, 0x03);
    assert_eq!(gb.registers().f, 0x10);
    assert_eq!(gb.step(), Ok(8));
    assert_eq!(gb.registers().a, 0x03);
    assert_eq!(gb.registers().f, 0xc0);
}

#[test]
fn and_immediate_and_pairs() {
    // INC A; AND 0x02; INC BC; DEC BC; DEC BC; ADD HL, BC
    let mut gb = machine_with(&[0x3c, 0xe6, 0x02, 0x03, 0x0b, 0x0b, 0x09]);
    assert_eq!(gb.step(), Ok(4));
    assert_eq!(gb.step(), Ok(8));
    assert_eq!(gb.registers().a, 0);
    assert_eq!(gb.registers().f, 0xa0);
    assert_eq!(gb.step(), Ok(8));
    assert_eq!(gb.step(), Ok(8));
    assert_eq!(gb.step(), Ok(8));
    assert_eq!(gb.registers().read_pair(gbc_core::registers::DReg::BC), 0xffff);
    assert_eq!(gb.step(), Ok(8));
    assert_eq!(gb.registers().read_pair(gbc_core::registers::DReg::HL), 0xffff);
    assert_eq!(gb.registers().f, 0x80);
}

#[test]
fn store_stack_pointer() {
    // LD (0xC020), SP with SP = 0
    let mut gb = machine_with(&[0x08, 0x20, 0xc0]);
    assert_eq!(gb.step(), Ok(20));
    assert_eq!(gb.registers().pc, 0x0103);
    assert_eq!(gb.memory().read_byte(0xc020), Ok(0));
}

#[test]
fn high_page_load_is_unwired() {
    let mut gb = machine_with(&[0xf0, 0x44]);
    assert_eq!(gb.step(), Err(StepError::Memory(MemoryError::UnimplementedRegion(0xff44))));
}

#[test]
fn halt_stops_fetching() {
    let mut gb = machine_with(&[0x76, 0x04]);
    assert_eq!(gb.step(), Ok(4));
    assert!(gb.is_halted());
    assert_eq!(gb.step(), Ok(4));
    assert_eq!(gb.registers().pc, 0x0101);
    assert_eq!(gb.registers().b, 0);
}

#[test]
fn render_is_empty() {
    let gb = GameboyColor::new();
    assert!(gb.render().is_empty());
}

#[test]
fn step_without_cartridge_fails() {
    let mut gb = GameboyColor::new();
    assert_eq!(gb.step(), Err(StepError::Memory(MemoryError::OutOfRange(0))));
}
