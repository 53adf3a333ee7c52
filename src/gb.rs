//! The execution engine: fetch, decode and execute over the register file and the memory map.
use vstd::prelude::*;
use crate::memory::{read_at, read_block, write_at, Address, Memory, MemoryError, MemoryState, Request};
use crate::registers::{
    add_flags, diff_u8, flag_byte, flag_set, flags, pair_value, reg_of_field, sub_flags, sum_u8, DReg,
    Reg, Registers,
};

verus! {

/// Machine cycles spent by an instruction.
pub type Cycles = usize;

/// Cycles per second of the processor clock.
pub const CLOCK_SPEED: usize = 4194304;

/// Frames per second that a host paces to.
pub const FRAME_RATE: usize = 60;

/// Cycles in one frame at the target frame rate.
pub const CYCLES_PER_FRAME: usize = CLOCK_SPEED / FRAME_RATE;

/// Why an instruction could not be carried out.
#[derive(Debug, Clone, Copy, PartialEq, Eq, Structural)]
pub enum StepError {
    /// A fetched byte with no handler, and the address it was fetched from.
    UnimplementedOpcode { opcode: u8, pc: u16 },
    /// A memory access failed.
    Memory(MemoryError),
}

/// What a 3-bit register field of an opcode names: a register, or the byte that `HL` points at.
#[derive(Debug, Clone, Copy, PartialEq, Eq, Structural)]
pub enum Operand {
    Register(Reg),
    IndirectHL,
}

/// The whole machine as plain values.
pub struct Machine {
    pub registers: Registers,
    pub memory: MemoryState,
    pub halted: bool,
}

impl Machine {
    /// This machine with another register file.
    pub open spec fn with_registers(self, registers: Registers) -> Machine {
        Machine { registers, ..self }
    }

    /// This machine with `pc` moved to `pc`.
    pub open spec fn with_pc(self, pc: u16) -> Machine {
        self.with_registers(Registers { pc, ..self.registers })
    }

    /// This machine with the 8-bit register `r` holding `v`.
    pub open spec fn with_reg(self, r: Reg, v: u8) -> Machine {
        self.with_registers(self.registers.set(r, v))
    }
}

/// `pc` moved by `n`, wrapping at the top of the address space.
pub open spec fn pc_plus(pc: u16, n: int) -> u16 {
    ((pc + n) % 0x10000) as u16
}

/// A displacement byte read as two's complement.
pub open spec fn signed_of(d: u8) -> int {
    if d < 128 {
        d as int
    } else {
        d - 256
    }
}

/// `a` rotated left by one bit.
pub open spec fn rotated_left(a: u8) -> u8 {
    ((a % 128) * 2 + a / 128) as u8
}

/// The operand that a 3-bit field names: `6` is `(HL)`, the others are registers.
pub open spec fn operand_of_field(field: u8) -> Operand {
    if field == 6 {
        Operand::IndirectHL
    } else {
        Operand::Register(reg_of_field(field))
    }
}

/// Cycles of an instruction that costs `base` on registers and `indirect` through `(HL)`.
pub open spec fn cost(o: Operand, base: Cycles, indirect: Cycles) -> Cycles {
    if o is IndirectHL {
        indirect
    } else {
        base
    }
}

/// Pairs a machine with a result value, passing an error through.
pub open spec fn with_value<T>(r: Result<Machine, StepError>, v: T) -> Result<(Machine, T), StepError> {
    match r {
        Ok(m) => Ok((m, v)),
        Err(e) => Err(e),
    }
}

/// The exec result `r` and the machine `m` after a call agree with the expected outcome.
pub open spec fn agrees<T>(r: Result<T, StepError>, m: Machine, expected: Result<(Machine, T), StepError>) -> bool {
    match expected {
        Ok((m2, v)) => r == Ok::<T, StepError>(v) && m == m2,
        Err(e) => r == Err::<T, StepError>(e),
    }
}

/// The byte read at `address`.
pub open spec fn spec_load(m: Machine, address: Address) -> Result<u8, StepError> {
    match read_at(m.memory, address) {
        Ok(v) => Ok(v),
        Err(e) => Err(StepError::Memory(e)),
    }
}

/// The machine after writing `v` at `address`.
pub open spec fn spec_store(m: Machine, address: Address, v: u8) -> Result<Machine, StepError> {
    match write_at(m.memory, address, v) {
        Ok(mem) => Ok(Machine { memory: mem, ..m }),
        Err(e) => Err(StepError::Memory(e)),
    }
}

/// Reads the byte at `pc` and advances `pc` by one.
pub open spec fn spec_fetch(m: Machine) -> Result<(Machine, u8), StepError> {
    match spec_load(m, m.registers.pc) {
        Ok(b) => Ok((m.with_pc(pc_plus(m.registers.pc, 1)), b)),
        Err(e) => Err(e),
    }
}

/// Reads the little-endian word at `pc` and advances `pc` by two.
pub open spec fn spec_fetch_word(m: Machine) -> Result<(Machine, u16), StepError> {
    match read_block(m.memory, m.registers.pc, 2) {
        Ok(s) => Ok((m.with_pc(pc_plus(m.registers.pc, 2)), pair_value(s[1], s[0]))),
        Err(e) => Err(StepError::Memory(e)),
    }
}

/// The value of an operand.
pub open spec fn spec_read_operand(m: Machine, o: Operand) -> Result<u8, StepError> {
    match o {
        Operand::Register(r) => Ok(m.registers.get(r)),
        Operand::IndirectHL => spec_load(m, m.registers.pair(DReg::HL)),
    }
}

/// The machine after writing `v` to an operand.
pub open spec fn spec_write_operand(m: Machine, o: Operand, v: u8) -> Result<Machine, StepError> {
    match o {
        Operand::Register(r) => Ok(m.with_reg(r, v)),
        Operand::IndirectHL => spec_store(m, m.registers.pair(DReg::HL), v),
    }
}

/// `INC`: adds one to the operand, flags as for an 8-bit addition.
#[verifier::opaque]
pub open spec fn spec_increment(m: Machine, o: Operand) -> Result<(Machine, Cycles), StepError> {
    match spec_read_operand(m, o) {
        Ok(v) => with_value(
            spec_write_operand(m.with_reg(Reg::F, add_flags(v, 1)), o, sum_u8(v, 1)),
            cost(o, 4, 12),
        ),
        Err(e) => Err(e),
    }
}

/// `DEC`: subtracts one from the operand, flags as for an 8-bit subtraction.
#[verifier::opaque]
pub open spec fn spec_decrement(m: Machine, o: Operand) -> Result<(Machine, Cycles), StepError> {
    match spec_read_operand(m, o) {
        Ok(v) => with_value(
            spec_write_operand(m.with_reg(Reg::F, sub_flags(v, 1)), o, diff_u8(v, 1)),
            cost(o, 4, 12),
        ),
        Err(e) => Err(e),
    }
}

/// `LD dst, src` over registers and `(HL)`.
#[verifier::opaque]
pub open spec fn spec_move(m: Machine, dst: Operand, src: Operand) -> Result<(Machine, Cycles), StepError> {
    match spec_read_operand(m, src) {
        Ok(v) => with_value(
            spec_write_operand(m, dst, v),
            if dst is IndirectHL || src is IndirectHL {
                8
            } else {
                4
            },
        ),
        Err(e) => Err(e),
    }
}

/// `ADD A, src`.
#[verifier::opaque]
pub open spec fn spec_add_a(m: Machine, src: Operand) -> Result<(Machine, Cycles), StepError> {
    match spec_read_operand(m, src) {
        Ok(v) => {
            let a = m.registers.a;
            Ok((m.with_reg(Reg::F, add_flags(a, v)).with_reg(Reg::A, sum_u8(a, v)), cost(src, 4, 8)))
        },
        Err(e) => Err(e),
    }
}

/// `XOR A, src`: only the zero flag can be set.
#[verifier::opaque]
pub open spec fn spec_xor_a(m: Machine, src: Operand) -> Result<(Machine, Cycles), StepError> {
    match spec_read_operand(m, src) {
        Ok(v) => {
            let r = m.registers.a ^ v;
            Ok((m.with_reg(Reg::A, r).with_reg(Reg::F, flag_byte(r == 0, false, false, false)), cost(src, 4, 8)))
        },
        Err(e) => Err(e),
    }
}

/// `JR d`: `pc` moves by the signed displacement, counted from the byte after the instruction.
#[verifier::opaque]
pub open spec fn spec_jump_relative(m: Machine) -> Result<(Machine, Cycles), StepError> {
    match spec_fetch(m) {
        Ok((m1, d)) => Ok((m1.with_pc(pc_plus(m1.registers.pc, signed_of(d))), 12)),
        Err(e) => Err(e),
    }
}

/// `JR NZ, d` and `JR Z, d`: the displacement byte is skipped when the jump is not taken.
#[verifier::opaque]
pub open spec fn spec_jump_relative_if(m: Machine, taken: bool) -> Result<(Machine, Cycles), StepError> {
    if taken {
        spec_jump_relative(m)
    } else {
        Ok((m.with_pc(pc_plus(m.registers.pc, 1)), 8))
    }
}

/// Loads a pair from the word after the opcode.
#[verifier::opaque]
pub open spec fn spec_load_pair_immediate(m: Machine, p: DReg) -> Result<(Machine, Cycles), StepError> {
    match spec_fetch_word(m) {
        Ok((m1, w)) => Ok((m1.with_registers(m1.registers.set_pair(p, w)), 12)),
        Err(e) => Err(e),
    }
}

/// `LD (a16), SP`: the low byte of `sp` at the address, the high byte after it.
#[verifier::opaque]
pub open spec fn spec_store_sp(m: Machine) -> Result<(Machine, Cycles), StepError> {
    match spec_fetch_word(m) {
        Ok((m1, address)) => {
            let sp = m1.registers.sp;
            match spec_store(m1, address, (sp % 256) as u8) {
                Ok(m2) => with_value(spec_store(m2, pc_plus(address, 1), (sp / 256) as u8), 20),
                Err(e) => Err(e),
            }
        },
        Err(e) => Err(e),
    }
}

/// `ADD HL, BC`: zero flag kept, subtraction clear, half-carry out of bit 11, carry out of bit 15.
#[verifier::opaque]
pub open spec fn spec_add_hl_bc(m: Machine) -> Result<(Machine, Cycles), StepError> {
    let hl = m.registers.pair(DReg::HL);
    let bc = m.registers.pair(DReg::BC);
    let flags = flag_byte(
        flag_set(m.registers.f, Reg::ZERO_FLAG),
        false,
        hl % 4096 + bc % 4096 > 4095,
        hl + bc > 0xffff,
    );
    Ok((m.with_registers(m.registers.set_pair(DReg::HL, ((hl + bc) % 0x10000) as u16).set(Reg::F, flags)), 8))
}

/// A pair moved by `n`, wrapping, with no flag touched.
#[verifier::opaque]
pub open spec fn spec_step_pair(m: Machine, p: DReg, n: int) -> Result<(Machine, Cycles), StepError> {
    Ok((m.with_registers(m.registers.set_pair(p, pc_plus(m.registers.pair(p), n))), 8))
}

/// `RLCA`: bit 7 goes to bit 0 and to the carry flag; the other flags clear.
#[verifier::opaque]
pub open spec fn spec_rotate_a(m: Machine) -> Result<(Machine, Cycles), StepError> {
    let a = m.registers.a;
    Ok((m.with_reg(Reg::A, rotated_left(a)).with_reg(Reg::F, flag_byte(false, false, false, a >= 128)), 4))
}

/// `AND d8`: zero iff the result is zero, half-carry set, the others clear.
#[verifier::opaque]
pub open spec fn spec_and_immediate(m: Machine) -> Result<(Machine, Cycles), StepError> {
    match spec_fetch(m) {
        Ok((m1, d)) => {
            let r = m1.registers.a & d;
            Ok((m1.with_reg(Reg::A, r).with_reg(Reg::F, flag_byte(r == 0, false, true, false)), 8))
        },
        Err(e) => Err(e),
    }
}

/// `LDH A, (a8)`: loads `A` from `0xFF00` plus the byte after the opcode.
#[verifier::opaque]
pub open spec fn spec_load_a_high(m: Machine) -> Result<(Machine, Cycles), StepError> {
    match spec_fetch(m) {
        Ok((m1, d)) => match spec_load(m1, (0xff00 + d) as u16) {
            Ok(v) => Ok((m1.with_reg(Reg::A, v), 12)),
            Err(e) => Err(e),
        },
        Err(e) => Err(e),
    }
}

/// `CP d8`: the flags of `A - d8`; `A` is kept.
#[verifier::opaque]
pub open spec fn spec_compare_immediate(m: Machine) -> Result<(Machine, Cycles), StepError> {
    match spec_fetch(m) {
        Ok((m1, d)) => Ok((m1.with_reg(Reg::F, sub_flags(m1.registers.a, d)), 8)),
        Err(e) => Err(e),
    }
}

/// `LD (BC), A`.
#[verifier::opaque]
pub open spec fn spec_store_a_indirect_bc(m: Machine) -> Result<(Machine, Cycles), StepError> {
    with_value(spec_store(m, m.registers.pair(DReg::BC), m.registers.a), 8)
}

/// `LD B, d8`.
#[verifier::opaque]
pub open spec fn spec_load_b_immediate(m: Machine) -> Result<(Machine, Cycles), StepError> {
    match spec_fetch(m) {
        Ok((m1, b)) => Ok((m1.with_reg(Reg::B, b), 8)),
        Err(e) => Err(e),
    }
}

/// `LD A, (BC)`.
#[verifier::opaque]
pub open spec fn spec_load_a_indirect_bc(m: Machine) -> Result<(Machine, Cycles), StepError> {
    match spec_load(m, m.registers.pair(DReg::BC)) {
        Ok(v) => Ok((m.with_reg(Reg::A, v), 8)),
        Err(e) => Err(e),
    }
}

/// `JP a16`.
#[verifier::opaque]
pub open spec fn spec_jump_absolute(m: Machine) -> Result<(Machine, Cycles), StepError> {
    match spec_fetch_word(m) {
        Ok((m1, w)) => Ok((m1.with_pc(w), 16)),
        Err(e) => Err(e),
    }
}

/// Executes `op`, fetched from `at`, on a machine whose `pc` already points past it.
pub open spec fn spec_execute(m: Machine, op: u8, at: u16) -> Result<(Machine, Cycles), StepError> {
    if op < 0x40 {
        spec_execute_low(m, op, at)
    } else {
        spec_execute_high(m, op, at)
    }
}

/// Opcodes `0x00` to `0x3F`.
pub open spec fn spec_execute_low(m: Machine, op: u8, at: u16) -> Result<(Machine, Cycles), StepError> {
    let regs = m.registers;
    if op == 0x00 {
        Ok((m, 4))
    } else if op == 0x01 {
        spec_load_pair_immediate(m, DReg::BC)
    } else if op == 0x02 {
        spec_store_a_indirect_bc(m)
    } else if op == 0x03 {
        spec_step_pair(m, DReg::BC, 1)
    } else if op % 8 == 4 {
        spec_increment(m, operand_of_field(op / 8))
    } else if op % 8 == 5 {
        spec_decrement(m, operand_of_field(op / 8))
    } else if op == 0x06 {
        spec_load_b_immediate(m)
    } else if op == 0x07 {
        spec_rotate_a(m)
    } else if op == 0x08 {
        spec_store_sp(m)
    } else if op == 0x09 {
        spec_add_hl_bc(m)
    } else if op == 0x0a {
        spec_load_a_indirect_bc(m)
    } else if op == 0x0b {
        spec_step_pair(m, DReg::BC, 0xffff)
    } else if op == 0x10 {
        Ok((Machine { halted: true, ..m }, 4))
    } else if op == 0x18 {
        spec_jump_relative(m)
    } else if op == 0x20 || op == 0x28 {
        spec_jump_relative_if(m, flag_set(regs.f, Reg::ZERO_FLAG) == (op == 0x28))
    } else {
        Err(StepError::UnimplementedOpcode { opcode: op, pc: at })
    }
}

/// Opcodes `0x40` to `0xFF`.
pub open spec fn spec_execute_high(m: Machine, op: u8, at: u16) -> Result<(Machine, Cycles), StepError> {
    if op == 0x76 {
        Ok((Machine { halted: true, ..m }, 4))
    } else if op < 0x80 {
        spec_move(m, operand_of_field((op / 8) % 8), operand_of_field(op % 8))
    } else if op < 0x88 {
        spec_add_a(m, operand_of_field(op % 8))
    } else if 0xa8 <= op < 0xb0 {
        spec_xor_a(m, operand_of_field(op % 8))
    } else if op == 0xc3 {
        spec_jump_absolute(m)
    } else if op == 0xe6 {
        spec_and_immediate(m)
    } else if op == 0xf0 {
        spec_load_a_high(m)
    } else if op == 0xfe {
        spec_compare_immediate(m)
    } else {
        Err(StepError::UnimplementedOpcode { opcode: op, pc: at })
    }
}

/// One step: a halted machine only spends four cycles; otherwise one instruction is fetched
/// and executed.
pub open spec fn spec_step(m: Machine) -> Result<(Machine, Cycles), StepError> {
    if m.halted {
        Ok((m, 4))
    } else {
        match spec_fetch(m) {
            Ok((m1, op)) => spec_execute(m1, op, m.registers.pc),
            Err(e) => Err(e),
        }
    }
}

/// The operand that a 3-bit field names.
pub fn operand_from_field(field: u8) -> (r: Operand)
    ensures
        r == operand_of_field(field % 8),
{
    if field % 8 == 6 {
        Operand::IndirectHL
    } else {
        Operand::Register(Reg::from_field(field))
    }
}

/// The emulated handheld: one register file and one memory map, owned exclusively.
pub struct GameboyColor {
    memory: Memory,
    registers: Registers,
    halted: bool,
}

impl View for GameboyColor {
    type V = Machine;

    closed spec fn view(&self) -> Machine {
        Machine { registers: self.registers, memory: self.memory@, halted: self.halted }
    }
}

impl GameboyColor {
    /// Zeroed registers, an empty cartridge, zeroed work RAM, default banks, running.
    pub fn new() -> (r: Self)
        ensures
            r@.registers == Registers::zeroed(),
            r@.halted == false,
            r@.memory.cartridge.len() == 0,
            r@.memory.work.len() == crate::memory::WORK_RAM_SIZE,
            forall|i: int| 0 <= i < crate::memory::WORK_RAM_SIZE ==> r@.memory.work[i] == 0,
            r@.memory.rom_bank == 1,
            r@.memory.work_bank == 1,
            r@.memory.video_bank == false,
    {
        GameboyColor { memory: Memory::new(), registers: Registers::new(), halted: false }
    }

    /// Loads a cartridge image and points `pc` at the entry point `0x0100`; nothing else
    /// changes.
    pub fn set_cartridge(&mut self, cartridge: &[u8]) -> (r: Result<(), ()>)
        ensures
            r is Ok,
            final(self)@ == (Machine {
                memory: MemoryState { cartridge: cartridge@, ..old(self)@.memory },
                registers: Registers { pc: 0x0100, ..old(self)@.registers },
                ..old(self)@
            }),
    {
        self.memory.set_cartridge(cartridge);
        self.registers.pc = 0x0100;
        Ok(())
    }

    /// The register file.
    pub fn registers(&self) -> (r: &Registers)
        ensures
            *r == self@.registers,
    {
        &self.registers
    }

    /// The memory map.
    pub fn memory(&self) -> (r: &Memory)
        ensures
            r@ == self@.memory,
    {
        &self.memory
    }

    /// Whether a `STOP` or `HALT` has put the processor to sleep.
    pub fn is_halted(&self) -> (r: bool)
        ensures
            r == self@.halted,
    {
        self.halted
    }

    /// The frame produced so far; no pixel pipeline exists yet, so it is empty.
    pub fn render(&self) -> (r: &[u8])
        ensures
            r@.len() == 0,
    {
        &[]
    }

    /// The interrupt check made before each fetch. No interrupt source is wired yet.
    pub fn handle_interrupts(&mut self)
        ensures
            final(self)@ == old(self)@,
    {
    }

    fn load(&self, address: Address) -> (r: Result<u8, StepError>)
        ensures
            r == spec_load(self@, address),
    {
        match self.memory.read_byte(address) {
            Ok(v) => Ok(v),
            Err(e) => Err(StepError::Memory(e)),
        }
    }

    fn store(&mut self, address: Address, v: u8) -> (r: Result<(), StepError>)
        ensures
            agrees(r, final(self)@, with_value(spec_store(old(self)@, address, v), ())),
    {
        match self.memory.write_byte(address, v) {
            Ok(()) => Ok(()),
            Err(e) => Err(StepError::Memory(e)),
        }
    }

    fn fetch(&mut self) -> (r: Result<u8, StepError>)
        ensures
            match spec_fetch(old(self)@) {
                Ok((m, b)) => r == Ok::<u8, StepError>(b) && final(self)@ == m,
                Err(e) => r == Err::<u8, StepError>(e),
            },
    {
        match self.memory.next_program_byte(&mut self.registers.pc) {
            Ok(b) => Ok(b),
            Err(e) => Err(StepError::Memory(e)),
        }
    }

    fn fetch_word(&mut self) -> (r: Result<u16, StepError>)
        ensures
            match spec_fetch_word(old(self)@) {
                Ok((m, w)) => r == Ok::<u16, StepError>(w) && final(self)@ == m,
                Err(e) => r == Err::<u16, StepError>(e),
            },
    {
        match self.memory.read_sized(Request::<2>(self.registers.pc)) {
            Ok(bytes) => {
                self.registers.pc = self.registers.pc.wrapping_add(2);
                Ok(u16_from_le(bytes[0], bytes[1]))
            },
            Err(e) => Err(StepError::Memory(e)),
        }
    }

    fn read_operand(&self, o: Operand) -> (r: Result<u8, StepError>)
        ensures
            r == spec_read_operand(self@, o),
    {
        match o {
            Operand::Register(reg) => Ok(self.registers.read(reg)),
            Operand::IndirectHL => self.load(self.registers.read_pair(DReg::HL)),
        }
    }

    fn write_operand(&mut self, o: Operand, v: u8) -> (r: Result<(), StepError>)
        ensures
            agrees(r, final(self)@, with_value(spec_write_operand(old(self)@, o, v), ())),
    {
        match o {
            Operand::Register(reg) => {
                self.registers.write(reg, v);
                Ok(())
            },
            Operand::IndirectHL => {
                let hl = self.registers.read_pair(DReg::HL);
                self.store(hl, v)
            },
        }
    }

    fn increment(&mut self, o: Operand) -> (r: Result<Cycles, StepError>)
        ensures
            agrees(r, final(self)@, spec_increment(old(self)@, o)),
    {
        proof {
            reveal(spec_increment);
        }
        let v = match self.read_operand(o) {
            Ok(v) => v,
            Err(e) => return Err(e),
        };
        let sum = self.registers.add_values(v, 1);
        match self.write_operand(o, sum) {
            Ok(()) => Ok(if o == Operand::IndirectHL { 12 } else { 4 }),
            Err(e) => Err(e),
        }
    }

    fn decrement(&mut self, o: Operand) -> (r: Result<Cycles, StepError>)
        ensures
            agrees(r, final(self)@, spec_decrement(old(self)@, o)),
    {
        proof {
            reveal(spec_decrement);
        }
        let v = match self.read_operand(o) {
            Ok(v) => v,
            Err(e) => return Err(e),
        };
        let difference = self.registers.sub_values(v, 1);
        match self.write_operand(o, difference) {
            Ok(()) => Ok(if o == Operand::IndirectHL { 12 } else { 4 }),
            Err(e) => Err(e),
        }
    }

    fn move_operand(&mut self, dst: Operand, src: Operand) -> (r: Result<Cycles, StepError>)
        ensures
            agrees(r, final(self)@, spec_move(old(self)@, dst, src)),
    {
        proof {
            reveal(spec_move);
        }
        let v = match self.read_operand(src) {
            Ok(v) => v,
            Err(e) => return Err(e),
        };
        match self.write_operand(dst, v) {
            Ok(()) => Ok(
                if dst == Operand::IndirectHL || src == Operand::IndirectHL {
                    8
                } else {
                    4
                },
            ),
            Err(e) => Err(e),
        }
    }

    fn add_a(&mut self, src: Operand) -> (r: Result<Cycles, StepError>)
        ensures
            agrees(r, final(self)@, spec_add_a(old(self)@, src)),
    {
        proof {
            reveal(spec_add_a);
        }
        let v = match self.read_operand(src) {
            Ok(v) => v,
            Err(e) => return Err(e),
        };
        let sum = self.registers.add(Reg::A, v, None);
        self.registers.write(Reg::A, sum);
        Ok(if src == Operand::IndirectHL { 8 } else { 4 })
    }

    fn xor_a(&mut self, src: Operand) -> (r: Result<Cycles, StepError>)
        ensures
            agrees(r, final(self)@, spec_xor_a(old(self)@, src)),
    {
        proof {
            reveal(spec_xor_a);
        }
        let v = match self.read_operand(src) {
            Ok(v) => v,
            Err(e) => return Err(e),
        };
        let x = self.registers.read(Reg::A) ^ v;
        self.registers.write(Reg::A, x);
        self.registers.write(Reg::F, flags(x == 0, false, false, false));
        Ok(if src == Operand::IndirectHL { 8 } else { 4 })
    }

    fn jump_relative(&mut self) -> (r: Result<Cycles, StepError>)
        ensures
            agrees(r, final(self)@, spec_jump_relative(old(self)@)),
    {
        proof {
            reveal(spec_jump_relative);
        }
        let d = match self.fetch() {
            Ok(d) => d,
            Err(e) => return Err(e),
        };
        let pc = self.registers.pc;
        self.registers.pc = if d < 128 {
            pc.wrapping_add(d as u16)
        } else {
            pc.wrapping_sub(256 - d as u16)
        };
        Ok(12)
    }

    fn load_pair_immediate(&mut self, p: DReg) -> (r: Result<Cycles, StepError>)
        ensures
            agrees(r, final(self)@, spec_load_pair_immediate(old(self)@, p)),
    {
        proof {
            reveal(spec_load_pair_immediate);
        }
        let w = match self.fetch_word() {
            Ok(w) => w,
            Err(e) => return Err(e),
        };
        self.registers.write_pair(p, w);
        Ok(12)
    }

    fn store_sp(&mut self) -> (r: Result<Cycles, StepError>)
        ensures
            agrees(r, final(self)@, spec_store_sp(old(self)@)),
    {
        proof {
            reveal(spec_store_sp);
        }
        let address = match self.fetch_word() {
            Ok(w) => w,
            Err(e) => return Err(e),
        };
        let sp = self.registers.sp;
        match self.store(address, (sp % 256) as u8) {
            Ok(()) => {},
            Err(e) => return Err(e),
        }
        match self.store(address.wrapping_add(1), (sp / 256) as u8) {
            Ok(()) => Ok(20),
            Err(e) => Err(e),
        }
    }

    fn add_hl_bc(&mut self) -> (r: Result<Cycles, StepError>)
        ensures
            agrees(r, final(self)@, spec_add_hl_bc(old(self)@)),
    {
        proof {
            reveal(spec_add_hl_bc);
        }
        let hl = self.registers.read_pair(DReg::HL);
        let bc = self.registers.read_pair(DReg::BC);
        let zero = self.registers.zero_flag();
        let sum: u32 = hl as u32 + bc as u32;
        let f = flags(zero, false, hl % 4096 + bc % 4096 > 4095, sum > 0xffff);
        self.registers.write_pair(DReg::HL, (sum % 0x10000) as u16);
        self.registers.write(Reg::F, f);
        Ok(8)
    }

    fn step_pair(&mut self, p: DReg, n: u16) -> (r: Result<Cycles, StepError>)
        ensures
            agrees(r, final(self)@, spec_step_pair(old(self)@, p, n as int)),
    {
        proof {
            reveal(spec_step_pair);
        }
        let v = self.registers.read_pair(p);
        self.registers.write_pair(p, v.wrapping_add(n));
        Ok(8)
    }

    fn rotate_a(&mut self) -> (r: Result<Cycles, StepError>)
        ensures
            agrees(r, final(self)@, spec_rotate_a(old(self)@)),
    {
        proof {
            reveal(spec_rotate_a);
        }
        let a = self.registers.read(Reg::A);
        self.registers.write(Reg::A, (a % 128) * 2 + a / 128);
        self.registers.write(Reg::F, flags(false, false, false, a >= 128));
        Ok(4)
    }

    fn and_immediate(&mut self) -> (r: Result<Cycles, StepError>)
        ensures
            agrees(r, final(self)@, spec_and_immediate(old(self)@)),
    {
        proof {
            reveal(spec_and_immediate);
        }
        let d = match self.fetch() {
            Ok(d) => d,
            Err(e) => return Err(e),
        };
        let x = self.registers.read(Reg::A) & d;
        self.registers.write(Reg::A, x);
        self.registers.write(Reg::F, flags(x == 0, false, true, false));
        Ok(8)
    }

    fn load_a_high(&mut self) -> (r: Result<Cycles, StepError>)
        ensures
            agrees(r, final(self)@, spec_load_a_high(old(self)@)),
    {
        proof {
            reveal(spec_load_a_high);
        }
        let d = match self.fetch() {
            Ok(d) => d,
            Err(e) => return Err(e),
        };
        match self.load(0xff00 + d as u16) {
            Ok(v) => {
                self.registers.write(Reg::A, v);
                Ok(12)
            },
            Err(e) => Err(e),
        }
    }

    fn compare_immediate(&mut self) -> (r: Result<Cycles, StepError>)
        ensures
            agrees(r, final(self)@, spec_compare_immediate(old(self)@)),
    {
        proof {
            reveal(spec_compare_immediate);
        }
        let d = match self.fetch() {
            Ok(d) => d,
            Err(e) => return Err(e),
        };
        let a = self.registers.read(Reg::A);
        let _ = self.registers.sub_values(a, d);
        Ok(8)
    }

    fn store_a_indirect_bc(&mut self) -> (r: Result<Cycles, StepError>)
        ensures
            agrees(r, final(self)@, spec_store_a_indirect_bc(old(self)@)),
    {
        proof {
            reveal(spec_store_a_indirect_bc);
        }
        let bc = self.registers.read_pair(DReg::BC);
        let a = self.registers.read(Reg::A);
        match self.store(bc, a) {
            Ok(()) => Ok(8),
            Err(e) => Err(e),
        }
    }

    fn load_b_immediate(&mut self) -> (r: Result<Cycles, StepError>)
        ensures
            agrees(r, final(self)@, spec_load_b_immediate(old(self)@)),
    {
        proof {
            reveal(spec_load_b_immediate);
        }
        match self.fetch() {
            Ok(b) => {
                self.registers.write(Reg::B, b);
                Ok(8)
            },
            Err(e) => Err(e),
        }
    }

    fn load_a_indirect_bc(&mut self) -> (r: Result<Cycles, StepError>)
        ensures
            agrees(r, final(self)@, spec_load_a_indirect_bc(old(self)@)),
    {
        proof {
            reveal(spec_load_a_indirect_bc);
        }
        match self.load(self.registers.read_pair(DReg::BC)) {
            Ok(v) => {
                self.registers.write(Reg::A, v);
                Ok(8)
            },
            Err(e) => Err(e),
        }
    }

    fn jump_relative_if(&mut self, taken: bool) -> (r: Result<Cycles, StepError>)
        ensures
            agrees(r, final(self)@, spec_jump_relative_if(old(self)@, taken)),
    {
        proof {
            reveal(spec_jump_relative_if);
        }
        if taken {
            self.jump_relative()
        } else {
            self.registers.pc = self.registers.pc.wrapping_add(1);
            Ok(8)
        }
    }

    fn jump_absolute(&mut self) -> (r: Result<Cycles, StepError>)
        ensures
            agrees(r, final(self)@, spec_jump_absolute(old(self)@)),
    {
        proof {
            reveal(spec_jump_absolute);
        }
        match self.fetch_word() {
            Ok(w) => {
                self.registers.pc = w;
                Ok(16)
            },
            Err(e) => Err(e),
        }
    }

    fn execute(&mut self, opcode: u8, at: u16) -> (r: Result<Cycles, StepError>)
        ensures
            agrees(r, final(self)@, spec_execute(old(self)@, opcode, at)),
    {
        if opcode < 0x40 {
            self.execute_low(opcode, at)
        } else {
            self.execute_high(opcode, at)
        }
    }

    fn execute_low(&mut self, opcode: u8, at: u16) -> (r: Result<Cycles, StepError>)
        requires
            opcode < 0x40,
        ensures
            agrees(r, final(self)@, spec_execute_low(old(self)@, opcode, at)),
    {
        match opcode {
            0x00 => Ok(4),
            0x01 => self.load_pair_immediate(DReg::BC),
            0x02 => self.store_a_indirect_bc(),
            0x03 => self.step_pair(DReg::BC, 1),
            0x04 | 0x0c | 0x14 | 0x1c | 0x24 | 0x2c | 0x34 | 0x3c => self.increment(
                operand_from_field(opcode / 8),
            ),
            0x05 | 0x0d | 0x15 | 0x1d | 0x25 | 0x2d | 0x35 | 0x3d => self.decrement(
                operand_from_field(opcode / 8),
            ),
            0x06 => self.load_b_immediate(),
            0x07 => self.rotate_a(),
            0x08 => self.store_sp(),
            0x09 => self.add_hl_bc(),
            0x0a => self.load_a_indirect_bc(),
            0x0b => self.step_pair(DReg::BC, 0xffff),
            0x10 => {
                self.halted = true;
                Ok(4)
            },
            0x18 => self.jump_relative(),
            0x20 | 0x28 => self.jump_relative_if(self.registers.zero_flag() == (opcode == 0x28)),
            _ => Err(StepError::UnimplementedOpcode { opcode, pc: at }),
        }
    }

    fn execute_high(&mut self, opcode: u8, at: u16) -> (r: Result<Cycles, StepError>)
        requires
            opcode >= 0x40,
        ensures
            agrees(r, final(self)@, spec_execute_high(old(self)@, opcode, at)),
    {
        match opcode {
            0x76 => {
                self.halted = true;
                Ok(4)
            },
            0x40..=0x7f => self.move_operand(
                operand_from_field(opcode / 8),
                operand_from_field(opcode),
            ),
            0x80..=0x87 => self.add_a(operand_from_field(opcode)),
            0xa8..=0xaf => self.xor_a(operand_from_field(opcode)),
            0xc3 => self.jump_absolute(),
            0xe6 => self.and_immediate(),
            0xf0 => self.load_a_high(),
            0xfe => self.compare_immediate(),
            _ => Err(StepError::UnimplementedOpcode { opcode, pc: at }),
        }
    }

    /// Runs one step: the interrupt check, then, unless halted, one fetch, decode and execute.
    /// Returns the cycles spent. `STOP` and `HALT` put the processor to sleep until an interrupt
    /// wakes it; no interrupt source is wired yet, so a halted machine stays halted and each
    /// step spends four cycles. On an error the instruction is left part done.
    pub fn step(&mut self) -> (r: Result<Cycles, StepError>)
        ensures
            agrees(r, final(self)@, spec_step(old(self)@)),
    {
        self.handle_interrupts();
        if self.halted {
            return Ok(4);
        }
        let at = self.registers.pc;
        let opcode = match self.fetch() {
            Ok(b) => b,
            Err(e) => return Err(e),
        };
        self.execute(opcode, at)
    }
}

/// The word whose low byte is `low` and high byte is `high`.
fn u16_from_le(low: u8, high: u8) -> (r: u16)
    ensures
        r == pair_value(high, low),
{
    high as u16 * 256 + low as u16
}

} // verus!
