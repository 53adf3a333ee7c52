//! The register file: eight byte slots, the stack pointer and the program counter.
use vstd::prelude::*;

verus! {

/// An 8-bit register. The declaration order is the hardware's 3-bit register encoding,
/// with the flag register standing where the encoding names `(HL)`.
#[derive(Debug, Clone, Copy, PartialEq, Eq, Structural)]
pub enum Reg {
    B,
    C,
    D,
    E,
    H,
    L,
    /// Flags
    F,
    /// Accumulator
    A,
}

/// A combined 16-bit register pair.
#[derive(Debug, Clone, Copy, PartialEq, Eq, Structural)]
pub enum DReg {
    BC,
    DE,
    HL,
    /// Accumulator & Flags
    AF,
}

impl Reg {
    /// Bit of the carry flag in `F`.
    pub const CARRY_FLAG: u8 = 0x10;
    /// Bit of the half-carry flag in `F`.
    pub const HALF_CARRY_FLAG: u8 = 0x20;
    /// Bit of the subtraction flag in `F`.
    pub const SUBTRACTION_FLAG: u8 = 0x40;
    /// Bit of the zero flag in `F`.
    pub const ZERO_FLAG: u8 = 0x80;
}

/// The register that a 3-bit field of an opcode names.
pub open spec fn reg_of_field(field: u8) -> Reg {
    if field == 0 {
        Reg::B
    } else if field == 1 {
        Reg::C
    } else if field == 2 {
        Reg::D
    } else if field == 3 {
        Reg::E
    } else if field == 4 {
        Reg::H
    } else if field == 5 {
        Reg::L
    } else if field == 6 {
        Reg::F
    } else {
        Reg::A
    }
}

impl Reg {
    /// The register named by the low three bits of `value`.
    pub fn from_field(value: u8) -> (r: Reg)
        ensures
            r == reg_of_field(value % 8),
    {
        match value % 8 {
            0 => Reg::B,
            1 => Reg::C,
            2 => Reg::D,
            3 => Reg::E,
            4 => Reg::H,
            5 => Reg::L,
            6 => Reg::F,
            _ => Reg::A,
        }
    }
}

/// The high half of a pair.
pub open spec fn high_of(p: DReg) -> Reg {
    match p {
        DReg::BC => Reg::B,
        DReg::DE => Reg::D,
        DReg::HL => Reg::H,
        DReg::AF => Reg::A,
    }
}

/// The low half of a pair.
pub open spec fn low_of(p: DReg) -> Reg {
    match p {
        DReg::BC => Reg::C,
        DReg::DE => Reg::E,
        DReg::HL => Reg::L,
        DReg::AF => Reg::F,
    }
}

impl DReg {
    /// The register holding the high byte of the pair.
    pub fn high(self) -> (r: Reg)
        ensures
            r == high_of(self),
    {
        match self {
            DReg::BC => Reg::B,
            DReg::DE => Reg::D,
            DReg::HL => Reg::H,
            DReg::AF => Reg::A,
        }
    }

    /// The register holding the low byte of the pair.
    pub fn low(self) -> (r: Reg)
        ensures
            r == low_of(self),
    {
        match self {
            DReg::BC => Reg::C,
            DReg::DE => Reg::E,
            DReg::HL => Reg::L,
            DReg::AF => Reg::F,
        }
    }
}

/// The 16-bit value of a pair whose halves hold `high` and `low`.
pub open spec fn pair_value(high: u8, low: u8) -> u16 {
    (high as int * 256 + low as int) as u16
}

/// The flag byte with the four flags given and the low nibble clear.
pub open spec fn flag_byte(zero: bool, subtraction: bool, half_carry: bool, carry: bool) -> u8 {
    (if zero { Reg::ZERO_FLAG } else { 0u8 }) | (if subtraction {
        Reg::SUBTRACTION_FLAG
    } else {
        0u8
    }) | (if half_carry { Reg::HALF_CARRY_FLAG } else { 0u8 }) | (if carry {
        Reg::CARRY_FLAG
    } else {
        0u8
    })
}

/// Addition on the 8-bit path: zero iff the wrapped sum is zero, carry iff the sum overflows,
/// subtraction clear, whatever the operands.
pub proof fn lemma_add_flags(x: u8, y: u8)
    ensures
        flag_set(add_flags(x, y), Reg::ZERO_FLAG) == (sum_u8(x, y) == 0),
        flag_set(add_flags(x, y), Reg::CARRY_FLAG) == (x as int + y as int > 255),
        !flag_set(add_flags(x, y), Reg::SUBTRACTION_FLAG),
        add_flags(x, y) & 0x0f == 0,
{
    lemma_flag_byte(sum_u8(x, y) == 0, false, x % 16 + y % 16 > 15, x as int + y as int > 255);
}

/// Subtraction on the 8-bit path: zero iff the wrapped difference is zero, carry iff the
/// subtraction borrows, subtraction set, whatever the operands.
pub proof fn lemma_sub_flags(x: u8, y: u8)
    ensures
        flag_set(sub_flags(x, y), Reg::ZERO_FLAG) == (diff_u8(x, y) == 0),
        flag_set(sub_flags(x, y), Reg::CARRY_FLAG) == (x < y),
        flag_set(sub_flags(x, y), Reg::SUBTRACTION_FLAG),
        sub_flags(x, y) & 0x0f == 0,
{
    lemma_flag_byte(diff_u8(x, y) == 0, true, x % 16 < y % 16, x < y);
}

/// Writing a pair and reading it back gives the value written, and the two byte registers
/// of the pair rebuild it as `(high << 8) | low`.
pub proof fn lemma_pair_round_trip(regs: Registers, p: DReg, v: u16)
    ensures
        regs.set_pair(p, v).pair(p) == v,
        (regs.set_pair(p, v).get(high_of(p)) as u16) << 8 | regs.set_pair(p, v).get(low_of(p))
            as u16 == v,
{
    let after = regs.set_pair(p, v);
    let high = after.get(high_of(p));
    let low = after.get(low_of(p));
    assert(high == v / 256 && low == v % 256);
    assert((high as u16) << 8 | low as u16 == v) by (bit_vector)
        requires
            high == v / 256,
            low == v % 256,
    ;
}

/// Builds the flag byte with the four flags given and the low nibble clear.
pub fn flags(zero: bool, subtraction: bool, half_carry: bool, carry: bool) -> (r: u8)
    ensures
        r == flag_byte(zero, subtraction, half_carry, carry),
{
    (if zero { Reg::ZERO_FLAG } else { 0u8 }) | (if subtraction {
        Reg::SUBTRACTION_FLAG
    } else {
        0u8
    }) | (if half_carry { Reg::HALF_CARRY_FLAG } else { 0u8 }) | (if carry {
        Reg::CARRY_FLAG
    } else {
        0u8
    })
}

/// Whether the flag with bit `mask` is set in the flag byte `f`.
pub open spec fn flag_set(f: u8, mask: u8) -> bool {
    f & mask != 0
}

/// The wrapped 8-bit sum.
pub open spec fn sum_u8(x: u8, y: u8) -> u8 {
    ((x as int + y as int) % 256) as u8
}

/// The wrapped 8-bit difference.
pub open spec fn diff_u8(x: u8, y: u8) -> u8 {
    ((x as int - y as int + 256) % 256) as u8
}

/// Flags after an 8-bit addition of `y` to `x`.
pub open spec fn add_flags(x: u8, y: u8) -> u8 {
    flag_byte(sum_u8(x, y) == 0, false, x % 16 + y % 16 > 15, x as int + y as int > 255)
}

/// Flags after an 8-bit subtraction of `y` from `x`.
pub open spec fn sub_flags(x: u8, y: u8) -> u8 {
    flag_byte(diff_u8(x, y) == 0, true, x % 16 < y % 16, x < y)
}

/// The flag byte decodes back into the flags it was built from, and its low nibble is clear.
pub proof fn lemma_flag_byte(zero: bool, subtraction: bool, half_carry: bool, carry: bool)
    ensures
        flag_set(flag_byte(zero, subtraction, half_carry, carry), Reg::ZERO_FLAG) == zero,
        flag_set(flag_byte(zero, subtraction, half_carry, carry), Reg::SUBTRACTION_FLAG)
            == subtraction,
        flag_set(flag_byte(zero, subtraction, half_carry, carry), Reg::HALF_CARRY_FLAG)
            == half_carry,
        flag_set(flag_byte(zero, subtraction, half_carry, carry), Reg::CARRY_FLAG) == carry,
        flag_byte(zero, subtraction, half_carry, carry) & 0x0f == 0,
{
    let z: u8 = if zero { 0x80 } else { 0 };
    let n: u8 = if subtraction { 0x40 } else { 0 };
    let h: u8 = if half_carry { 0x20 } else { 0 };
    let c: u8 = if carry { 0x10 } else { 0 };
    let f = z | n | h | c;
    assert(flag_byte(zero, subtraction, half_carry, carry) == f);
    assert({
        &&& (f & 0x80 != 0) == (z == 0x80)
        &&& (f & 0x40 != 0) == (n == 0x40)
        &&& (f & 0x20 != 0) == (h == 0x20)
        &&& (f & 0x10 != 0) == (c == 0x10)
        &&& f & 0x0f == 0
    }) by (bit_vector)
        requires
            z == 0x80 || z == 0,
            n == 0x40 || n == 0,
            h == 0x20 || h == 0,
            c == 0x10 || c == 0,
            f == z | n | h | c,
    ;
}

/// Relies on num_traits's `OverflowingAdd` for `u8`: the wrapped sum and whether it overflowed.
#[verifier::external_body]
fn overflowing_add_u8(x: u8, y: u8) -> (r: (u8, bool))
    ensures
        r.0 == sum_u8(x, y),
        r.1 == (x as int + y as int > 255),
{
    num_traits::ops::overflowing::OverflowingAdd::overflowing_add(&x, &y)
}

/// Relies on num_traits's `OverflowingSub` for `u8`: the wrapped difference and whether it
/// overflowed.
#[verifier::external_body]
fn overflowing_sub_u8(x: u8, y: u8) -> (r: (u8, bool))
    ensures
        r.0 == diff_u8(x, y),
        r.1 == (x < y),
{
    num_traits::ops::overflowing::OverflowingSub::overflowing_sub(&x, &y)
}

/// The register file. Pairs are composed from their halves on each access.
#[derive(Debug, Clone, Copy)]
pub struct Registers {
    pub b: u8,
    pub c: u8,
    pub d: u8,
    pub e: u8,
    pub h: u8,
    pub l: u8,
    pub f: u8,
    pub a: u8,
    pub sp: u16,
    pub pc: u16,
}

impl Registers {
    /// The value of an 8-bit register.
    pub open spec fn get(self, r: Reg) -> u8 {
        match r {
            Reg::B => self.b,
            Reg::C => self.c,
            Reg::D => self.d,
            Reg::E => self.e,
            Reg::H => self.h,
            Reg::L => self.l,
            Reg::F => self.f,
            Reg::A => self.a,
        }
    }

    /// This register file with `r` holding `v`.
    pub open spec fn set(self, r: Reg, v: u8) -> Registers {
        match r {
            Reg::B => Registers { b: v, ..self },
            Reg::C => Registers { c: v, ..self },
            Reg::D => Registers { d: v, ..self },
            Reg::E => Registers { e: v, ..self },
            Reg::H => Registers { h: v, ..self },
            Reg::L => Registers { l: v, ..self },
            Reg::F => Registers { f: v, ..self },
            Reg::A => Registers { a: v, ..self },
        }
    }

    /// The value of a register pair.
    pub open spec fn pair(self, p: DReg) -> u16 {
        pair_value(self.get(high_of(p)), self.get(low_of(p)))
    }

    /// This register file with the pair `p` holding `v`.
    pub open spec fn set_pair(self, p: DReg, v: u16) -> Registers {
        self.set(high_of(p), (v / 256) as u8).set(low_of(p), (v % 256) as u8)
    }

    /// The register file as constructed: every slot, `sp` and `pc` zero.
    pub open spec fn zeroed() -> Registers {
        Registers { b: 0, c: 0, d: 0, e: 0, h: 0, l: 0, f: 0, a: 0, sp: 0, pc: 0 }
    }

    /// A zeroed register file.
    pub fn new() -> (r: Self)
        ensures
            r == Registers::zeroed(),
    {
        Registers { b: 0, c: 0, d: 0, e: 0, h: 0, l: 0, f: 0, a: 0, sp: 0, pc: 0 }
    }

    /// Reads an 8-bit register.
    pub fn read(&self, r: Reg) -> (v: u8)
        ensures
            v == self.get(r),
    {
        match r {
            Reg::B => self.b,
            Reg::C => self.c,
            Reg::D => self.d,
            Reg::E => self.e,
            Reg::H => self.h,
            Reg::L => self.l,
            Reg::F => self.f,
            Reg::A => self.a,
        }
    }

    /// Writes an 8-bit register.
    pub fn write(&mut self, r: Reg, v: u8)
        ensures
            *final(self) == old(self).set(r, v),
    {
        match r {
            Reg::B => self.b = v,
            Reg::C => self.c = v,
            Reg::D => self.d = v,
            Reg::E => self.e = v,
            Reg::H => self.h = v,
            Reg::L => self.l = v,
            Reg::F => self.f = v,
            Reg::A => self.a = v,
        }
    }

    /// Reads a register pair: `(high << 8) | low`.
    pub fn read_pair(&self, p: DReg) -> (v: u16)
        ensures
            v == self.pair(p),
    {
        let high = self.read(p.high());
        let low = self.read(p.low());
        let v = (high as u16) << 8 | low as u16;
        assert(v == (high as u16) * 256 + low as u16) by (bit_vector)
            requires
                v == (high as u16) << 8 | low as u16,
        ;
        v
    }

    /// Writes a register pair: the high register takes `v >> 8`, the low one `v & 0xFF`.
    pub fn write_pair(&mut self, p: DReg, v: u16)
        ensures
            *final(self) == old(self).set_pair(p, v),
    {
        let high = (v >> 8) as u8;
        let low = (v & 0xff) as u8;
        assert(high == v / 256 && low == v % 256) by (bit_vector)
            requires
                high == (v >> 8) as u8,
                low == (v & 0xff) as u8,
        ;
        self.write(p.high(), high);
        self.write(p.low(), low);
    }

    /// Adds `value` to `x` and returns the wrapped sum. The flag register is rewritten: zero iff
    /// the sum is zero, subtraction clear, half-carry iff the low nibbles carry, carry iff the
    /// sum overflows, low nibble clear.
    pub fn add_values(&mut self, x: u8, value: u8) -> (r: u8)
        ensures
            r == sum_u8(x, value),
            *final(self) == old(self).set(Reg::F, add_flags(x, value)),
    {
        let (new, overflow) = overflowing_add_u8(x, value);
        self.write(Reg::F, flags(new == 0, false, x % 16 + value % 16 > 15, overflow));
        new
    }

    /// Subtracts `value` from `x` and returns the wrapped difference. The flag register is
    /// rewritten: zero iff the difference is zero, subtraction set, half-carry iff the low
    /// nibble borrows, carry iff the subtraction borrows, low nibble clear.
    pub fn sub_values(&mut self, x: u8, value: u8) -> (r: u8)
        ensures
            r == diff_u8(x, value),
            *final(self) == old(self).set(Reg::F, sub_flags(x, value)),
    {
        let (new, overflow) = overflowing_sub_u8(x, value);
        self.write(Reg::F, flags(new == 0, true, x % 16 < value % 16, overflow));
        new
    }

    /// Adds `value` to register `reg` and returns the wrapped sum, leaving `reg` itself as it
    /// was; the flags are those of `add_values`. `options` is reserved for carry-in variants and
    /// has no effect.
    pub fn add(&mut self, reg: Reg, value: u8, options: Option<()>) -> (r: u8)
        ensures
            r == sum_u8(old(self).get(reg), value),
            *final(self) == old(self).set(Reg::F, add_flags(old(self).get(reg), value)),
    {
        let x = self.read(reg);
        self.add_values(x, value)
    }

    /// Subtracts `value` from register `reg` and returns the wrapped difference, leaving `reg`
    /// itself as it was; the flags are those of `sub_values`. `options` is reserved for
    /// carry-in variants and has no effect.
    pub fn sub(&mut self, reg: Reg, value: u8, options: Option<()>) -> (r: u8)
        ensures
            r == diff_u8(old(self).get(reg), value),
            *final(self) == old(self).set(Reg::F, sub_flags(old(self).get(reg), value)),
    {
        let x = self.read(reg);
        self.sub_values(x, value)
    }

    /// Whether the zero flag (bit 7 of `F`) is set.
    pub fn zero_flag(&self) -> (r: bool)
        ensures
            r == flag_set(self.f, Reg::ZERO_FLAG),
    {
        self.f & Reg::ZERO_FLAG != 0
    }

    /// Whether the carry flag (bit 4 of `F`) is set.
    pub fn carry_flag(&self) -> (r: bool)
        ensures
            r == flag_set(self.f, Reg::CARRY_FLAG),
    {
        self.f & Reg::CARRY_FLAG != 0
    }
}

} // verus!
