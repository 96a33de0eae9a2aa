use vstd::prelude::*;

verus! {

/// The eight processor status flags.
#[derive(Clone, Copy, Debug, PartialEq, Eq, Structural)]
pub struct Status {
    pub negative: bool,
    pub overflow: bool,
    pub reserved: bool,
    pub break_mode: bool,
    pub decimal_mode: bool,
    pub interrupt: bool,
    pub zero: bool,
    pub carry: bool,
}

/// The programmer-visible CPU registers.
#[derive(Clone, Copy, Debug, PartialEq, Eq, Structural)]
pub struct Registers {
    pub a: u8,
    pub x: u8,
    pub y: u8,
    pub sp: u8,
    pub pc: u16,
    pub p: Status,
}

/// The byte-wide registers, the status byte included.
#[derive(Clone, Copy, Debug, PartialEq, Eq, Structural)]
pub enum ByteRegister {
    A,
    X,
    Y,
    SP,
    P,
}

/// The names of the status flags.
#[allow(non_camel_case_types)]
#[derive(Clone, Copy, Debug, PartialEq, Eq, Structural)]
pub enum StatusName {
    negative,
    overflow,
    reserved,
    break_mode,
    decimal_mode,
    interrupt,
    zero,
    carry,
}

/// `bit` when the flag is set, else 0.
pub open spec fn flag_bit(b: bool, bit: int) -> int {
    if b {
        bit
    } else {
        0
    }
}

/// The status byte: bit 7 negative, 6 overflow, 5 reserved (always set), 4 break,
/// 3 decimal, 2 interrupt, 1 zero, 0 carry.
pub open spec fn status_byte(s: Status) -> u8 {
    (flag_bit(s.negative, 0x80) + flag_bit(s.overflow, 0x40) + 0x20 + flag_bit(s.break_mode, 0x10)
        + flag_bit(s.decimal_mode, 0x08) + flag_bit(s.interrupt, 0x04) + flag_bit(s.zero, 0x02)
        + flag_bit(s.carry, 0x01)) as u8
}

/// The flags that a status byte holds; the reserved flag is always set.
pub open spec fn status_of(v: u8) -> Status {
    Status {
        negative: v & 0x80 == 0x80,
        overflow: v & 0x40 == 0x40,
        reserved: true,
        break_mode: v & 0x10 == 0x10,
        decimal_mode: v & 0x08 == 0x08,
        interrupt: v & 0x04 == 0x04,
        zero: v & 0x02 == 0x02,
        carry: v & 0x01 == 0x01,
    }
}

/// The canonical power-on status: reserved, break and interrupt-disable set.
pub open spec fn power_on_status() -> Status {
    Status {
        negative: false,
        overflow: false,
        reserved: true,
        break_mode: true,
        decimal_mode: false,
        interrupt: true,
        zero: false,
        carry: false,
    }
}

/// The canonical power-on registers.
pub open spec fn power_on_registers() -> Registers {
    Registers { a: 0, x: 0, y: 0, sp: 0xFD, pc: 0x8000, p: power_on_status() }
}

/// Whether bit 7 of `v` is set.
pub open spec fn is_negative(v: u8) -> bool {
    v & 0x80 == 0x80
}

/// The signed-overflow rule: the accumulator and the operand had the same sign
/// and the result's sign differs from the accumulator's.
pub open spec fn signed_overflow(acc: u8, operand: u8, result: u8) -> bool {
    !((acc ^ operand) & 0x80 != 0) && (acc ^ result) & 0x80 != 0
}

/// `v + 1` modulo 256.
pub open spec fn inc8(v: u8) -> u8 {
    ((v + 1) % 256) as u8
}

/// `v - 1` modulo 256.
pub open spec fn dec8(v: u8) -> u8 {
    ((v + 255) % 256) as u8
}

/// `v + 1` modulo 65536.
pub open spec fn inc16(v: u16) -> u16 {
    ((v + 1) % 0x10000) as u16
}

/// `v - 1` modulo 65536.
pub open spec fn dec16(v: u16) -> u16 {
    ((v + 0xFFFF) % 0x10000) as u16
}

pub open spec fn flag_value(s: Status, name: StatusName) -> bool {
    match name {
        StatusName::negative => s.negative,
        StatusName::overflow => s.overflow,
        StatusName::reserved => s.reserved,
        StatusName::break_mode => s.break_mode,
        StatusName::decimal_mode => s.decimal_mode,
        StatusName::interrupt => s.interrupt,
        StatusName::zero => s.zero,
        StatusName::carry => s.carry,
    }
}

pub open spec fn register_value(r: Registers, name: ByteRegister) -> u8 {
    match name {
        ByteRegister::A => r.a,
        ByteRegister::X => r.x,
        ByteRegister::Y => r.y,
        ByteRegister::SP => r.sp,
        ByteRegister::P => status_byte(r.p),
    }
}

fn bit_of(b: bool, bit: u8) -> (r: u8)
    ensures
        r == flag_bit(b, bit as int),
{
    if b {
        bit
    } else {
        0
    }
}

/// Reading back a status byte gives the byte with the reserved bit set.
pub proof fn lemma_status_round_trip(v: u8)
    ensures
        status_byte(status_of(v)) == v | 0x20,
{
    assert(((if v & 0x80 == 0x80 { 0x80int } else { 0 }) + (if v & 0x40 == 0x40 { 0x40int } else { 0 })
        + 0x20 + (if v & 0x10 == 0x10 { 0x10int } else { 0 }) + (if v & 0x08 == 0x08 { 0x08int } else { 0 })
        + (if v & 0x04 == 0x04 { 0x04int } else { 0 }) + (if v & 0x02 == 0x02 { 0x02int } else { 0 })
        + (if v & 0x01 == 0x01 { 0x01int } else { 0 })) as u8 == v | 0x20) by (bit_vector);
}

impl Registers {
    /// The power-on state: A = X = Y = 0, SP = 0xFD, PC = 0x8000, status 0x34.
    pub fn new() -> (r: Self)
        ensures
            r == power_on_registers(),
    {
        Registers {
            a: 0,
            x: 0,
            y: 0,
            pc: 0x8000,
            sp: 0xFD,
            p: Status {
                negative: false,
                overflow: false,
                reserved: true,
                break_mode: true,
                decimal_mode: false,
                interrupt: true,
                zero: false,
                carry: false,
            },
        }
    }

    /// Returns every register to its power-on state.
    pub fn reset(&mut self) -> (r: &mut Self)
        ensures
            *r == power_on_registers(),
            *final(self) == *final(r),
    {
        self.a = 0;
        self.x = 0;
        self.y = 0;
        self.pc = 0x8000;
        self.sp = 0xFD;
        self.p.negative = false;
        self.p.overflow = false;
        self.p.reserved = true;
        self.p.break_mode = true;
        self.p.decimal_mode = false;
        self.p.interrupt = true;
        self.p.zero = false;
        self.p.carry = false;
        self
    }

    pub fn get(&self, name: ByteRegister) -> (r: u8)
        ensures
            r == register_value(*self, name),
    {
        match name {
            ByteRegister::A => self.a,
            ByteRegister::X => self.x,
            ByteRegister::Y => self.y,
            ByteRegister::SP => self.sp,
            ByteRegister::P => {
                bit_of(self.p.negative, 0x80) + bit_of(self.p.overflow, 0x40) + 0x20 + bit_of(
                    self.p.break_mode,
                    0x10,
                ) + bit_of(self.p.decimal_mode, 0x08) + bit_of(self.p.interrupt, 0x04) + bit_of(
                    self.p.zero,
                    0x02,
                ) + bit_of(self.p.carry, 0x01)
            },
        }
    }

    pub fn get_status(&self, name: StatusName) -> (r: bool)
        ensures
            r == flag_value(self.p, name),
    {
        match name {
            StatusName::negative => self.p.negative,
            StatusName::overflow => self.p.overflow,
            StatusName::reserved => self.p.reserved,
            StatusName::break_mode => self.p.break_mode,
            StatusName::decimal_mode => self.p.decimal_mode,
            StatusName::interrupt => self.p.interrupt,
            StatusName::zero => self.p.zero,
            StatusName::carry => self.p.carry,
        }
    }

    pub fn get_pc(&self) -> (r: u16)
        ensures
            r == self.pc,
    {
        self.pc
    }

    pub fn set_acc(&mut self, v: u8) -> (r: &mut Self)
        ensures
            *r == (Registers { a: v, ..*old(self) }),
            *final(self) == *final(r),
    {
        self.a = v;
        self
    }

    pub fn set_x(&mut self, v: u8) -> (r: &mut Self)
        ensures
            *r == (Registers { x: v, ..*old(self) }),
            *final(self) == *final(r),
    {
        self.x = v;
        self
    }

    pub fn set_y(&mut self, v: u8) -> (r: &mut Self)
        ensures
            *r == (Registers { y: v, ..*old(self) }),
            *final(self) == *final(r),
    {
        self.y = v;
        self
    }

    pub fn set_pc(&mut self, v: u16) -> (r: &mut Self)
        ensures
            *r == (Registers { pc: v, ..*old(self) }),
            *final(self) == *final(r),
    {
        self.pc = v;
        self
    }

    /// Loads every flag from a status byte; the reserved flag is forced on.
    pub fn set_p(&mut self, v: u8) -> (r: &mut Self)
        ensures
            *r == (Registers { p: status_of(v), ..*old(self) }),
            *final(self) == *final(r),
    {
        self.p.negative = v & 0x80 == 0x80;
        self.p.overflow = v & 0x40 == 0x40;
        self.p.reserved = true;
        self.p.break_mode = v & 0x10 == 0x10;
        self.p.decimal_mode = v & 0x08 == 0x08;
        self.p.interrupt = v & 0x04 == 0x04;
        self.p.zero = v & 0x02 == 0x02;
        self.p.carry = v & 0x01 == 0x01;
        self
    }

    pub fn set_sp(&mut self, v: u8) -> (r: &mut Self)
        ensures
            *r == (Registers { sp: v, ..*old(self) }),
            *final(self) == *final(r),
    {
        self.sp = v;
        self
    }

    pub fn set_negative(&mut self, v: bool) -> (r: &mut Self)
        ensures
            *r == (Registers { p: Status { negative: v, ..old(self).p }, ..*old(self) }),
            *final(self) == *final(r),
    {
        self.p.negative = v;
        self
    }

    pub fn set_overflow(&mut self, v: bool) -> (r: &mut Self)
        ensures
            *r == (Registers { p: Status { overflow: v, ..old(self).p }, ..*old(self) }),
            *final(self) == *final(r),
    {
        self.p.overflow = v;
        self
    }

    pub fn set_reserved(&mut self, v: bool) -> (r: &mut Self)
        ensures
            *r == (Registers { p: Status { reserved: v, ..old(self).p }, ..*old(self) }),
            *final(self) == *final(r),
    {
        self.p.reserved = v;
        self
    }

    pub fn set_break(&mut self, v: bool) -> (r: &mut Self)
        ensures
            *r == (Registers { p: Status { break_mode: v, ..old(self).p }, ..*old(self) }),
            *final(self) == *final(r),
    {
        self.p.break_mode = v;
        self
    }

    pub fn set_interrupt(&mut self, v: bool) -> (r: &mut Self)
        ensures
            *r == (Registers { p: Status { interrupt: v, ..old(self).p }, ..*old(self) }),
            *final(self) == *final(r),
    {
        self.p.interrupt = v;
        self
    }

    pub fn set_zero(&mut self, v: bool) -> (r: &mut Self)
        ensures
            *r == (Registers { p: Status { zero: v, ..old(self).p }, ..*old(self) }),
            *final(self) == *final(r),
    {
        self.p.zero = v;
        self
    }

    pub fn set_decimal(&mut self, v: bool) -> (r: &mut Self)
        ensures
            *r == (Registers { p: Status { decimal_mode: v, ..old(self).p }, ..*old(self) }),
            *final(self) == *final(r),
    {
        self.p.decimal_mode = v;
        self
    }

    pub fn set_carry(&mut self, v: bool) -> (r: &mut Self)
        ensures
            *r == (Registers { p: Status { carry: v, ..old(self).p }, ..*old(self) }),
            *final(self) == *final(r),
    {
        self.p.carry = v;
        self
    }

    /// Sets the negative flag iff bit 7 of `v` is set.
    pub fn update_negative(&mut self, v: u8) -> (r: &mut Self)
        ensures
            *r == (Registers { p: Status { negative: is_negative(v), ..old(self).p }, ..*old(self) }),
            r.p.negative <==> v >= 0x80,
            *final(self) == *final(r),
    {
        assert((v & 0x80 == 0x80) <==> v >= 0x80) by (bit_vector);
        self.p.negative = v & 0x80 == 0x80;
        self
    }

    /// Sets the overflow flag by the signed-overflow rule, against the current accumulator.
    pub fn update_overflow(&mut self, fetched: u8, computed: u8) -> (r: &mut Self)
        ensures
            *r == (Registers {
                p: Status { overflow: signed_overflow(old(self).a, fetched, computed), ..old(self).p },
                ..*old(self)
            }),
            *final(self) == *final(r),
    {
        self.p.overflow = !(((self.a ^ fetched) & 0x80) != 0) && ((self.a ^ computed) & 0x80) != 0;
        self
    }

    /// Sets the zero flag iff `v` is 0.
    pub fn update_zero(&mut self, v: u8) -> (r: &mut Self)
        ensures
            *r == (Registers { p: Status { zero: v == 0, ..old(self).p }, ..*old(self) }),
            *final(self) == *final(r),
    {
        self.p.zero = v == 0;
        self
    }

    /// Advances the program counter by one, modulo 65536.
    pub fn update_pc(&mut self) -> (r: &mut Self)
        ensures
            *r == (Registers { pc: inc16(old(self).pc), ..*old(self) }),
            *final(self) == *final(r),
    {
        self.inc_pc()
    }

    /// Advances the stack pointer by one, modulo 256.
    pub fn inc_sp(&mut self) -> (r: &mut Self)
        ensures
            *r == (Registers { sp: inc8(old(self).sp), ..*old(self) }),
            *final(self) == *final(r),
    {
        self.sp = if self.sp == 0xFF {
            0
        } else {
            self.sp + 1
        };
        self
    }

    /// Moves the stack pointer back by one, modulo 256.
    pub fn dec_sp(&mut self) -> (r: &mut Self)
        ensures
            *r == (Registers { sp: dec8(old(self).sp), ..*old(self) }),
            *final(self) == *final(r),
    {
        self.sp = if self.sp == 0 {
            0xFF
        } else {
            self.sp - 1
        };
        self
    }

    /// Advances the program counter by one, modulo 65536.
    pub fn inc_pc(&mut self) -> (r: &mut Self)
        ensures
            *r == (Registers { pc: inc16(old(self).pc), ..*old(self) }),
            *final(self) == *final(r),
    {
        self.pc = if self.pc == 0xFFFF {
            0
        } else {
            self.pc + 1
        };
        self
    }

    /// Moves the program counter back by one, modulo 65536.
    pub fn dec_pc(&mut self) -> (r: &mut Self)
        ensures
            *r == (Registers { pc: dec16(old(self).pc), ..*old(self) }),
            *final(self) == *final(r),
    {
        self.pc = if self.pc == 0 {
            0xFFFF
        } else {
            self.pc - 1
        };
        self
    }
}

} // verus!
