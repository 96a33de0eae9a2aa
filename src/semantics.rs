use vstd::prelude::*;
use crate::bus::Bus;
use crate::opcode::{Addressing, Instruction, Opcode, opcode_table};
use crate::registers::{
    Registers, Status, dec16, dec8, inc16, inc8, is_negative, power_on_registers, signed_overflow,
    status_byte, status_of,
};

verus! {

/// Why a step could not run: the opcode byte read at `pc` has no table entry.
#[derive(Clone, Copy, Debug, PartialEq, Eq, Structural)]
pub struct DecodeError {
    pub opcode: u8,
    pub pc: u16,
}

/// The four shift and rotate operations.
#[derive(Clone, Copy, Debug, PartialEq, Eq, Structural)]
pub enum Shift {
    Asl,
    Lsr,
    Rol,
    Ror,
}

/// The little-endian word made of `lo` and `hi`.
pub open spec fn word(lo: u8, hi: u8) -> u16 {
    (lo + hi * 256) as u16
}

pub open spec fn high_byte(v: u16) -> u8 {
    (v / 256) as u8
}

pub open spec fn low_byte(v: u16) -> u8 {
    (v % 256) as u8
}

/// Whether `from` and `to` lie on different 256-byte pages.
pub open spec fn crosses_page(from: u16, to: u16) -> bool {
    from / 256 != to / 256
}

/// The stack slot that the stack pointer `sp` designates.
pub open spec fn stack_addr(sp: u8) -> u16 {
    (0x0100 + sp) as u16
}

/// The zero and negative flags set from `v`.
pub open spec fn nz(p: Status, v: u8) -> Status {
    Status { negative: is_negative(v), zero: v == 0, ..p }
}

/// The address a relative branch reaches: `offset` is signed, counted from `pc`.
pub open spec fn relative_target(pc: u16, offset: u8) -> u16 {
    if offset < 0x80 {
        ((pc + offset) % 0x10000) as u16
    } else {
        ((pc + offset + 0xFF00) % 0x10000) as u16
    }
}

/// The address of the high byte of an indirect jump's pointer: the next byte
/// within the same page (the hardware never carries into the next page).
pub open spec fn indirect_high_addr(ptr: u16) -> u16 {
    (ptr - ptr % 256 + (ptr % 256 + 1) % 256) as u16
}

/// A byte and a carry-out from a shift or rotate of `v` with carry-in `c`.
pub open spec fn shifted(kind: Shift, v: u8, c: bool) -> (u8, bool) {
    match kind {
        Shift::Asl => (((v * 2) % 256) as u8, v >= 0x80),
        Shift::Lsr => ((v / 2) as u8, v % 2 == 1),
        Shift::Rol => (((v * 2 + (if c { 1int } else { 0 })) % 256) as u8, v >= 0x80),
        Shift::Ror => ((v / 2 + (if c { 0x80int } else { 0 })) as u8, v % 2 == 1),
    }
}

/// Reads the byte at PC and advances PC.
pub open spec fn fetch_spec<B: Bus>(r: Registers, m: B::V) -> (u8, Registers, B::V) {
    (B::peek(m, r.pc), Registers { pc: inc16(r.pc), ..r }, B::after_read(m, r.pc))
}

/// Reads a little-endian word at PC and advances PC by two.
pub open spec fn fetch_word_spec<B: Bus>(r: Registers, m: B::V) -> (u16, Registers, B::V) {
    let (lo, r1, m1) = fetch_spec::<B>(r, m);
    let (hi, r2, m2) = fetch_spec::<B>(r1, m1);
    (word(lo, hi), r2, m2)
}

/// Reads a word whose low byte is at `lo_addr` and high byte at `hi_addr`.
pub open spec fn read_pair_spec<B: Bus>(m: B::V, lo_addr: u16, hi_addr: u16) -> (u16, B::V) {
    let lo = B::peek(m, lo_addr);
    let m1 = B::after_read(m, lo_addr);
    let hi = B::peek(m1, hi_addr);
    (word(lo, hi), B::after_read(m1, hi_addr))
}

/// Reads the little-endian word at `addr` and the byte after it.
pub open spec fn read_word_spec<B: Bus>(m: B::V, addr: u16) -> (u16, B::V) {
    read_pair_spec::<B>(m, addr, inc16(addr))
}

/// Resolves the operand of an addressing mode: an address, or for Immediate
/// the byte itself. PC advances past the operand bytes.
pub open spec fn operand_spec<B: Bus>(mode: Addressing, r: Registers, m: B::V) -> (
    u16,
    Registers,
    B::V,
) {
    match mode {
        Addressing::Accumulator => (0, r, m),
        Addressing::Implied => (0, r, m),
        Addressing::Immediate => {
            let (b, r1, m1) = fetch_spec::<B>(r, m);
            (b as u16, r1, m1)
        },
        Addressing::ZeroPage => {
            let (b, r1, m1) = fetch_spec::<B>(r, m);
            (b as u16, r1, m1)
        },
        Addressing::Relative => {
            let (b, r1, m1) = fetch_spec::<B>(r, m);
            (relative_target(r1.pc, b), r1, m1)
        },
        Addressing::ZeroPageX => {
            let (b, r1, m1) = fetch_spec::<B>(r, m);
            (((b + r.x) % 256) as u16, r1, m1)
        },
        Addressing::ZeroPageY => {
            let (b, r1, m1) = fetch_spec::<B>(r, m);
            (((b + r.y) % 256) as u16, r1, m1)
        },
        Addressing::Absolute => fetch_word_spec::<B>(r, m),
        Addressing::AbsoluteX => {
            let (w, r1, m1) = fetch_word_spec::<B>(r, m);
            (((w + r.x) % 0x10000) as u16, r1, m1)
        },
        Addressing::AbsoluteY => {
            let (w, r1, m1) = fetch_word_spec::<B>(r, m);
            (((w + r.y) % 0x10000) as u16, r1, m1)
        },
        Addressing::PreIndexedIndirect => {
            let (b, r1, m1) = fetch_spec::<B>(r, m);
            let ptr = (b + r.x) % 256;
            let (a, m2) = read_pair_spec::<B>(m1, ptr as u16, ((ptr + 1) % 256) as u16);
            (a, r1, m2)
        },
        Addressing::PostIndexedIndirect => {
            let (b, r1, m1) = fetch_spec::<B>(r, m);
            let (a, m2) = read_pair_spec::<B>(m1, b as u16, ((b + 1) % 256) as u16);
            (((a + r.y) % 0x10000) as u16, r1, m2)
        },
        Addressing::IndirectAbsolute => {
            let (w, r1, m1) = fetch_word_spec::<B>(r, m);
            let (a, m2) = read_pair_spec::<B>(m1, w, indirect_high_addr(w));
            (a, r1, m2)
        },
    }
}

/// The byte an instruction works on: the operand itself in Immediate mode,
/// else the byte read from the operand's address.
pub open spec fn load_spec<B: Bus>(mode: Addressing, operand: u16, m: B::V) -> (u8, B::V) {
    if mode == Addressing::Immediate {
        (operand as u8, m)
    } else {
        (B::peek(m, operand), B::after_read(m, operand))
    }
}

/// Writes `v` at `0x0100 | SP`, then decrements SP.
pub open spec fn push_spec<B: Bus>(r: Registers, m: B::V, v: u8) -> (Registers, B::V) {
    (Registers { sp: dec8(r.sp), ..r }, B::after_write(m, stack_addr(r.sp), v))
}

/// Increments SP, then reads `0x0100 | SP`.
pub open spec fn pop_spec<B: Bus>(r: Registers, m: B::V) -> (u8, Registers, B::V) {
    let sp = inc8(r.sp);
    (B::peek(m, stack_addr(sp)), Registers { sp: sp, ..r }, B::after_read(m, stack_addr(sp)))
}

/// Pushes PC, high byte first.
pub open spec fn push_pc_spec<B: Bus>(r: Registers, m: B::V) -> (Registers, B::V) {
    let (r1, m1) = push_spec::<B>(r, m, high_byte(r.pc));
    push_spec::<B>(r1, m1, low_byte(r.pc))
}

/// Pops a word, low byte first.
pub open spec fn pop_word_spec<B: Bus>(r: Registers, m: B::V) -> (u16, Registers, B::V) {
    let (lo, r1, m1) = pop_spec::<B>(r, m);
    let (hi, r2, m2) = pop_spec::<B>(r1, m1);
    (word(lo, hi), r2, m2)
}

/// A + v + carry, with carry, overflow, zero and negative set from the sum.
pub open spec fn add_with_carry(r: Registers, v: u8) -> Registers {
    let sum = r.a + v + (if r.p.carry { 1int } else { 0 });
    let res = (sum % 256) as u8;
    Registers {
        a: res,
        p: Status { overflow: signed_overflow(r.a, v, res), carry: sum > 255, ..nz(r.p, res) },
        ..r
    }
}

/// A - v - (1 - carry): an addition of the operand's ones' complement.
pub open spec fn subtract_with_carry(r: Registers, v: u8) -> Registers {
    add_with_carry(r, (255 - v) as u8)
}

/// The flags of a comparison of `reg` with `v`.
pub open spec fn compare(p: Status, reg: u8, v: u8) -> Status {
    Status { carry: reg >= v, ..nz(p, ((reg - v + 256) % 256) as u8) }
}

pub open spec fn with_p(r: Registers, p: Status) -> Registers {
    Registers { p: p, ..r }
}

/// A shift or rotate, on the accumulator in Accumulator mode, else on memory.
pub open spec fn shift_spec<B: Bus>(kind: Shift, mode: Addressing, operand: u16, r: Registers, m: B::V) -> (
    Registers,
    B::V,
) {
    if mode == Addressing::Accumulator {
        let (v, c) = shifted(kind, r.a, r.p.carry);
        (Registers { a: v, p: Status { carry: c, ..nz(r.p, v) }, ..r }, m)
    } else {
        let (v, c) = shifted(kind, B::peek(m, operand), r.p.carry);
        (
            with_p(r, Status { carry: c, ..nz(r.p, v) }),
            B::after_write(B::after_read(m, operand), operand, v),
        )
    }
}

/// Reads the byte at `operand`, writes back `v`, and returns `v` and the new
/// carry, where (`v`, carry) is the shift of the byte read.
pub open spec fn shift_memory_spec<B: Bus>(kind: Shift, operand: u16, r: Registers, m: B::V) -> (
    u8,
    bool,
    B::V,
) {
    let (v, c) = shifted(kind, B::peek(m, operand), r.p.carry);
    (v, c, B::after_write(B::after_read(m, operand), operand, v))
}

/// Adds 1 (or 255) modulo 256 to the byte at `operand` and writes it back.
pub open spec fn step_memory_spec<B: Bus>(operand: u16, m: B::V, up: bool) -> (u8, B::V) {
    let old_v = B::peek(m, operand);
    let v = if up { inc8(old_v) } else { dec8(old_v) };
    (v, B::after_write(B::after_read(m, operand), operand, v))
}

/// A branch: to `target` when `cond` holds, one extra cycle when taken and
/// two when the target lies on another page.
pub open spec fn branch_spec(r: Registers, cond: bool, target: u16) -> (Registers, u8) {
    if cond {
        (Registers { pc: target, ..r }, if crosses_page(r.pc, target) { 2u8 } else { 1u8 })
    } else {
        (r, 0u8)
    }
}

/// Whether a branch instruction's condition holds.
pub open spec fn branch_condition(name: Instruction, p: Status) -> bool {
    match name {
        Instruction::BCC => !p.carry,
        Instruction::BCS => p.carry,
        Instruction::BEQ => p.zero,
        Instruction::BNE => !p.zero,
        Instruction::BMI => p.negative,
        Instruction::BPL => !p.negative,
        Instruction::BVS => p.overflow,
        Instruction::BVC => !p.overflow,
        _ => false,
    }
}

pub open spec fn is_branch(name: Instruction) -> bool {
    name == Instruction::BCC || name == Instruction::BCS || name == Instruction::BEQ || name
        == Instruction::BNE || name == Instruction::BMI || name == Instruction::BPL || name
        == Instruction::BVS || name == Instruction::BVC
}

/// Loads, stores, transfers and stack operations.
pub open spec fn is_transfer(name: Instruction) -> bool {
    name == Instruction::LDA || name == Instruction::LDX || name == Instruction::LDY || name
        == Instruction::LAX || name == Instruction::STA || name == Instruction::STX || name
        == Instruction::STY || name == Instruction::SAX || name == Instruction::TAX || name
        == Instruction::TAY || name == Instruction::TXA || name == Instruction::TYA || name
        == Instruction::TSX || name == Instruction::TXS || name == Instruction::PHA || name
        == Instruction::PHP || name == Instruction::PLA || name == Instruction::PLP
}

/// Arithmetic, logic, shifts, increments and decrements.
pub open spec fn is_arithmetic(name: Instruction) -> bool {
    name == Instruction::ADC || name == Instruction::SBC || name == Instruction::CMP || name
        == Instruction::CPX || name == Instruction::CPY || name == Instruction::AND || name
        == Instruction::ORA || name == Instruction::EOR || name == Instruction::BIT || name
        == Instruction::ASL || name == Instruction::LSR || name == Instruction::ROL || name
        == Instruction::ROR || name == Instruction::INC || name == Instruction::DEC || name
        == Instruction::INX || name == Instruction::INY || name == Instruction::DEX || name
        == Instruction::DEY
}

/// The undocumented read-modify-write combinations.
pub open spec fn is_combined(name: Instruction) -> bool {
    name == Instruction::DCP || name == Instruction::ISB || name == Instruction::SLO || name
        == Instruction::RLA || name == Instruction::SRE || name == Instruction::RRA
}

/// BRK: pushes PC + 1 and the status with break set, sets interrupt-disable,
/// and jumps through the vector at 0xFFFE unless interrupts were disabled.
pub open spec fn brk_spec<B: Bus>(r: Registers, m: B::V) -> (Registers, B::V) {
    let r1 = Registers { pc: inc16(r.pc), ..r };
    let (r2, m2) = push_pc_spec::<B>(r1, m);
    let r3 = with_p(r2, Status { break_mode: true, ..r2.p });
    let (r4, m4) = push_spec::<B>(r3, m2, status_byte(r3.p));
    let r5 = with_p(r4, Status { interrupt: true, ..r4.p });
    if !r.p.interrupt {
        let (v, m6) = read_word_spec::<B>(m4, 0xFFFE);
        (Registers { pc: v, ..r5 }, m6)
    } else {
        (r5, m4)
    }
}

/// The non-maskable interrupt: clears break, pushes PC and the status, sets
/// interrupt-disable and jumps through the vector at 0xFFFA.
pub open spec fn nmi_spec<B: Bus>(r: Registers, m: B::V) -> (Registers, B::V) {
    let r1 = with_p(r, Status { break_mode: false, ..r.p });
    let (r2, m2) = push_pc_spec::<B>(r1, m);
    let (r3, m3) = push_spec::<B>(r2, m2, status_byte(r2.p));
    let (v, m4) = read_word_spec::<B>(m3, 0xFFFA);
    (Registers { pc: v, p: Status { interrupt: true, ..r3.p }, ..r3 }, m4)
}

/// What an instruction does, once its operand is resolved: the new registers,
/// the new bus state, and the cycles added to the base cost.
#[verifier::opaque]
pub open spec fn execute_spec<B: Bus>(op: Opcode, operand: u16, r: Registers, m: B::V) -> (
    Registers,
    B::V,
    u8,
) {
    let mode = op.mode;
    match op.name {
        Instruction::LDA => {
            let (v, m1) = load_spec::<B>(mode, operand, m);
            (Registers { a: v, p: nz(r.p, v), ..r }, m1, 0)
        },
        Instruction::LDX => {
            let (v, m1) = load_spec::<B>(mode, operand, m);
            (Registers { x: v, p: nz(r.p, v), ..r }, m1, 0)
        },
        Instruction::LDY => {
            let (v, m1) = load_spec::<B>(mode, operand, m);
            (Registers { y: v, p: nz(r.p, v), ..r }, m1, 0)
        },
        Instruction::LAX => {
            let (v, m1) = load_spec::<B>(mode, operand, m);
            (Registers { a: v, x: v, p: nz(r.p, v), ..r }, m1, 0)
        },
        Instruction::STA => (r, B::after_write(m, operand, r.a), 0),
        Instruction::STX => (r, B::after_write(m, operand, r.x), 0),
        Instruction::STY => (r, B::after_write(m, operand, r.y), 0),
        Instruction::SAX => (r, B::after_write(m, operand, r.a & r.x), 0),
        Instruction::TAX => (Registers { x: r.a, p: nz(r.p, r.a), ..r }, m, 0),
        Instruction::TAY => (Registers { y: r.a, p: nz(r.p, r.a), ..r }, m, 0),
        Instruction::TXA => (Registers { a: r.x, p: nz(r.p, r.x), ..r }, m, 0),
        Instruction::TYA => (Registers { a: r.y, p: nz(r.p, r.y), ..r }, m, 0),
        Instruction::TSX => (Registers { x: r.sp, p: nz(r.p, r.sp), ..r }, m, 0),
        Instruction::TXS => (Registers { sp: r.x, ..r }, m, 0),
        Instruction::PHA => {
            let (r1, m1) = push_spec::<B>(r, m, r.a);
            (r1, m1, 0)
        },
        Instruction::PHP => {
            let r1 = with_p(r, Status { break_mode: true, ..r.p });
            let (r2, m2) = push_spec::<B>(r1, m, status_byte(r1.p));
            (r2, m2, 0)
        },
        Instruction::PLA => {
            let (v, r1, m1) = pop_spec::<B>(r, m);
            (Registers { a: v, p: nz(r1.p, v), ..r1 }, m1, 0)
        },
        Instruction::PLP => {
            let (v, r1, m1) = pop_spec::<B>(r, m);
            (with_p(r1, status_of(v)), m1, 0)
        },
        Instruction::ADC => {
            let (v, m1) = load_spec::<B>(mode, operand, m);
            (add_with_carry(r, v), m1, 0)
        },
        Instruction::SBC => {
            let (v, m1) = load_spec::<B>(mode, operand, m);
            (subtract_with_carry(r, v), m1, 0)
        },
        Instruction::CMP => {
            let (v, m1) = load_spec::<B>(mode, operand, m);
            (with_p(r, compare(r.p, r.a, v)), m1, 0)
        },
        Instruction::CPX => {
            let (v, m1) = load_spec::<B>(mode, operand, m);
            (with_p(r, compare(r.p, r.x, v)), m1, 0)
        },
        Instruction::CPY => {
            let (v, m1) = load_spec::<B>(mode, operand, m);
            (with_p(r, compare(r.p, r.y, v)), m1, 0)
        },
        Instruction::AND => {
            let (v, m1) = load_spec::<B>(mode, operand, m);
            (Registers { a: r.a & v, p: nz(r.p, r.a & v), ..r }, m1, 0)
        },
        Instruction::ORA => {
            let (v, m1) = load_spec::<B>(mode, operand, m);
            (Registers { a: r.a | v, p: nz(r.p, r.a | v), ..r }, m1, 0)
        },
        Instruction::EOR => {
            let (v, m1) = load_spec::<B>(mode, operand, m);
            (Registers { a: r.a ^ v, p: nz(r.p, r.a ^ v), ..r }, m1, 0)
        },
        Instruction::BIT => {
            let v = B::peek(m, operand);
            (
                with_p(
                    r,
                    Status { negative: is_negative(v), overflow: v & 0x40 == 0x40, zero: r.a & v == 0, ..r.p },
                ),
                B::after_read(m, operand),
                0,
            )
        },
        Instruction::ASL => {
            let (r1, m1) = shift_spec::<B>(Shift::Asl, mode, operand, r, m);
            (r1, m1, 0)
        },
        Instruction::LSR => {
            let (r1, m1) = shift_spec::<B>(Shift::Lsr, mode, operand, r, m);
            (r1, m1, 0)
        },
        Instruction::ROL => {
            let (r1, m1) = shift_spec::<B>(Shift::Rol, mode, operand, r, m);
            (r1, m1, 0)
        },
        Instruction::ROR => {
            let (r1, m1) = shift_spec::<B>(Shift::Ror, mode, operand, r, m);
            (r1, m1, 0)
        },
        Instruction::INC => {
            let (v, m1) = step_memory_spec::<B>(operand, m, true);
            (with_p(r, nz(r.p, v)), m1, 0)
        },
        Instruction::DEC => {
            let (v, m1) = step_memory_spec::<B>(operand, m, false);
            (with_p(r, nz(r.p, v)), m1, 0)
        },
        Instruction::INX => (Registers { x: inc8(r.x), p: nz(r.p, inc8(r.x)), ..r }, m, 0),
        Instruction::INY => (Registers { y: inc8(r.y), p: nz(r.p, inc8(r.y)), ..r }, m, 0),
        Instruction::DEX => (Registers { x: dec8(r.x), p: nz(r.p, dec8(r.x)), ..r }, m, 0),
        Instruction::DEY => (Registers { y: dec8(r.y), p: nz(r.p, dec8(r.y)), ..r }, m, 0),
        Instruction::CLC => (with_p(r, Status { carry: false, ..r.p }), m, 0),
        Instruction::CLD => (with_p(r, Status { decimal_mode: false, ..r.p }), m, 0),
        Instruction::CLI => (with_p(r, Status { interrupt: false, ..r.p }), m, 0),
        Instruction::CLV => (with_p(r, Status { overflow: false, ..r.p }), m, 0),
        Instruction::SEC => (with_p(r, Status { carry: true, ..r.p }), m, 0),
        Instruction::SED => (with_p(r, Status { decimal_mode: true, ..r.p }), m, 0),
        Instruction::SEI => (with_p(r, Status { interrupt: true, ..r.p }), m, 0),
        Instruction::NOP => (r, m, 0),
        Instruction::JMP => (Registers { pc: operand, ..r }, m, 0),
        Instruction::JSR => {
            let (r1, m1) = push_pc_spec::<B>(Registers { pc: dec16(r.pc), ..r }, m);
            (Registers { pc: operand, ..r1 }, m1, 0)
        },
        Instruction::RTS => {
            let (w, r1, m1) = pop_word_spec::<B>(r, m);
            (Registers { pc: inc16(w), ..r1 }, m1, 0)
        },
        Instruction::RTI => {
            let (s, r1, m1) = pop_spec::<B>(r, m);
            let (w, r2, m2) = pop_word_spec::<B>(r1, m1);
            (Registers { pc: w, p: status_of(s), ..r2 }, m2, 0)
        },
        Instruction::BRK => {
            let (r1, m1) = brk_spec::<B>(r, m);
            (r1, m1, 0)
        },
        Instruction::DCP => {
            let (v, m1) = step_memory_spec::<B>(operand, m, false);
            (with_p(r, compare(r.p, r.a, v)), m1, 0)
        },
        Instruction::ISB => {
            let (v, m1) = step_memory_spec::<B>(operand, m, true);
            (subtract_with_carry(r, v), m1, 0)
        },
        Instruction::SLO => {
            let (v, c, m1) = shift_memory_spec::<B>(Shift::Asl, operand, r, m);
            (Registers { a: r.a | v, p: Status { carry: c, ..nz(r.p, r.a | v) }, ..r }, m1, 0)
        },
        Instruction::RLA => {
            let (v, c, m1) = shift_memory_spec::<B>(Shift::Rol, operand, r, m);
            (Registers { a: r.a & v, p: Status { carry: c, ..nz(r.p, r.a & v) }, ..r }, m1, 0)
        },
        Instruction::SRE => {
            let (v, c, m1) = shift_memory_spec::<B>(Shift::Lsr, operand, r, m);
            (Registers { a: r.a ^ v, p: Status { carry: c, ..nz(r.p, r.a ^ v) }, ..r }, m1, 0)
        },
        Instruction::RRA => {
            let (v, c, m1) = shift_memory_spec::<B>(Shift::Ror, operand, r, m);
            (add_with_carry(with_p(r, Status { carry: c, ..r.p }), v), m1, 0)
        },
        _ => {
            let (r1, extra) = branch_spec(r, branch_condition(op.name, r.p), operand);
            (r1, m, extra)
        },
    }
}

/// One step of the processor: a pending NMI is taken first, then one
/// instruction is fetched, decoded, its operand resolved and it is executed.
/// Gives the cycle cost, or the decode error for an opcode without a table entry.
pub open spec fn step_spec<B: Bus>(r: Registers, m: B::V, nmi: bool) -> (
    Result<u8, DecodeError>,
    Registers,
    B::V,
) {
    let (r0, m0) = if nmi {
        nmi_spec::<B>(r, m)
    } else {
        (r, m)
    };
    let (code, r1, m1) = fetch_spec::<B>(r0, m0);
    match opcode_table(code) {
        None => (Err(DecodeError { opcode: code, pc: r0.pc }), r1, m1),
        Some(op) => {
            let (operand, r2, m2) = operand_spec::<B>(op.mode, r1, m1);
            let (r3, m3, extra) = execute_spec::<B>(op, operand, r2, m2);
            (Ok((op.cycle + extra) as u8), r3, m3)
        },
    }
}

/// The state after a reset: power-on registers with PC loaded from 0xFFFC/0xFFFD.
pub open spec fn reset_spec<B: Bus>(m: B::V) -> (Registers, B::V) {
    let (pc, m1) = read_word_spec::<B>(m, 0xFFFC);
    (Registers { pc: pc, ..power_on_registers() }, m1)
}

} // verus!
