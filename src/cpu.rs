use vstd::prelude::*;
use crate::bus::Bus;
use crate::opcode::{Addressing, Instruction, Opcode, decode};
use crate::registers::{
    ByteRegister, Registers, Status, dec16, dec8, inc16, inc8, is_negative, power_on_registers,
    status_byte, status_of,
};
use crate::semantics::{
    DecodeError, Shift, add_with_carry, branch_condition, branch_spec, brk_spec, compare,
    execute_spec, fetch_spec, fetch_word_spec, is_arithmetic, is_branch, is_combined, is_transfer,
    load_spec, nmi_spec, nz, operand_spec, pop_spec, pop_word_spec, push_pc_spec, push_spec,
    read_pair_spec, read_word_spec, reset_spec, shift_memory_spec, shift_spec, shifted,
    step_memory_spec, step_spec, with_p,
};

verus! {

/// The CPU engine: it owns the register file and works on a bus handed to each call.
#[derive(Debug)]
pub struct Cpu {
    pub registers: Registers,
}

/// A shift or rotate of `v` with carry-in `c`: the new byte and the carry-out.
fn shift_value(kind: Shift, v: u8, c: bool) -> (r: (u8, bool))
    ensures
        r == shifted(kind, v, c),
{
    match kind {
        Shift::Asl => (((v as u16 * 2) % 256) as u8, v >= 0x80),
        Shift::Lsr => (v / 2, v % 2 == 1),
        Shift::Rol => (((v as u16 * 2 + if c { 1 } else { 0 }) % 256) as u8, v >= 0x80),
        Shift::Ror => (v / 2 + if c { 0x80 } else { 0 }, v % 2 == 1),
    }
}

fn is_transfer_exec(name: Instruction) -> (r: bool)
    ensures
        r == is_transfer(name),
{
    match name {
        Instruction::LDA | Instruction::LDX | Instruction::LDY | Instruction::LAX | Instruction::STA |
        Instruction::STX | Instruction::STY | Instruction::SAX | Instruction::TAX | Instruction::TAY |
        Instruction::TXA | Instruction::TYA | Instruction::TSX | Instruction::TXS | Instruction::PHA |
        Instruction::PHP | Instruction::PLA | Instruction::PLP => true,
        _ => false,
    }
}

fn is_arithmetic_exec(name: Instruction) -> (r: bool)
    ensures
        r == is_arithmetic(name),
{
    match name {
        Instruction::ADC | Instruction::SBC | Instruction::CMP | Instruction::CPX | Instruction::CPY |
        Instruction::AND | Instruction::ORA | Instruction::EOR | Instruction::BIT | Instruction::ASL |
        Instruction::LSR | Instruction::ROL | Instruction::ROR | Instruction::INC | Instruction::DEC |
        Instruction::INX | Instruction::INY | Instruction::DEX | Instruction::DEY => true,
        _ => false,
    }
}

fn is_combined_exec(name: Instruction) -> (r: bool)
    ensures
        r == is_combined(name),
{
    match name {
        Instruction::DCP | Instruction::ISB | Instruction::SLO | Instruction::RLA | Instruction::SRE |
        Instruction::RRA => true,
        _ => false,
    }
}

fn is_branch_exec(name: Instruction) -> (r: bool)
    ensures
        r == is_branch(name),
{
    match name {
        Instruction::BCC | Instruction::BCS | Instruction::BEQ | Instruction::BNE | Instruction::BMI |
        Instruction::BPL | Instruction::BVS | Instruction::BVC => true,
        _ => false,
    }
}

/// Whether a branch instruction's condition holds on the flags `p`.
fn branch_taken(name: Instruction, p: Status) -> (r: bool)
    ensures
        r == branch_condition(name, p),
{
    match name {
        Instruction::BCC => !p.carry,
        Instruction::BCS => p.carry,
        Instruction::BEQ => p.zero,
        Instruction::BNE => !p.zero,
        Instruction::BMI => p.negative,
        Instruction::BPL => !p.negative,
        Instruction::BVS => p.overflow,
        Instruction::BVC => !p.overflow,
        _ => false,
    }
}

impl Cpu {
    pub fn new() -> (r: Cpu)
        ensures
            r.registers == power_on_registers(),
    {
        Cpu { registers: Registers::new() }
    }

    /// Reinitialises the registers and loads PC from the reset vector at 0xFFFC/0xFFFD.
    pub fn reset<B: Bus>(&mut self, bus: &mut B)
        ensures
            (final(self).registers, final(bus)@) == reset_spec::<B>(old(bus)@),
    {
        let pc = Self::read_word(bus, 0xFFFC);
        self.registers.reset().set_pc(pc);
    }

    /// Runs one step: takes a pending NMI (and clears the request), then fetches,
    /// decodes and executes one instruction. Returns the cycles it cost, or the
    /// decode error for an opcode byte without a table entry.
    pub fn run<B: Bus>(&mut self, bus: &mut B, nmi: &mut bool) -> (r: Result<u8, DecodeError>)
        ensures
            (r, final(self).registers, final(bus)@) == step_spec::<B>(
                old(self).registers,
                old(bus)@,
                *old(nmi),
            ),
            !*final(nmi),
            r matches Ok(c) ==> 2 <= c <= 10,
    {
        if *nmi {
            self.process_nmi(bus);
            *nmi = false;
        }
        let pc = self.registers.get_pc();
        let code = self.fetch(bus);
        match decode(code) {
            None => Err(DecodeError { opcode: code, pc }),
            Some(op) => {
                let opeland = self.fetch_opeland(op.mode, bus);
                let extra = self.execute(&op, opeland, bus);
                Ok(op.cycle + extra)
            },
        }
    }

    /// Executes a decoded instruction whose operand has been resolved; returns
    /// the cycles added to the base cost (taken branches only).
    pub fn execute<B: Bus>(&mut self, op: &Opcode, opeland: u16, bus: &mut B) -> (r: u8)
        ensures
            (final(self).registers, final(bus)@, r) == execute_spec::<B>(
                *op,
                opeland,
                old(self).registers,
                old(bus)@,
            ),
            r <= 2,
    {
        if is_transfer_exec(op.name) {
            self.execute_transfer(op, opeland, bus)
        } else if is_arithmetic_exec(op.name) {
            self.execute_arithmetic(op, opeland, bus)
        } else if is_combined_exec(op.name) {
            self.execute_combined(op, opeland, bus)
        } else if is_branch_exec(op.name) {
            self.execute_branch(op, opeland, bus)
        } else {
            self.execute_control(op, opeland, bus)
        }
    }

    /// Loads, stores, transfers and stack operations.
    fn execute_transfer<B: Bus>(&mut self, op: &Opcode, opeland: u16, bus: &mut B) -> (r: u8)
        requires
            is_transfer(op.name),
        ensures
            (final(self).registers, final(bus)@, r) == execute_spec::<B>(
                *op,
                opeland,
                old(self).registers,
                old(bus)@,
            ),
            r <= 2,
    {
        proof {
            reveal(execute_spec);
        }
        match op.name {
                Instruction::LDA => self.lda(op, opeland, bus),
                Instruction::LDX => self.ldx(op, opeland, bus),
                Instruction::LDY => self.ldy(op, opeland, bus),
                Instruction::LAX => self.lax(op, opeland, bus),
                Instruction::STA => self.sta(opeland, bus),
                Instruction::STX => self.stx(opeland, bus),
                Instruction::STY => self.sty(opeland, bus),
                Instruction::SAX => self.sax(opeland, bus),
                Instruction::TAX => self.tax(),
                Instruction::TAY => self.tay(),
                Instruction::TXA => self.txa(),
                Instruction::TYA => self.tya(),
                Instruction::TSX => self.tsx(),
                Instruction::TXS => self.txs(),
                Instruction::PHA => self.pha(bus),
                Instruction::PHP => self.php(bus),
                Instruction::PLA => self.pla(bus),
                Instruction::PLP => self.plp(bus),
            _ => {},
        }
        0
    }

    /// Arithmetic, logic, shifts, increments and decrements.
    fn execute_arithmetic<B: Bus>(&mut self, op: &Opcode, opeland: u16, bus: &mut B) -> (r: u8)
        requires
            is_arithmetic(op.name),
        ensures
            (final(self).registers, final(bus)@, r) == execute_spec::<B>(
                *op,
                opeland,
                old(self).registers,
                old(bus)@,
            ),
            r <= 2,
    {
        proof {
            reveal(execute_spec);
        }
        match op.name {
                Instruction::ADC => self.adc(op, opeland, bus),
                Instruction::SBC => self.sbc(op, opeland, bus),
                Instruction::CMP => self.cmp(op, opeland, bus),
                Instruction::CPX => self.cpx(op, opeland, bus),
                Instruction::CPY => self.cpy(op, opeland, bus),
                Instruction::AND => self.and(op, opeland, bus),
                Instruction::ORA => self.ora(op, opeland, bus),
                Instruction::EOR => self.eor(op, opeland, bus),
                Instruction::BIT => self.bit(opeland, bus),
                Instruction::ASL => self.asl(op, opeland, bus),
                Instruction::LSR => self.lsr(op, opeland, bus),
                Instruction::ROL => self.rol(op, opeland, bus),
                Instruction::ROR => self.ror(op, opeland, bus),
                Instruction::INC => self.inc(opeland, bus),
                Instruction::DEC => self.dec(opeland, bus),
                Instruction::INX => self.inx(),
                Instruction::INY => self.iny(),
                Instruction::DEX => self.dex(),
                Instruction::DEY => self.dey(),
            _ => {},
        }
        0
    }

    /// The undocumented read-modify-write combinations.
    fn execute_combined<B: Bus>(&mut self, op: &Opcode, opeland: u16, bus: &mut B) -> (r: u8)
        requires
            is_combined(op.name),
        ensures
            (final(self).registers, final(bus)@, r) == execute_spec::<B>(
                *op,
                opeland,
                old(self).registers,
                old(bus)@,
            ),
            r <= 2,
    {
        proof {
            reveal(execute_spec);
        }
        match op.name {
                Instruction::DCP => self.dcp(opeland, bus),
                Instruction::ISB => self.isb(opeland, bus),
                Instruction::SLO => self.slo(opeland, bus),
                Instruction::RLA => self.rla(opeland, bus),
                Instruction::SRE => self.sre(opeland, bus),
                Instruction::RRA => self.rra(opeland, bus),
            _ => {},
        }
        0
    }

    /// The conditional branches.
    fn execute_branch<B: Bus>(&mut self, op: &Opcode, opeland: u16, bus: &mut B) -> (r: u8)
        requires
            is_branch(op.name),
        ensures
            (final(self).registers, final(bus)@, r) == execute_spec::<B>(
                *op,
                opeland,
                old(self).registers,
                old(bus)@,
            ),
            r <= 2,
    {
        proof {
            reveal(execute_spec);
        }
        let cond = branch_taken(op.name, self.registers.p);
        self.branch_if(cond, opeland)
    }

    /// Flag operations, jumps, returns, BRK and NOP.
    fn execute_control<B: Bus>(&mut self, op: &Opcode, opeland: u16, bus: &mut B) -> (r: u8)
        requires
            !is_transfer(op.name) && !is_arithmetic(op.name) && !is_combined(op.name) && !is_branch(op.name),
        ensures
            (final(self).registers, final(bus)@, r) == execute_spec::<B>(
                *op,
                opeland,
                old(self).registers,
                old(bus)@,
            ),
            r <= 2,
    {
        proof {
            reveal(execute_spec);
        }
        match op.name {
                Instruction::CLC => {
                    self.registers.set_carry(false);
                },
                Instruction::CLD => {
                    self.registers.set_decimal(false);
                },
                Instruction::CLI => {
                    self.registers.set_interrupt(false);
                },
                Instruction::CLV => {
                    self.registers.set_overflow(false);
                },
                Instruction::SEC => {
                    self.registers.set_carry(true);
                },
                Instruction::SED => {
                    self.registers.set_decimal(true);
                },
                Instruction::SEI => {
                    self.registers.set_interrupt(true);
                },
                Instruction::NOP => {},
                Instruction::JMP => self.branch(opeland),
                Instruction::JSR => self.jsr(opeland, bus),
                Instruction::RTS => self.rts(bus),
                Instruction::RTI => self.rti(bus),
                Instruction::BRK => self.brk(bus),
            _ => {},
        }
        0
    }

    fn fetch<B: Bus>(&mut self, bus: &mut B) -> (r: u8)
        ensures
            (r, final(self).registers, final(bus)@) == fetch_spec::<B>(old(self).registers, old(bus)@),
    {
        let code = bus.read(self.registers.get_pc());
        self.registers.update_pc();
        code
    }

    fn fetch_word<B: Bus>(&mut self, bus: &mut B) -> (r: u16)
        ensures
            (r, final(self).registers, final(bus)@) == fetch_word_spec::<B>(
                old(self).registers,
                old(bus)@,
            ),
    {
        let lower = self.fetch(bus);
        let upper = self.fetch(bus);
        upper as u16 * 256 + lower as u16
    }

    /// Reads a word: the low byte at `lo_addr`, then the high byte at `hi_addr`.
    fn read_pair<B: Bus>(bus: &mut B, lo_addr: u16, hi_addr: u16) -> (r: u16)
        ensures
            (r, final(bus)@) == read_pair_spec::<B>(old(bus)@, lo_addr, hi_addr),
    {
        let lower = bus.read(lo_addr);
        let upper = bus.read(hi_addr);
        upper as u16 * 256 + lower as u16
    }

    fn read_word<B: Bus>(bus: &mut B, addr: u16) -> (r: u16)
        ensures
            (r, final(bus)@) == read_word_spec::<B>(old(bus)@, addr),
    {
        let next: u16 = if addr == 0xFFFF {
            0
        } else {
            addr + 1
        };
        Self::read_pair(bus, addr, next)
    }

    fn fetch_relative<B: Bus>(&mut self, bus: &mut B) -> (r: u16)
        ensures
            (r, final(self).registers, final(bus)@) == operand_spec::<B>(
                Addressing::Relative,
                old(self).registers,
                old(bus)@,
            ),
    {
        let base = self.fetch(bus) as u32;
        let pc = self.registers.get_pc() as u32;
        let target: u32 = if base < 0x80 {
            (pc + base) % 0x10000
        } else {
            (pc + base + 0xFF00) % 0x10000
        };
        target as u16
    }

    fn fetch_zeropage_x<B: Bus>(&mut self, bus: &mut B) -> (r: u16)
        ensures
            (r, final(self).registers, final(bus)@) == operand_spec::<B>(
                Addressing::ZeroPageX,
                old(self).registers,
                old(bus)@,
            ),
    {
        let addr = self.fetch(bus) as u16;
        (addr + self.registers.get(ByteRegister::X) as u16) % 256
    }

    fn fetch_zeropage_y<B: Bus>(&mut self, bus: &mut B) -> (r: u16)
        ensures
            (r, final(self).registers, final(bus)@) == operand_spec::<B>(
                Addressing::ZeroPageY,
                old(self).registers,
                old(bus)@,
            ),
    {
        let addr = self.fetch(bus) as u16;
        (addr + self.registers.get(ByteRegister::Y) as u16) % 256
    }

    fn fetch_absolute_x<B: Bus>(&mut self, bus: &mut B) -> (r: u16)
        ensures
            (r, final(self).registers, final(bus)@) == operand_spec::<B>(
                Addressing::AbsoluteX,
                old(self).registers,
                old(bus)@,
            ),
    {
        let addr = self.fetch_word(bus) as u32;
        ((addr + self.registers.get(ByteRegister::X) as u32) % 0x10000) as u16
    }

    fn fetch_absolute_y<B: Bus>(&mut self, bus: &mut B) -> (r: u16)
        ensures
            (r, final(self).registers, final(bus)@) == operand_spec::<B>(
                Addressing::AbsoluteY,
                old(self).registers,
                old(bus)@,
            ),
    {
        let addr = self.fetch_word(bus) as u32;
        ((addr + self.registers.get(ByteRegister::Y) as u32) % 0x10000) as u16
    }

    fn fetch_pre_indexed_indirect<B: Bus>(&mut self, bus: &mut B) -> (r: u16)
        ensures
            (r, final(self).registers, final(bus)@) == operand_spec::<B>(
                Addressing::PreIndexedIndirect,
                old(self).registers,
                old(bus)@,
            ),
    {
        let base = self.fetch(bus) as u16;
        let ptr = (base + self.registers.get(ByteRegister::X) as u16) % 256;
        Self::read_pair(bus, ptr, (ptr + 1) % 256)
    }

    fn fetch_post_indexed_indirect<B: Bus>(&mut self, bus: &mut B) -> (r: u16)
        ensures
            (r, final(self).registers, final(bus)@) == operand_spec::<B>(
                Addressing::PostIndexedIndirect,
                old(self).registers,
                old(bus)@,
            ),
    {
        let ptr = self.fetch(bus) as u16;
        let addr = Self::read_pair(bus, ptr, (ptr + 1) % 256) as u32;
        ((addr + self.registers.get(ByteRegister::Y) as u32) % 0x10000) as u16
    }

    fn fetch_indirect_absolute<B: Bus>(&mut self, bus: &mut B) -> (r: u16)
        ensures
            (r, final(self).registers, final(bus)@) == operand_spec::<B>(
                Addressing::IndirectAbsolute,
                old(self).registers,
                old(bus)@,
            ),
    {
        let ptr = self.fetch_word(bus);
        let p = ptr as u32;
        let upper_addr = (p - p % 256 + (p % 256 + 1) % 256) as u16;
        Self::read_pair(bus, ptr, upper_addr)
    }

    /// Resolves the operand of `mode`, advancing PC past its bytes.
    fn fetch_opeland<B: Bus>(&mut self, mode: Addressing, bus: &mut B) -> (r: u16)
        ensures
            (r, final(self).registers, final(bus)@) == operand_spec::<B>(
                mode,
                old(self).registers,
                old(bus)@,
            ),
    {
        match mode {
            Addressing::Accumulator => 0x0000,
            Addressing::Implied => 0x0000,
            Addressing::Immediate => self.fetch(bus) as u16,
            Addressing::Relative => self.fetch_relative(bus),
            Addressing::ZeroPage => self.fetch(bus) as u16,
            Addressing::ZeroPageX => self.fetch_zeropage_x(bus),
            Addressing::ZeroPageY => self.fetch_zeropage_y(bus),
            Addressing::Absolute => self.fetch_word(bus),
            Addressing::AbsoluteX => self.fetch_absolute_x(bus),
            Addressing::AbsoluteY => self.fetch_absolute_y(bus),
            Addressing::PreIndexedIndirect => self.fetch_pre_indexed_indirect(bus),
            Addressing::PostIndexedIndirect => self.fetch_post_indexed_indirect(bus),
            Addressing::IndirectAbsolute => self.fetch_indirect_absolute(bus),
        }
    }

    /// The byte an instruction works on: the operand in Immediate mode, else the
    /// byte at the operand's address.
    fn load<B: Bus>(mode: Addressing, opeland: u16, bus: &mut B) -> (r: u8)
        ensures
            (r, final(bus)@) == load_spec::<B>(mode, opeland, old(bus)@),
    {
        match mode {
            Addressing::Immediate => opeland as u8,
            _ => bus.read(opeland),
        }
    }

    /// Jumps to `addr`.
    pub fn branch(&mut self, addr: u16)
        ensures
            final(self).registers == (Registers { pc: addr, ..old(self).registers }),
    {
        self.registers.set_pc(addr);
    }

    /// Jumps to `addr` when `cond` holds; returns the extra cycles.
    fn branch_if(&mut self, cond: bool, addr: u16) -> (r: u8)
        ensures
            (final(self).registers, r) == branch_spec(old(self).registers, cond, addr),
    {
        if cond {
            let pc = self.registers.get_pc();
            self.branch(addr);
            if pc / 256 != addr / 256 {
                2
            } else {
                1
            }
        } else {
            0
        }
    }

    /// Pushes the status byte.
    fn push_status<B: Bus>(&mut self, bus: &mut B)
        ensures
            (final(self).registers, final(bus)@) == push_spec::<B>(
                old(self).registers,
                old(bus)@,
                status_byte(old(self).registers.p),
            ),
    {
        let status = self.registers.get(ByteRegister::P);
        self.push(status, bus);
    }

    /// Writes `data` at `0x0100 | SP`, then decrements SP.
    pub fn push<B: Bus>(&mut self, data: u8, bus: &mut B)
        ensures
            (final(self).registers, final(bus)@) == push_spec::<B>(old(self).registers, old(bus)@, data),
    {
        let addr = 0x0100 + self.registers.get(ByteRegister::SP) as u16;
        bus.write(addr, data);
        self.registers.dec_sp();
    }

    /// Increments SP, then reads `0x0100 | SP`.
    pub fn pop<B: Bus>(&mut self, bus: &mut B) -> (r: u8)
        ensures
            (r, final(self).registers, final(bus)@) == pop_spec::<B>(old(self).registers, old(bus)@),
    {
        self.registers.inc_sp();
        let addr = 0x0100 + self.registers.get(ByteRegister::SP) as u16;
        bus.read(addr)
    }

    fn push_pc<B: Bus>(&mut self, bus: &mut B)
        ensures
            (final(self).registers, final(bus)@) == push_pc_spec::<B>(old(self).registers, old(bus)@),
    {
        let pc = self.registers.get_pc();
        self.push((pc / 256) as u8, bus);
        self.push((pc % 256) as u8, bus);
    }

    fn pop_word<B: Bus>(&mut self, bus: &mut B) -> (r: u16)
        ensures
            (r, final(self).registers, final(bus)@) == pop_word_spec::<B>(
                old(self).registers,
                old(bus)@,
            ),
    {
        let lower = self.pop(bus);
        let upper = self.pop(bus);
        upper as u16 * 256 + lower as u16
    }

    fn process_nmi<B: Bus>(&mut self, bus: &mut B)
        ensures
            (final(self).registers, final(bus)@) == nmi_spec::<B>(old(self).registers, old(bus)@),
    {
        self.registers.set_break(false);
        self.push_pc(bus);
        self.push_status(bus);
        self.registers.set_interrupt(true);
        let pc = Self::read_word(bus, 0xFFFA);
        self.registers.set_pc(pc);
    }

    /// Sets A, the carry, overflow, zero and negative flags from A + v + carry.
    fn add_to_acc(&mut self, fetched: u8)
        ensures
            final(self).registers == add_with_carry(old(self).registers, fetched),
    {
        let carry: u16 = if self.registers.p.carry {
            1
        } else {
            0
        };
        let sum = self.registers.a as u16 + fetched as u16 + carry;
        let computed = (sum % 256) as u8;
        self.registers.update_overflow(fetched, computed).update_negative(computed).update_zero(
            computed,
        ).set_carry(sum > 0xFF).set_acc(computed);
    }

    /// Sets the carry, zero and negative flags from a comparison of `reg` with `fetched`.
    fn compare_with(&mut self, reg: u8, fetched: u8)
        ensures
            final(self).registers == with_p(old(self).registers, compare(old(self).registers.p, reg, fetched)),
    {
        let computed = ((reg as u16 + 256 - fetched as u16) % 256) as u8;
        self.registers.update_negative(computed).update_zero(computed).set_carry(reg >= fetched);
    }

    /// Shifts the byte at `opeland` in memory; returns the new byte and carry.
    fn shift_memory<B: Bus>(&mut self, kind: Shift, opeland: u16, bus: &mut B) -> (r: (u8, bool))
        ensures
            (r.0, r.1, final(bus)@) == shift_memory_spec::<B>(kind, opeland, old(self).registers, old(bus)@),
            final(self).registers == old(self).registers,
    {
        let data = bus.read(opeland);
        let (v, c) = shift_value(kind, data, self.registers.p.carry);
        bus.write(opeland, v);
        (v, c)
    }

    fn shift<B: Bus>(&mut self, kind: Shift, mode: Addressing, opeland: u16, bus: &mut B)
        ensures
            (final(self).registers, final(bus)@) == shift_spec::<B>(
                kind,
                mode,
                opeland,
                old(self).registers,
                old(bus)@,
            ),
    {
        match mode {
            Addressing::Accumulator => {
                let (v, c) = shift_value(kind, self.registers.a, self.registers.p.carry);
                self.registers.set_acc(v).update_negative(v).update_zero(v).set_carry(c);
            },
            _ => {
                let (v, c) = self.shift_memory(kind, opeland, bus);
                self.registers.update_negative(v).update_zero(v).set_carry(c);
            },
        }
    }

    /// Adds 1 (`up`) or 255 modulo 256 to the byte at `opeland`; returns the new byte.
    fn step_memory<B: Bus>(opeland: u16, bus: &mut B, up: bool) -> (r: u8)
        ensures
            (r, final(bus)@) == step_memory_spec::<B>(opeland, old(bus)@, up),
    {
        let data = bus.read(opeland);
        let v = if up {
            if data == 0xFF {
                0
            } else {
                data + 1
            }
        } else {
            if data == 0 {
                0xFF
            } else {
                data - 1
            }
        };
        bus.write(opeland, v);
        v
    }

    pub fn lda<B: Bus>(&mut self, code: &Opcode, opeland: u16, bus: &mut B)
        ensures
            (final(self).registers, final(bus)@, 0u8) == execute_spec::<B>(
                Opcode { name: Instruction::LDA, ..*code },
                opeland,
                old(self).registers,
                old(bus)@,
            ),
    {
        proof {
            reveal(execute_spec);
        }
        let computed = Self::load(code.mode, opeland, bus);
        self.registers.set_acc(computed).update_negative(computed).update_zero(computed);
    }

    pub fn ldx<B: Bus>(&mut self, code: &Opcode, opeland: u16, bus: &mut B)
        ensures
            (final(self).registers, final(bus)@, 0u8) == execute_spec::<B>(
                Opcode { name: Instruction::LDX, ..*code },
                opeland,
                old(self).registers,
                old(bus)@,
            ),
    {
        proof {
            reveal(execute_spec);
        }
        let computed = Self::load(code.mode, opeland, bus);
        self.registers.set_x(computed).update_negative(computed).update_zero(computed);
    }

    pub fn ldy<B: Bus>(&mut self, code: &Opcode, opeland: u16, bus: &mut B)
        ensures
            (final(self).registers, final(bus)@, 0u8) == execute_spec::<B>(
                Opcode { name: Instruction::LDY, ..*code },
                opeland,
                old(self).registers,
                old(bus)@,
            ),
    {
        proof {
            reveal(execute_spec);
        }
        let computed = Self::load(code.mode, opeland, bus);
        self.registers.set_y(computed).update_negative(computed).update_zero(computed);
    }

    /// Loads A and X together.
    pub fn lax<B: Bus>(&mut self, code: &Opcode, opeland: u16, bus: &mut B)
        ensures
            (final(self).registers, final(bus)@, 0u8) == execute_spec::<B>(
                Opcode { name: Instruction::LAX, ..*code },
                opeland,
                old(self).registers,
                old(bus)@,
            ),
    {
        proof {
            reveal(execute_spec);
        }
        let computed = Self::load(code.mode, opeland, bus);
        self.registers.set_acc(computed).set_x(computed).update_negative(computed).update_zero(
            computed,
        );
    }

    pub fn sta<B: Bus>(&mut self, opeland: u16, bus: &mut B)
        ensures
            final(self).registers == old(self).registers,
            final(bus)@ == B::after_write(old(bus)@, opeland, old(self).registers.a),
    {
        bus.write(opeland, self.registers.get(ByteRegister::A));
    }

    pub fn stx<B: Bus>(&mut self, opeland: u16, bus: &mut B)
        ensures
            final(self).registers == old(self).registers,
            final(bus)@ == B::after_write(old(bus)@, opeland, old(self).registers.x),
    {
        bus.write(opeland, self.registers.get(ByteRegister::X));
    }

    pub fn sty<B: Bus>(&mut self, opeland: u16, bus: &mut B)
        ensures
            final(self).registers == old(self).registers,
            final(bus)@ == B::after_write(old(bus)@, opeland, old(self).registers.y),
    {
        bus.write(opeland, self.registers.get(ByteRegister::Y));
    }

    /// Stores A AND X.
    pub fn sax<B: Bus>(&mut self, opeland: u16, bus: &mut B)
        ensures
            final(self).registers == old(self).registers,
            final(bus)@ == B::after_write(
                old(bus)@,
                opeland,
                old(self).registers.a & old(self).registers.x,
            ),
    {
        bus.write(opeland, self.registers.a & self.registers.x);
    }

    pub fn txa(&mut self)
        ensures
            final(self).registers == (Registers {
                a: old(self).registers.x,
                p: nz(old(self).registers.p, old(self).registers.x),
                ..old(self).registers
            }),
    {
        let x = self.registers.get(ByteRegister::X);
        self.registers.set_acc(x).update_negative(x).update_zero(x);
    }

    pub fn tya(&mut self)
        ensures
            final(self).registers == (Registers {
                a: old(self).registers.y,
                p: nz(old(self).registers.p, old(self).registers.y),
                ..old(self).registers
            }),
    {
        let y = self.registers.get(ByteRegister::Y);
        self.registers.set_acc(y).update_negative(y).update_zero(y);
    }

    /// Copies X to SP; no flag changes.
    pub fn txs(&mut self)
        ensures
            final(self).registers == (Registers { sp: old(self).registers.x, ..old(self).registers }),
    {
        let x = self.registers.get(ByteRegister::X);
        self.registers.set_sp(x);
    }

    pub fn tay(&mut self)
        ensures
            final(self).registers == (Registers {
                y: old(self).registers.a,
                p: nz(old(self).registers.p, old(self).registers.a),
                ..old(self).registers
            }),
    {
        let acc = self.registers.get(ByteRegister::A);
        self.registers.set_y(acc).update_negative(acc).update_zero(acc);
    }

    pub fn tax(&mut self)
        ensures
            final(self).registers == (Registers {
                x: old(self).registers.a,
                p: nz(old(self).registers.p, old(self).registers.a),
                ..old(self).registers
            }),
    {
        let acc = self.registers.get(ByteRegister::A);
        self.registers.set_x(acc).update_negative(acc).update_zero(acc);
    }

    pub fn tsx(&mut self)
        ensures
            final(self).registers == (Registers {
                x: old(self).registers.sp,
                p: nz(old(self).registers.p, old(self).registers.sp),
                ..old(self).registers
            }),
    {
        let sp = self.registers.get(ByteRegister::SP);
        self.registers.set_x(sp).update_negative(sp).update_zero(sp);
    }

    /// Sets the break flag, then pushes the status byte.
    pub fn php<B: Bus>(&mut self, bus: &mut B)
        ensures
            ({
                let r1 = with_p(old(self).registers, Status { break_mode: true, ..old(self).registers.p });
                (final(self).registers, final(bus)@) == push_spec::<B>(r1, old(bus)@, status_byte(r1.p))
            }),
    {
        self.registers.set_break(true);
        self.push_status(bus);
    }

    /// Pops the status byte; the reserved flag comes back set.
    pub fn plp<B: Bus>(&mut self, bus: &mut B)
        ensures
            ({
                let (v, r1, m1) = pop_spec::<B>(old(self).registers, old(bus)@);
                (final(self).registers, final(bus)@) == (with_p(r1, status_of(v)), m1)
            }),
    {
        let status = self.pop(bus);
        self.registers.set_p(status);
    }

    pub fn pha<B: Bus>(&mut self, bus: &mut B)
        ensures
            (final(self).registers, final(bus)@) == push_spec::<B>(
                old(self).registers,
                old(bus)@,
                old(self).registers.a,
            ),
    {
        let acc = self.registers.get(ByteRegister::A);
        self.push(acc, bus);
    }

    pub fn pla<B: Bus>(&mut self, bus: &mut B)
        ensures
            ({
                let (v, r1, m1) = pop_spec::<B>(old(self).registers, old(bus)@);
                (final(self).registers, final(bus)@) == (Registers { a: v, p: nz(r1.p, v), ..r1 }, m1)
            }),
    {
        let v = self.pop(bus);
        self.registers.set_acc(v).update_negative(v).update_zero(v);
    }

    pub fn adc<B: Bus>(&mut self, code: &Opcode, opeland: u16, bus: &mut B)
        ensures
            (final(self).registers, final(bus)@, 0u8) == execute_spec::<B>(
                Opcode { name: Instruction::ADC, ..*code },
                opeland,
                old(self).registers,
                old(bus)@,
            ),
    {
        proof {
            reveal(execute_spec);
        }
        let fetched = Self::load(code.mode, opeland, bus);
        self.add_to_acc(fetched);
    }

    pub fn sbc<B: Bus>(&mut self, code: &Opcode, opeland: u16, bus: &mut B)
        ensures
            (final(self).registers, final(bus)@, 0u8) == execute_spec::<B>(
                Opcode { name: Instruction::SBC, ..*code },
                opeland,
                old(self).registers,
                old(bus)@,
            ),
    {
        proof {
            reveal(execute_spec);
        }
        let fetched = Self::load(code.mode, opeland, bus);
        self.add_to_acc(255 - fetched);
    }

    pub fn cmp<B: Bus>(&mut self, code: &Opcode, opeland: u16, bus: &mut B)
        ensures
            (final(self).registers, final(bus)@, 0u8) == execute_spec::<B>(
                Opcode { name: Instruction::CMP, ..*code },
                opeland,
                old(self).registers,
                old(bus)@,
            ),
    {
        proof {
            reveal(execute_spec);
        }
        let fetched = Self::load(code.mode, opeland, bus);
        let acc = self.registers.a;
        self.compare_with(acc, fetched);
    }

    pub fn cpx<B: Bus>(&mut self, code: &Opcode, opeland: u16, bus: &mut B)
        ensures
            (final(self).registers, final(bus)@, 0u8) == execute_spec::<B>(
                Opcode { name: Instruction::CPX, ..*code },
                opeland,
                old(self).registers,
                old(bus)@,
            ),
    {
        proof {
            reveal(execute_spec);
        }
        let fetched = Self::load(code.mode, opeland, bus);
        let x = self.registers.x;
        self.compare_with(x, fetched);
    }

    pub fn cpy<B: Bus>(&mut self, code: &Opcode, opeland: u16, bus: &mut B)
        ensures
            (final(self).registers, final(bus)@, 0u8) == execute_spec::<B>(
                Opcode { name: Instruction::CPY, ..*code },
                opeland,
                old(self).registers,
                old(bus)@,
            ),
    {
        proof {
            reveal(execute_spec);
        }
        let fetched = Self::load(code.mode, opeland, bus);
        let y = self.registers.y;
        self.compare_with(y, fetched);
    }

    pub fn and<B: Bus>(&mut self, code: &Opcode, opeland: u16, bus: &mut B)
        ensures
            (final(self).registers, final(bus)@, 0u8) == execute_spec::<B>(
                Opcode { name: Instruction::AND, ..*code },
                opeland,
                old(self).registers,
                old(bus)@,
            ),
    {
        proof {
            reveal(execute_spec);
        }
        let fetched = Self::load(code.mode, opeland, bus);
        let v = self.registers.a & fetched;
        self.registers.set_acc(v).update_negative(v).update_zero(v);
    }

    pub fn ora<B: Bus>(&mut self, code: &Opcode, opeland: u16, bus: &mut B)
        ensures
            (final(self).registers, final(bus)@, 0u8) == execute_spec::<B>(
                Opcode { name: Instruction::ORA, ..*code },
                opeland,
                old(self).registers,
                old(bus)@,
            ),
    {
        proof {
            reveal(execute_spec);
        }
        let fetched = Self::load(code.mode, opeland, bus);
        let v = self.registers.a | fetched;
        self.registers.set_acc(v).update_negative(v).update_zero(v);
    }

    pub fn eor<B: Bus>(&mut self, code: &Opcode, opeland: u16, bus: &mut B)
        ensures
            (final(self).registers, final(bus)@, 0u8) == execute_spec::<B>(
                Opcode { name: Instruction::EOR, ..*code },
                opeland,
                old(self).registers,
                old(bus)@,
            ),
    {
        proof {
            reveal(execute_spec);
        }
        let fetched = Self::load(code.mode, opeland, bus);
        let v = self.registers.a ^ fetched;
        self.registers.set_acc(v).update_negative(v).update_zero(v);
    }

    /// Tests memory against A: negative and overflow from bits 7 and 6 of the
    /// byte, zero from A AND the byte.
    pub fn bit<B: Bus>(&mut self, opeland: u16, bus: &mut B)
        ensures
            ({
                let v = B::peek(old(bus)@, opeland);
                &&& final(self).registers == with_p(
                    old(self).registers,
                    Status {
                        negative: is_negative(v),
                        overflow: v & 0x40 == 0x40,
                        zero: old(self).registers.a & v == 0,
                        ..old(self).registers.p
                    },
                )
                &&& final(bus)@ == B::after_read(old(bus)@, opeland)
            }),
    {
        let data = bus.read(opeland);
        let zero = self.registers.a & data == 0;
        self.registers.update_negative(data).set_overflow(data & 0x40 == 0x40).set_zero(zero);
    }

    pub fn asl<B: Bus>(&mut self, code: &Opcode, opeland: u16, bus: &mut B)
        ensures
            (final(self).registers, final(bus)@) == shift_spec::<B>(
                Shift::Asl,
                code.mode,
                opeland,
                old(self).registers,
                old(bus)@,
            ),
    {
        self.shift(Shift::Asl, code.mode, opeland, bus);
    }

    pub fn lsr<B: Bus>(&mut self, code: &Opcode, opeland: u16, bus: &mut B)
        ensures
            (final(self).registers, final(bus)@) == shift_spec::<B>(
                Shift::Lsr,
                code.mode,
                opeland,
                old(self).registers,
                old(bus)@,
            ),
    {
        self.shift(Shift::Lsr, code.mode, opeland, bus);
    }

    pub fn rol<B: Bus>(&mut self, code: &Opcode, opeland: u16, bus: &mut B)
        ensures
            (final(self).registers, final(bus)@) == shift_spec::<B>(
                Shift::Rol,
                code.mode,
                opeland,
                old(self).registers,
                old(bus)@,
            ),
    {
        self.shift(Shift::Rol, code.mode, opeland, bus);
    }

    pub fn ror<B: Bus>(&mut self, code: &Opcode, opeland: u16, bus: &mut B)
        ensures
            (final(self).registers, final(bus)@) == shift_spec::<B>(
                Shift::Ror,
                code.mode,
                opeland,
                old(self).registers,
                old(bus)@,
            ),
    {
        self.shift(Shift::Ror, code.mode, opeland, bus);
    }

    pub fn inc<B: Bus>(&mut self, opeland: u16, bus: &mut B)
        ensures
            ({
                let (v, m1) = step_memory_spec::<B>(opeland, old(bus)@, true);
                (final(self).registers, final(bus)@) == (with_p(old(self).registers, nz(old(self).registers.p, v)), m1)
            }),
    {
        let v = Self::step_memory(opeland, bus, true);
        self.registers.update_negative(v).update_zero(v);
    }

    pub fn dec<B: Bus>(&mut self, opeland: u16, bus: &mut B)
        ensures
            ({
                let (v, m1) = step_memory_spec::<B>(opeland, old(bus)@, false);
                (final(self).registers, final(bus)@) == (with_p(old(self).registers, nz(old(self).registers.p, v)), m1)
            }),
    {
        let v = Self::step_memory(opeland, bus, false);
        self.registers.update_negative(v).update_zero(v);
    }

    pub fn inx(&mut self)
        ensures
            final(self).registers == (Registers {
                x: inc8(old(self).registers.x),
                p: nz(old(self).registers.p, inc8(old(self).registers.x)),
                ..old(self).registers
            }),
    {
        let v = if self.registers.x == 0xFF {
            0
        } else {
            self.registers.x + 1
        };
        self.registers.set_x(v).update_negative(v).update_zero(v);
    }

    pub fn iny(&mut self)
        ensures
            final(self).registers == (Registers {
                y: inc8(old(self).registers.y),
                p: nz(old(self).registers.p, inc8(old(self).registers.y)),
                ..old(self).registers
            }),
    {
        let v = if self.registers.y == 0xFF {
            0
        } else {
            self.registers.y + 1
        };
        self.registers.set_y(v).update_negative(v).update_zero(v);
    }

    pub fn dex(&mut self)
        ensures
            final(self).registers == (Registers {
                x: dec8(old(self).registers.x),
                p: nz(old(self).registers.p, dec8(old(self).registers.x)),
                ..old(self).registers
            }),
    {
        let v = if self.registers.x == 0 {
            0xFF
        } else {
            self.registers.x - 1
        };
        self.registers.set_x(v).update_negative(v).update_zero(v);
    }

    pub fn dey(&mut self)
        ensures
            final(self).registers == (Registers {
                y: dec8(old(self).registers.y),
                p: nz(old(self).registers.p, dec8(old(self).registers.y)),
                ..old(self).registers
            }),
    {
        let v = if self.registers.y == 0 {
            0xFF
        } else {
            self.registers.y - 1
        };
        self.registers.set_y(v).update_negative(v).update_zero(v);
    }

    /// Pushes PC - 1 (the last byte of the JSR), high byte first, then jumps.
    pub fn jsr<B: Bus>(&mut self, opeland: u16, bus: &mut B)
        ensures
            ({
                let (r1, m1) = push_pc_spec::<B>(
                    Registers { pc: dec16(old(self).registers.pc), ..old(self).registers },
                    old(bus)@,
                );
                (final(self).registers, final(bus)@) == (Registers { pc: opeland, ..r1 }, m1)
            }),
    {
        self.registers.dec_pc();
        self.push_pc(bus);
        self.registers.set_pc(opeland);
    }

    /// Pops the return address and continues after it.
    pub fn rts<B: Bus>(&mut self, bus: &mut B)
        ensures
            ({
                let (w, r1, m1) = pop_word_spec::<B>(old(self).registers, old(bus)@);
                (final(self).registers, final(bus)@) == (Registers { pc: inc16(w), ..r1 }, m1)
            }),
    {
        let pc = self.pop_word(bus);
        self.registers.set_pc(pc).inc_pc();
    }

    /// Pops the status byte, then PC.
    pub fn rti<B: Bus>(&mut self, bus: &mut B)
        ensures
            ({
                let (s, r1, m1) = pop_spec::<B>(old(self).registers, old(bus)@);
                let (w, r2, m2) = pop_word_spec::<B>(r1, m1);
                (final(self).registers, final(bus)@) == (Registers { pc: w, p: status_of(s), ..r2 }, m2)
            }),
    {
        let status = self.pop(bus);
        let pc = self.pop_word(bus);
        self.registers.set_p(status).set_pc(pc);
    }

    /// The software interrupt.
    pub fn brk<B: Bus>(&mut self, bus: &mut B)
        ensures
            (final(self).registers, final(bus)@) == brk_spec::<B>(old(self).registers, old(bus)@),
    {
        let interrupt = self.registers.p.interrupt;
        self.registers.inc_pc();
        self.push_pc(bus);
        self.registers.set_break(true);
        self.push_status(bus);
        self.registers.set_interrupt(true);
        if !interrupt {
            let pc = Self::read_word(bus, 0xFFFE);
            self.registers.set_pc(pc);
        }
    }

    /// DEC on memory, then CMP with the result.
    pub fn dcp<B: Bus>(&mut self, opeland: u16, bus: &mut B)
        ensures
            ({
                let (v, m1) = step_memory_spec::<B>(opeland, old(bus)@, false);
                (final(self).registers, final(bus)@) == (with_p(old(self).registers, compare(old(self).registers.p, old(self).registers.a, v)), m1)
            }),
    {
        let v = Self::step_memory(opeland, bus, false);
        let acc = self.registers.a;
        self.compare_with(acc, v);
    }

    /// INC on memory, then SBC with the result.
    pub fn isb<B: Bus>(&mut self, opeland: u16, bus: &mut B)
        ensures
            ({
                let (v, m1) = step_memory_spec::<B>(opeland, old(bus)@, true);
                (final(self).registers, final(bus)@) == (add_with_carry(old(self).registers, (255 - v) as u8), m1)
            }),
    {
        let v = Self::step_memory(opeland, bus, true);
        self.add_to_acc(255 - v);
    }

    /// ASL on memory, then ORA with the result.
    pub fn slo<B: Bus>(&mut self, opeland: u16, bus: &mut B)
        ensures
            ({
                let r = old(self).registers;
                let (v, c, m1) = shift_memory_spec::<B>(Shift::Asl, opeland, r, old(bus)@);
                (final(self).registers, final(bus)@) == (Registers { a: r.a | v, p: Status { carry: c, ..nz(r.p, r.a | v) }, ..r }, m1)
            }),
    {
        let (v, c) = self.shift_memory(Shift::Asl, opeland, bus);
        let acc = self.registers.a | v;
        self.registers.set_acc(acc).update_negative(acc).update_zero(acc).set_carry(c);
    }

    /// ROL on memory, then AND with the result.
    pub fn rla<B: Bus>(&mut self, opeland: u16, bus: &mut B)
        ensures
            ({
                let r = old(self).registers;
                let (v, c, m1) = shift_memory_spec::<B>(Shift::Rol, opeland, r, old(bus)@);
                (final(self).registers, final(bus)@) == (Registers { a: r.a & v, p: Status { carry: c, ..nz(r.p, r.a & v) }, ..r }, m1)
            }),
    {
        let (v, c) = self.shift_memory(Shift::Rol, opeland, bus);
        let acc = self.registers.a & v;
        self.registers.set_acc(acc).update_negative(acc).update_zero(acc).set_carry(c);
    }

    /// LSR on memory, then EOR with the result.
    pub fn sre<B: Bus>(&mut self, opeland: u16, bus: &mut B)
        ensures
            ({
                let r = old(self).registers;
                let (v, c, m1) = shift_memory_spec::<B>(Shift::Lsr, opeland, r, old(bus)@);
                (final(self).registers, final(bus)@) == (Registers { a: r.a ^ v, p: Status { carry: c, ..nz(r.p, r.a ^ v) }, ..r }, m1)
            }),
    {
        let (v, c) = self.shift_memory(Shift::Lsr, opeland, bus);
        let acc = self.registers.a ^ v;
        self.registers.set_acc(acc).update_negative(acc).update_zero(acc).set_carry(c);
    }

    /// ROR on memory, then ADC with the result, the rotate's carry-out as carry-in.
    pub fn rra<B: Bus>(&mut self, opeland: u16, bus: &mut B)
        ensures
            ({
                let r = old(self).registers;
                let (v, c, m1) = shift_memory_spec::<B>(Shift::Ror, opeland, r, old(bus)@);
                (final(self).registers, final(bus)@) == (add_with_carry(with_p(r, Status { carry: c, ..r.p }), v), m1)
            }),
    {
        let (v, c) = self.shift_memory(Shift::Ror, opeland, bus);
        self.registers.set_carry(c);
        self.add_to_acc(v);
    }
}

} // verus!
