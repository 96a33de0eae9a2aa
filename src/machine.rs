use vstd::prelude::*;
use crate::bus::Bus;
use crate::cpu::Cpu;
use crate::dma::{DMA_CYCLES, WORK_RAM_SIZE, dma_source, transfer};
use crate::keypad::{Keypad, keypad_read, keypad_write};
use crate::memory::{Ram, Rom, byte_at, stored};
use crate::ppu::{
    CYCLES_PER_LINE, LINES_PER_FRAME, Ppu, PpuConfig, PpuView, RenderingContext, frame_position,
    initial_ppu, lemma_advance_timing, ppu_run_spec, register_read, register_write, saturated, zeros,
};
use crate::registers::{Registers, dec8, inc8, power_on_registers};
use crate::opcode::{Opcode, lemma_table_cycles, opcode_table};
use crate::semantics::{
    DecodeError, branch_condition, branch_spec, pop_spec, push_spec, execute_spec, fetch_spec, is_arithmetic, is_branch,
    is_combined, is_transfer, nmi_spec, operand_spec, reset_spec, step_spec,
};

verus! {

/// The address that latches the page of a sprite DMA transfer.
pub const DMA_REGISTER: u16 = 0x4014;

/// The controller port.
pub const KEYPAD_PORT: u16 = 0x4016;

/// The devices on the CPU's bus and the address decoding between them.
#[derive(Debug)]
pub struct CpuBus {
    program_rom: Rom,
    work_ram: Ram,
    ppu: Ppu,
    keypad: Keypad,
    dma_register: u8,
}

pub struct BusView {
    pub program_rom: Seq<u8>,
    pub work_ram: Seq<u8>,
    pub ppu: PpuView,
    pub keypad: Keypad,
    pub dma_register: u8,
}

impl View for CpuBus {
    type V = BusView;

    closed spec fn view(&self) -> BusView {
        BusView {
            program_rom: self.program_rom@,
            work_ram: self.work_ram@,
            ppu: self.ppu@,
            keypad: self.keypad,
            dma_register: self.dma_register,
        }
    }
}

/// The program ROM byte at CPU address `addr` (0x8000 and up); a ROM smaller
/// than 32 KiB repeats. An empty ROM reads as 0.
pub open spec fn rom_byte(rom: Seq<u8>, addr: u16) -> u8 {
    if rom.len() == 0 {
        0
    } else {
        rom[(addr - 0x8000) % (rom.len() as int)]
    }
}

/// The PPU register that an address in 0x2000..0x3FFF selects.
pub open spec fn ppu_register(addr: u16) -> u16 {
    ((addr - 0x2000) % 8) as u16
}

/// What a CPU read of `addr` returns: work RAM below 0x2000 (repeating every
/// 2 KiB), the PPU registers up to 0x3FFF (repeating every 8 bytes), the
/// controller port at 0x4016, program ROM from 0x8000; 0 elsewhere.
pub open spec fn bus_peek(v: BusView, addr: u16) -> u8 {
    if addr < 0x2000 {
        byte_at(v.work_ram, addr as int % WORK_RAM_SIZE as int)
    } else if addr < 0x4000 {
        register_read(v.ppu, ppu_register(addr)).0
    } else if addr == KEYPAD_PORT {
        keypad_read(v.keypad).0
    } else if addr >= 0x8000 {
        rom_byte(v.program_rom, addr)
    } else {
        0
    }
}

/// The devices after a CPU read of `addr`: PPU registers and the controller
/// port change on read.
pub open spec fn bus_after_read(v: BusView, addr: u16) -> BusView {
    if 0x2000 <= addr < 0x4000 {
        BusView { ppu: register_read(v.ppu, ppu_register(addr)).1, ..v }
    } else if addr == KEYPAD_PORT {
        BusView { keypad: keypad_read(v.keypad).1, ..v }
    } else {
        v
    }
}

/// The devices after a CPU write: work RAM, the PPU registers, the DMA latch at
/// 0x4014 and the controller port take writes; all else (ROM included) ignores them.
pub open spec fn bus_after_write(v: BusView, addr: u16, data: u8) -> BusView {
    if addr < 0x2000 {
        BusView { work_ram: stored(v.work_ram, addr as int % WORK_RAM_SIZE as int, data), ..v }
    } else if addr < 0x4000 {
        BusView { ppu: register_write(v.ppu, ppu_register(addr), data), ..v }
    } else if addr == DMA_REGISTER {
        BusView { dma_register: data, ..v }
    } else if addr == KEYPAD_PORT {
        BusView { keypad: keypad_write(v.keypad, data), ..v }
    } else {
        v
    }
}

impl Bus for CpuBus {
    open spec fn peek(v: BusView, addr: u16) -> u8 {
        bus_peek(v, addr)
    }

    open spec fn after_read(v: BusView, addr: u16) -> BusView {
        bus_after_read(v, addr)
    }

    open spec fn after_write(v: BusView, addr: u16, data: u8) -> BusView {
        bus_after_write(v, addr, data)
    }

    fn read(&mut self, addr: u16) -> (r: u8) {
        if addr < 0x2000 {
            let i = addr % (WORK_RAM_SIZE as u16);
            if (i as usize) < self.work_ram.size() {
                self.work_ram.read(i)
            } else {
                0
            }
        } else if addr < 0x4000 {
            self.ppu.read((addr - 0x2000) % 8)
        } else if addr == KEYPAD_PORT {
            self.keypad.read()
        } else if addr >= 0x8000 {
            let n = self.program_rom.size();
            if n == 0 {
                0
            } else {
                let offset = (addr - 0x8000) as usize;
                let i = offset % n;
                assert(i <= offset) by (nonlinear_arith)
                    requires
                        n > 0,
                        i == offset % n,
                ;
                self.program_rom.read(i as u16)
            }
        } else {
            0
        }
    }

    fn write(&mut self, addr: u16, data: u8) {
        if addr < 0x2000 {
            let i = addr % (WORK_RAM_SIZE as u16);
            if (i as usize) < self.work_ram.size() {
                self.work_ram.write(i, data);
            }
        } else if addr < 0x4000 {
            self.ppu.write((addr - 0x2000) % 8, data);
        } else if addr == DMA_REGISTER {
            self.dma_register = data;
        } else if addr == KEYPAD_PORT {
            self.keypad.write(data);
        }
    }
}

/// The console: the CPU, the devices on its bus and the pending NMI request.
#[derive(Debug)]
pub struct Context {
    cpu: Cpu,
    bus: CpuBus,
    nmi: bool,
}

pub struct ContextView {
    pub registers: Registers,
    pub bus: BusView,
    pub nmi: bool,
}

impl View for Context {
    type V = ContextView;

    closed spec fn view(&self) -> ContextView {
        ContextView { registers: self.cpu.registers, bus: self.bus@, nmi: self.nmi }
    }
}

/// What one step of the machine reports: the CPU cycles it took, a DMA stall
/// included, and the frame, when the PPU completed one.
#[derive(Debug)]
pub struct StepReport {
    pub cycles: u16,
    pub frame: Option<RenderingContext>,
}

/// The console at power-on, before reset.
pub open spec fn initial_context(
    program_rom: Seq<u8>,
    character_ram: Seq<u8>,
    is_horizontal_mirror: bool,
) -> ContextView {
    ContextView {
        registers: power_on_registers(),
        bus: BusView {
            program_rom: program_rom,
            work_ram: Seq::new(WORK_RAM_SIZE as nat, |i: int| 0u8),
            ppu: initial_ppu(character_ram, PpuConfig { is_horizontal_mirror }),
            keypad: Keypad { state: 0, index: 0, strobe: false },
            dma_register: 0,
        },
        nmi: false,
    }
}

/// The PPU stands inside a frame: on one of its 262 lines, short of the end.
pub open spec fn well_formed(v: ContextView) -> bool {
    v.bus.ppu.line < LINES_PER_FRAME && frame_position(v.bus.ppu) < LINES_PER_FRAME
        * CYCLES_PER_LINE
}

/// A pending DMA transfer (a non-zero latch) copies the page into sprite
/// memory, clears the latch and stalls the CPU for 514 cycles.
pub open spec fn dma_spec(b: BusView) -> (BusView, u16) {
    if b.dma_register != 0 {
        (
            BusView {
                ppu: PpuView { oam: dma_source(b.work_ram, (b.dma_register * 256) as u16), ..b.ppu },
                dma_register: 0,
                ..b
            },
            DMA_CYCLES,
        )
    } else {
        (b, 0)
    }
}

/// One iteration of the machine: the key state goes to the controller, a
/// pending DMA transfer is drained, the CPU runs one step and the PPU runs three
/// cycles for each CPU cycle. Gives the cycles and whether a frame completed,
/// or the decode error that stopped the CPU.
pub open spec fn machine_step(v: ContextView, key_state: u8) -> (
    Result<(u16, bool), DecodeError>,
    ContextView,
) {
    let b1 = BusView { keypad: Keypad { state: key_state, ..v.bus.keypad }, ..v.bus };
    let (b2, stall) = dma_spec(b1);
    let (res, regs, b3) = step_spec::<CpuBus>(v.registers, b2, v.nmi);
    match res {
        Err(e) => (Err(e), ContextView { registers: regs, bus: b3, nmi: false }),
        Ok(c) => {
            let cycles = stall + c;
            let (p, nmi, done) = ppu_run_spec(b3.ppu, (cycles * 3) as nat, false);
            (
                Ok((cycles as u16, done)),
                ContextView { registers: regs, bus: BusView { ppu: p, ..b3 }, nmi: nmi },
            )
        },
    }
}

/// The machine after `n` steps none of which completed a frame or failed, if
/// there were such steps.
pub open spec fn steps_without_frame(v: ContextView, key_state: u8, n: nat) -> Option<ContextView>
    decreases n,
{
    if n == 0 {
        Some(v)
    } else {
        match steps_without_frame(v, key_state, (n - 1) as nat) {
            Some(w) => match machine_step(w, key_state) {
                (Ok((_, false)), w1) => Some(w1),
                _ => None,
            },
            None => None,
        }
    }
}

/// A machine step keeps the PPU inside a frame, and one that completes no
/// frame moves it forward.
proof fn lemma_step_well_formed(v: ContextView, key_state: u8)
    requires
        well_formed(v),
    ensures
        ({
            let (res, v1) = machine_step(v, key_state);
            &&& well_formed(v1)
            &&& res matches Ok((c, false)) ==> frame_position(v1.bus.ppu) > frame_position(
                v.bus.ppu,
            )
        }),
{
    let b1 = BusView { keypad: Keypad { state: key_state, ..v.bus.keypad }, ..v.bus };
    let (b2, stall) = dma_spec(b1);
    lemma_step_keeps_clock(v.registers, b2, v.nmi);
    let (res, regs, b3) = step_spec::<CpuBus>(v.registers, b2, v.nmi);
    if let Ok(c) = res {
        lemma_step_cost(v.registers, b2, v.nmi);
        let cycles = stall + c;
        let q = PpuView { cycle: saturated(b3.ppu.cycle + (cycles * 3) as nat as int), ..b3.ppu };
        lemma_advance_timing(q, false);
    }
}

/// A successful CPU step costs between 2 and 10 cycles.
proof fn lemma_step_cost(r: Registers, m: BusView, nmi: bool)
    ensures
        step_spec::<CpuBus>(r, m, nmi).0 matches Ok(c) ==> 2 <= c <= 10,
{
    let (r0, m0) = if nmi {
        nmi_spec::<CpuBus>(r, m)
    } else {
        (r, m)
    };
    let (code, r1, m1) = fetch_spec::<CpuBus>(r0, m0);
    lemma_table_cycles(code);
    if let Some(op) = opcode_table(code) {
        let (operand, r2, m2) = operand_spec::<CpuBus>(op.mode, r1, m1);
        lemma_execute_extra(op, operand, r2, m2);
    }
}

/// An instruction adds at most 2 cycles to its base cost.
proof fn lemma_execute_extra(op: Opcode, operand: u16, r: Registers, m: BusView)
    ensures
        execute_spec::<CpuBus>(op, operand, r, m).2 <= 2,
{
    reveal(execute_spec);
    if is_branch(op.name) {
        assert(execute_spec::<CpuBus>(op, operand, r, m).2 == branch_spec(
            r,
            branch_condition(op.name, r.p),
            operand,
        ).1);
    } else if is_transfer(op.name) {
    } else if is_arithmetic(op.name) {
    } else if is_combined(op.name) {
    } else {
    }
}

impl Context {
    /// A console holding a cartridge's program ROM and pattern data, with 2 KiB
    /// of work RAM.
    pub fn new(program_rom: Vec<u8>, character_ram: Vec<u8>, is_horizontal_mirror: bool) -> (r:
        Context)
        ensures
            r@ == initial_context(program_rom@, character_ram@, is_horizontal_mirror),
            well_formed(r@),
    {
        Context {
            cpu: Cpu::new(),
            bus: CpuBus {
                program_rom: Rom::new(Box::new(program_rom)),
                work_ram: Ram::new(zeros(WORK_RAM_SIZE)),
                ppu: Ppu::new(character_ram, PpuConfig { is_horizontal_mirror }),
                keypad: Keypad::new(),
                dma_register: 0,
            },
            nmi: false,
        }
    }

    /// Runs one iteration of the machine.
    pub fn step(&mut self, key_state: u8) -> (r: Result<StepReport, DecodeError>)
        ensures
            ({
                let (res, v1) = machine_step(old(self)@, key_state);
                &&& final(self)@ == v1
                &&& match r {
                    Ok(report) => {
                        &&& res == Ok::<(u16, bool), DecodeError>((report.cycles, report.frame is Some))
                        &&& report.frame matches Some(f) ==> f.background@ == v1.bus.ppu.background
                            && f.sprites@ == v1.bus.ppu.oam
                    },
                    Err(e) => res == Err::<(u16, bool), DecodeError>(e),
                }
            }),
    {
        self.bus.keypad.update(key_state);
        let mut stall: u16 = 0;
        if self.bus.dma_register != 0 {
            let addr = self.bus.dma_register as u16 * 256;
            transfer(addr, &self.bus.work_ram, &mut self.bus.ppu);
            self.bus.dma_register = 0;
            stall = DMA_CYCLES;
        }
        match self.cpu.run(&mut self.bus, &mut self.nmi) {
            Err(e) => Err(e),
            Ok(c) => {
                let cycles = stall + c as u16;
                let frame = self.bus.ppu.run(cycles as usize * 3, &mut self.nmi);
                Ok(StepReport { cycles, frame })
            },
        }
    }

    /// The CPU registers.
    pub fn registers(&self) -> (r: Registers)
        ensures
            r == self@.registers,
    {
        self.cpu.registers
    }

    pub fn ppu(&self) -> (r: &Ppu)
        ensures
            r@ == self@.bus.ppu,
    {
        &self.bus.ppu
    }

    pub fn work_ram(&self) -> (r: &Ram)
        ensures
            r@ == self@.bus.work_ram,
    {
        &self.bus.work_ram
    }
}

/// Loads PC from the reset vector and reinitialises the registers.
pub fn reset(ctx: &mut Context)
    ensures
        ({
            let (regs, b) = reset_spec::<CpuBus>(old(ctx)@.bus);
            final(ctx)@ == ContextView { registers: regs, bus: b, nmi: old(ctx)@.nmi }
        }),
        well_formed(old(ctx)@) ==> well_formed(final(ctx)@),
{
    ctx.cpu.reset(&mut ctx.bus);
}

/// Runs the machine until the PPU completes a frame and returns the frame, or
/// the decode error that stopped the CPU: the result of the step that follows
/// some number of steps that neither completed a frame nor failed.
pub fn run(ctx: &mut Context, key_state: u8) -> (r: Result<RenderingContext, DecodeError>)
    requires
        well_formed(old(ctx)@),
    ensures
        well_formed(final(ctx)@),
        exists|n: nat|
            {
                &&& #[trigger] steps_without_frame(old(ctx)@, key_state, n) matches Some(w)
                &&& machine_step(w, key_state).1 == final(ctx)@
                &&& match r {
                    Ok(f) => {
                        &&& machine_step(w, key_state).0 matches Ok((_, true))
                        &&& f.background@ == final(ctx)@.bus.ppu.background
                        &&& f.sprites@ == final(ctx)@.bus.ppu.oam
                    },
                    Err(e) => machine_step(w, key_state).0 == Err::<(u16, bool), DecodeError>(e),
                }
            },
{
    let ghost start = ctx@;
    let ghost mut n: nat = 0;
    loop
        invariant
            well_formed(ctx@),
            steps_without_frame(start, key_state, n) == Some(ctx@),
            start == old(ctx)@,
        decreases LINES_PER_FRAME * CYCLES_PER_LINE - frame_position(ctx@.bus.ppu),
    {
        let ghost before = ctx@;
        proof {
            lemma_step_well_formed(before, key_state);
        }
        match ctx.step(key_state) {
            Err(e) => {
                assert(steps_without_frame(start, key_state, n) matches Some(w) && w == before);
                return Err(e);
            },
            Ok(report) => match report.frame {
                Some(f) => {
                    assert(steps_without_frame(start, key_state, n) matches Some(w) && w == before);
                    return Ok(f);
                },
                None => {
                    proof {
                        n = n + 1;
                    }
                },
            },
        }
    }
}

/// Stack discipline: PHA then PLA gives the accumulator back and leaves SP
/// where it was; the push moves SP down by one, the pull moves it back up.
/// (`Cpu::pha` pushes A by `push_spec`; `Cpu::pla` loads A with the byte that
/// `pop_spec` reads.)
pub proof fn lemma_push_pull_accumulator(r: Registers, m: BusView)
    requires
        m.work_ram.len() == WORK_RAM_SIZE,
    ensures
        ({
            let (r1, m1) = push_spec::<CpuBus>(r, m, r.a);
            let (v, r2, m2) = pop_spec::<CpuBus>(r1, m1);
            &&& r1.sp == dec8(r.sp)
            &&& r2.sp == inc8(r1.sp)
            &&& r2.sp == r.sp
            &&& v == r.a
        }),
{
}

/// DMA cost: a step that finds the latch set copies the 256 bytes of the page
/// into sprite memory, clears the latch, and reports 514 cycles more than its
/// CPU step.
pub proof fn lemma_dma_cost(v: ContextView, key_state: u8)
    requires
        v.bus.dma_register != 0,
    ensures
        ({
            let b1 = BusView { keypad: Keypad { state: key_state, ..v.bus.keypad }, ..v.bus };
            let (b2, stall) = dma_spec(b1);
            let (cpu_res, regs, b3) = step_spec::<CpuBus>(v.registers, b2, v.nmi);
            let (res, v1) = machine_step(v, key_state);
            &&& stall == DMA_CYCLES
            &&& b2.dma_register == 0
            &&& b2.ppu.oam.len() == 256
            &&& (v.bus.dma_register < 8 && v.bus.work_ram.len() == WORK_RAM_SIZE) ==> forall|i: int|
                0 <= i < 256 ==> b2.ppu.oam[i] == v.bus.work_ram[v.bus.dma_register * 256 + i]
            &&& cpu_res matches Ok(c) ==> res == Ok::<(u16, bool), DecodeError>(
                ((DMA_CYCLES + c) as u16, res->Ok_0.1),
            )
        }),
{
    let b1 = BusView { keypad: Keypad { state: key_state, ..v.bus.keypad }, ..v.bus };
    let (b2, stall) = dma_spec(b1);
    lemma_step_cost(v.registers, b2, v.nmi);
}

/// A CPU read never moves the PPU's scanline clock.
pub broadcast proof fn lemma_read_keeps_clock(v: BusView, addr: u16)
    ensures
        (#[trigger] CpuBus::after_read(v, addr)).ppu.line == v.ppu.line,
        CpuBus::after_read(v, addr).ppu.cycle == v.ppu.cycle,
{
}

/// A CPU write never moves the PPU's scanline clock.
pub broadcast proof fn lemma_write_keeps_clock(v: BusView, addr: u16, data: u8)
    ensures
        (#[trigger] CpuBus::after_write(v, addr, data)).ppu.line == v.ppu.line,
        CpuBus::after_write(v, addr, data).ppu.cycle == v.ppu.cycle,
{
}

proof fn lemma_execute_keeps_clock(op: Opcode, operand: u16, r: Registers, m: BusView)
    ensures
        execute_spec::<CpuBus>(op, operand, r, m).1.ppu.line == m.ppu.line,
        execute_spec::<CpuBus>(op, operand, r, m).1.ppu.cycle == m.ppu.cycle,
{
    reveal(execute_spec);
    broadcast use lemma_read_keeps_clock, lemma_write_keeps_clock;
}

/// A CPU step never moves the PPU's scanline clock.
pub proof fn lemma_step_keeps_clock(r: Registers, m: BusView, nmi: bool)
    ensures
        step_spec::<CpuBus>(r, m, nmi).2.ppu.line == m.ppu.line,
        step_spec::<CpuBus>(r, m, nmi).2.ppu.cycle == m.ppu.cycle,
{
    broadcast use lemma_read_keeps_clock, lemma_write_keeps_clock;
    let (r0, m0) = if nmi {
        nmi_spec::<CpuBus>(r, m)
    } else {
        (r, m)
    };
    let (code, r1, m1) = fetch_spec::<CpuBus>(r0, m0);
    if let Some(op) = opcode_table(code) {
        let (operand, r2, m2) = operand_spec::<CpuBus>(op.mode, r1, m1);
        lemma_execute_keeps_clock(op, operand, r2, m2);
    }
}

} // verus!
