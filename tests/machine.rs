use nes::bus::Bus;
use nes::keypad::Keypad;
use nes::machine::{Context, reset, run};
use nes::memory::{Ram, Rom};
use nes::ppu::{Ppu, PpuConfig};
use nes::registers::{ByteRegister, StatusName};
use nes::semantics::DecodeError;

/// A 32 KiB program ROM with `program` at 0x8000 and the reset vector at 0x8000.
fn program_rom(program: &[u8]) -> Vec<u8> {
    let mut rom = vec![0xEA; 0x8000];
    for (i, b) in program.iter().enumerate() {
        rom[i] = *b;
    }
    rom[0x7FFC] = 0x00;
    rom[0x7FFD] = 0x80;
    rom
}

fn console(program: &[u8]) -> Context {
    let mut ctx = Context::new(program_rom(program), vec![0; 0x2000], false);
    reset(&mut ctx);
    ctx
}

#[test]
fn end_to_end_load_immediate() {
    let mut ctx = console(&[0xA9, 0xFF]);
    assert_eq!(ctx.registers().get_pc(), 0x8000);
    let report = ctx.step(0).unwrap();
    assert_eq!(report.cycles, 2);
    assert!(report.frame.is_none());
    let regs = ctx.registers();
    assert_eq!(regs.get(ByteRegister::A), 0xFF);
    assert!(regs.get_status(StatusName::negative));
    assert!(!regs.get_status(StatusName::zero));
    assert_eq!(regs.get_pc(), 0x8002);
    assert_eq!(ctx.ppu().cycle(), 6);
}

#[test]
fn dma_adds_stall_and_copies_page() {
    // LDA #$11; STA $0203; LDA #$22; STA $02FF; LDA #$02; STA $4014; NOP
    let program = [0xA9, 0x11, 0x8D, 0x03, 0x02, 0xA9, 0x22, 0x8D, 0xFF, 0x02, 0xA9, 0x02, 0x8D, 0x14, 0x40, 0xEA];
    let mut ctx = console(&program);
    for _ in 0..6 {
        ctx.step(0).unwrap();
    }
    assert_eq!(ctx.work_ram().read(0x0203), 0x11);
    let report = ctx.step(0).unwrap();
    assert_eq!(report.cycles, 514 + 2);
    let sprites = ctx.ppu().sprites();
    assert_eq!(sprites.len(), 256);
    assert_eq!(sprites[3], 0x11);
    assert_eq!(sprites[255], 0x22);
    assert_eq!(sprites[0], 0x00);
    // The latch is cleared: the next step costs only its instruction.
    let report = ctx.step(0).unwrap();
    assert_eq!(report.cycles, 2);
}

#[test]
fn run_returns_one_frame() {
    // JMP $8000 forever.
    let mut ctx = console(&[0x4C, 0x00, 0x80]);
    let frame = run(&mut ctx, 0).unwrap();
    assert_eq!(frame.background.len(), 31 * 2048);
    assert_eq!(frame.sprites.len(), 256);
    assert_eq!(ctx.ppu().line(), 0);
    assert!(ctx.ppu().cycle() < 341);
}

#[test]
fn run_stops_on_decode_error() {
    let mut ctx = console(&[0xA9, 0x01, 0x02]);
    let r = run(&mut ctx, 0);
    assert_eq!(r.unwrap_err(), DecodeError { opcode: 0x02, pc: 0x8002 });
}

#[test]
fn ppu_frame_cadence() {
    let mut ppu = Ppu::new(vec![0; 0x2000], PpuConfig { is_horizontal_mirror: true });
    let mut nmi = false;
    let mut frames = 0;
    let mut total = 0;
    let frame_cycles = 262 * 341;
    while total < frame_cycles {
        let chunk = std::cmp::min(21, frame_cycles - total);
        if ppu.run(chunk, &mut nmi).is_some() {
            frames += 1;
        }
        total += chunk;
    }
    assert_eq!(frames, 1);
    assert_eq!(ppu.line(), 0);
    assert_eq!(ppu.cycle(), 0);
    assert!(ppu.run(340, &mut nmi).is_none());
}

#[test]
fn ppu_one_line_per_341_cycles() {
    let mut ppu = Ppu::new(vec![0; 0x2000], PpuConfig { is_horizontal_mirror: false });
    let mut nmi = false;
    assert!(ppu.run(340, &mut nmi).is_none());
    assert_eq!(ppu.line(), 0);
    assert!(ppu.run(1, &mut nmi).is_none());
    assert_eq!(ppu.line(), 1);
    assert_eq!(ppu.cycle(), 0);
    assert_eq!(ppu.background().len(), 2048);
    assert!(ppu.run(341 * 3 + 5, &mut nmi).is_none());
    assert_eq!(ppu.line(), 4);
    assert_eq!(ppu.cycle(), 5);
}

#[test]
fn vblank_raises_nmi_when_enabled() {
    let mut ppu = Ppu::new(vec![0; 0x2000], PpuConfig { is_horizontal_mirror: false });
    let mut nmi = false;
    ppu.write(0, 0x80);
    assert!(ppu.run(341 * 240, &mut nmi).is_none());
    assert!(!nmi);
    assert_eq!(ppu.read(2), 0x00);
    assert!(ppu.run(341, &mut nmi).is_none());
    assert!(nmi);
    assert_eq!(ppu.read(2), 0x80);
    assert_eq!(ppu.read(2), 0x00);
}

#[test]
fn ppu_data_port_and_mirroring() {
    let mut ppu = Ppu::new(vec![0; 0x2000], PpuConfig { is_horizontal_mirror: true });
    // Address 0x2401, then two data writes.
    ppu.write(6, 0x24);
    ppu.write(6, 0x01);
    ppu.write(7, 0xAB);
    ppu.write(7, 0xCD);
    // Horizontal mirroring: table 1 is table 0.
    assert_eq!(ppu.peek(0x2001), 0xAB);
    assert_eq!(ppu.peek(0x2402), 0xCD);
    assert_eq!(ppu.peek(0x2802), 0x00);
    // Read back through the port.
    ppu.write(6, 0x20);
    ppu.write(6, 0x01);
    assert_eq!(ppu.read(7), 0xAB);
    assert_eq!(ppu.read(7), 0xCD);

    let mut vertical = Ppu::new(vec![0; 0x2000], PpuConfig { is_horizontal_mirror: false });
    vertical.poke(0x2805, 0x77);
    assert_eq!(vertical.peek(0x2005), 0x77);
    assert_eq!(vertical.peek(0x2405), 0x00);
}

#[test]
fn background_tile_row_pixels() {
    // Tile 1's pattern: first row has plane 0 = 0x80, plane 1 = 0x80 (colour 3 at x = 0).
    let mut chr = vec![0; 0x2000];
    chr[16] = 0x80;
    chr[24] = 0x80;
    let mut ppu = Ppu::new(chr, PpuConfig { is_horizontal_mirror: false });
    // Nametable (0,0) holds tile 1; attribute palette 2 for the top-left block.
    ppu.poke(0x2000, 0x01);
    ppu.poke(0x23C0, 0x02);
    let mut nmi = false;
    ppu.run(341, &mut nmi);
    let bg = ppu.background();
    assert_eq!(bg[0], 2 * 4 + 3);
    assert_eq!(bg[1], 2 * 4);
    assert_eq!(bg[256], 2 * 4);
    assert_eq!(bg[8], 2 * 4);
}

#[test]
fn sprite_memory_port() {
    let mut ppu = Ppu::new(vec![], PpuConfig { is_horizontal_mirror: false });
    ppu.write(3, 0x10);
    ppu.write(4, 0x55);
    ppu.write(4, 0x66);
    assert_eq!(ppu.sprites()[0x10], 0x55);
    assert_eq!(ppu.sprites()[0x11], 0x66);
    ppu.write(3, 0x11);
    assert_eq!(ppu.read(4), 0x66);
}

#[test]
fn keypad_shifts_out_bits() {
    let mut pad = Keypad::new();
    pad.update(0b0000_0101);
    pad.write(1);
    assert_eq!(pad.read(), 1);
    pad.write(0);
    let bits: Vec<u8> = (0..9).map(|_| pad.read()).collect();
    assert_eq!(bits, vec![1, 0, 1, 0, 0, 0, 0, 0, 1]);
}

#[test]
fn bus_routes_ram_rom_and_keypad() {
    // STA $0805 lands in RAM at 0x0005 (mirror); LDA $4016 reads the controller.
    let program = [0xA9, 0x42, 0x8D, 0x05, 0x08, 0xA9, 0x01, 0x8D, 0x16, 0x40, 0xA9, 0x00, 0x8D, 0x16, 0x40, 0xAD, 0x16, 0x40, 0xAD, 0x00, 0xC0];
    let mut ctx = console(&program);
    for _ in 0..2 {
        ctx.step(0x01).unwrap();
    }
    assert_eq!(ctx.work_ram().read(0x0005), 0x42);
    for _ in 0..5 {
        ctx.step(0x01).unwrap();
    }
    assert_eq!(ctx.registers().get(ByteRegister::A), 0x01);
    ctx.step(0x01).unwrap();
    // 0xC000 is the ROM's byte 0x4000 in a 32 KiB ROM: a NOP filler.
    assert_eq!(ctx.registers().get(ByteRegister::A), 0xEA);
}

#[test]
fn rom_repeats_when_16k() {
    let mut rom = vec![0u8; 0x4000];
    rom[0] = 0xA9;
    rom[1] = 0x07;
    rom[0x3FFC] = 0x00;
    rom[0x3FFD] = 0xC0;
    let mut ctx = Context::new(rom, vec![0; 0x2000], false);
    reset(&mut ctx);
    assert_eq!(ctx.registers().get_pc(), 0xC000);
    ctx.step(0).unwrap();
    assert_eq!(ctx.registers().get(ByteRegister::A), 0x07);
}

#[test]
fn memory_devices() {
    let rom = Rom::new(Box::new(vec![1, 2, 3]));
    assert_eq!(rom.size(), 3);
    assert_eq!(rom.read(2), 3);
    let mut ram = Ram::new(vec![0; 4]);
    ram.write(1, 9);
    assert_eq!(ram.read(1), 9);
    assert_eq!(ram.read(0), 0);
    assert_eq!(ram.size(), 4);
}

#[test]
fn flat_memory_bus() {
    let mut mem = nes::bus::FlatMemory::new();
    mem.write(0xFFFF, 5);
    assert_eq!(mem.read(0xFFFF), 5);
    assert_eq!(mem.read(0x0000), 0);
}
