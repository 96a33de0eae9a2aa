use vstd::prelude::*;
use crate::memory::{byte_at, load_byte, store_byte, stored};
use crate::registers::inc8;

verus! {

/// Cycles in one scanline.
pub const CYCLES_PER_LINE: usize = 341;

/// Scanlines in one frame.
pub const LINES_PER_FRAME: usize = 262;

/// The scanline at which vertical blank begins.
pub const VBLANK_LINE: usize = 241;

/// Pixels a background tile row holds: eight rows of 256 pixels.
pub const ROW_PIXELS: usize = 2048;

#[derive(Clone, Copy, Debug, PartialEq, Eq, Structural)]
pub struct PpuConfig {
    pub is_horizontal_mirror: bool,
}

/// What a completed frame hands to the presentation side: the background as
/// palette-table indices (`palette * 4 + colour`), one per pixel, row after
/// row, 256 pixels wide; and the 256 bytes of sprite attribute memory.
#[derive(Debug)]
pub struct RenderingContext {
    pub background: Vec<u8>,
    pub sprites: Vec<u8>,
}

/// The picture processing unit.
#[derive(Debug)]
pub struct Ppu {
    cycle: usize,
    line: usize,
    vram: Vec<u8>,
    cram: Vec<u8>,
    oam: Vec<u8>,
    background: Vec<u8>,
    config: PpuConfig,
    ctrl: u8,
    vblank: bool,
    oam_addr: u8,
    vram_addr: u16,
    latch: bool,
    scroll_x: u8,
    scroll_y: u8,
}

/// The state of the PPU as values.
pub struct PpuView {
    /// Cycles accumulated on the current line.
    pub cycle: nat,
    pub line: nat,
    /// Nametables, attribute tables and palettes: PPU addresses 0x2000 to 0x3FFF.
    pub vram: Seq<u8>,
    /// Pattern tables: PPU addresses 0x0000 to 0x1FFF.
    pub cram: Seq<u8>,
    /// Sprite attribute memory.
    pub oam: Seq<u8>,
    /// The tile rows built so far in this frame.
    pub background: Seq<u8>,
    pub horizontal_mirror: bool,
    pub ctrl: u8,
    pub vblank: bool,
    pub oam_addr: u8,
    pub vram_addr: u16,
    /// Which of the two writes to the scroll or address register comes next.
    pub latch: bool,
    pub scroll_x: u8,
    pub scroll_y: u8,
}

impl View for Ppu {
    type V = PpuView;

    closed spec fn view(&self) -> PpuView {
        PpuView {
            cycle: self.cycle as nat,
            line: self.line as nat,
            vram: self.vram@,
            cram: self.cram@,
            oam: self.oam@,
            background: self.background@,
            horizontal_mirror: self.config.is_horizontal_mirror,
            ctrl: self.ctrl,
            vblank: self.vblank,
            oam_addr: self.oam_addr,
            vram_addr: self.vram_addr,
            latch: self.latch,
            scroll_x: self.scroll_x,
            scroll_y: self.scroll_y,
        }
    }
}

/// Where a PPU address in 0x2000..0x3FFF lands in VRAM. The four nametables
/// share two kilobytes: with horizontal mirroring tables 0 and 1 are one and
/// tables 2 and 3 are one; with vertical mirroring 0 and 2, and 1 and 3.
pub open spec fn vram_index(addr: int, horizontal: bool) -> int {
    let a = addr - 0x2000;
    if a < 0x1000 {
        let table = a / 0x400;
        let mirrored = if horizontal {
            table / 2 * 2
        } else {
            table % 2
        };
        mirrored * 0x400 + a % 0x400
    } else {
        a
    }
}

/// The byte at a PPU address (taken modulo 0x4000).
pub open spec fn ppu_peek(v: PpuView, addr: u16) -> u8 {
    let a = addr % 0x4000;
    if a < 0x2000 {
        byte_at(v.cram, a as int)
    } else {
        byte_at(v.vram, vram_index(a as int, v.horizontal_mirror))
    }
}

/// The PPU after `data` is stored at a PPU address (taken modulo 0x4000).
pub open spec fn ppu_poke(v: PpuView, addr: u16, data: u8) -> PpuView {
    let a = addr % 0x4000;
    if a < 0x2000 {
        PpuView { cram: stored(v.cram, a as int, data), ..v }
    } else {
        PpuView { vram: stored(v.vram, vram_index(a as int, v.horizontal_mirror), data), ..v }
    }
}

/// The data port's address after an access: +32 when bit 2 of the control
/// register is set, else +1.
pub open spec fn advanced_vram_addr(v: PpuView) -> u16 {
    ((v.vram_addr + if v.ctrl & 0x04 == 0x04 { 32int } else { 1 }) % 0x4000) as u16
}

/// A CPU write to PPU register `reg` (0 to 7): control (0), sprite address (3),
/// sprite data (4), scroll (5, x then y), address (6, high then low byte) and
/// data (7). Writes to the other registers change nothing.
pub open spec fn register_write(v: PpuView, reg: u16, data: u8) -> PpuView {
    if reg == 0 {
        PpuView { ctrl: data, ..v }
    } else if reg == 3 {
        PpuView { oam_addr: data, ..v }
    } else if reg == 4 {
        PpuView { oam: stored(v.oam, v.oam_addr as int, data), oam_addr: inc8(v.oam_addr), ..v }
    } else if reg == 5 {
        if !v.latch {
            PpuView { scroll_x: data, latch: true, ..v }
        } else {
            PpuView { scroll_y: data, latch: false, ..v }
        }
    } else if reg == 6 {
        if !v.latch {
            PpuView { vram_addr: ((data % 0x40) * 256 + v.vram_addr % 256) as u16, latch: true, ..v }
        } else {
            PpuView { vram_addr: (v.vram_addr / 256 * 256 + data) as u16, latch: false, ..v }
        }
    } else if reg == 7 {
        PpuView { vram_addr: advanced_vram_addr(v), ..ppu_poke(v, v.vram_addr, data) }
    } else {
        v
    }
}

/// A CPU read of PPU register `reg` (0 to 7): status (2: bit 7 is vertical
/// blank, which the read clears along with the write latch), sprite data (4) and
/// data (7). The other registers read as 0.
pub open spec fn register_read(v: PpuView, reg: u16) -> (u8, PpuView) {
    if reg == 2 {
        (if v.vblank { 0x80u8 } else { 0u8 }, PpuView { vblank: false, latch: false, ..v })
    } else if reg == 4 {
        (byte_at(v.oam, v.oam_addr as int), v)
    } else if reg == 7 {
        (ppu_peek(v, v.vram_addr), PpuView { vram_addr: advanced_vram_addr(v), ..v })
    } else {
        (0, v)
    }
}

/// The two bits of an attribute byte that give the palette of the 2x2-tile
/// block holding tile (`tile_x`, `tile_y`).
pub open spec fn palette_of(attr: u8, tile_x: int, tile_y: int) -> int {
    let block = (tile_x % 4) / 2 + ((tile_y % 4) / 2) * 2;
    if block == 0 {
        attr as int % 4
    } else if block == 1 {
        (attr as int / 4) % 4
    } else if block == 2 {
        (attr as int / 16) % 4
    } else {
        (attr as int / 64) % 4
    }
}

/// Bit `7 - fine_x` of a pattern byte: the pixel at column `fine_x`.
pub open spec fn pattern_bit(b: u8, fine_x: int) -> int {
    if fine_x == 0 {
        (b as int / 128) % 2
    } else if fine_x == 1 {
        (b as int / 64) % 2
    } else if fine_x == 2 {
        (b as int / 32) % 2
    } else if fine_x == 3 {
        (b as int / 16) % 2
    } else if fine_x == 4 {
        (b as int / 8) % 2
    } else if fine_x == 5 {
        (b as int / 4) % 2
    } else if fine_x == 6 {
        (b as int / 2) % 2
    } else {
        b as int % 2
    }
}

/// Pixel `i` (row `i / 256`, column `i % 256`) of background tile row
/// `tile_y`: the tile is looked up in the nametable chosen by the horizontal
/// tile index (scrolled by whole tiles), its pattern fetched from the pattern
/// table that bit 4 of the control register selects, and its palette from the
/// attribute table. The value is `palette * 4 + colour`.
pub open spec fn background_pixel(v: PpuView, tile_y: int, i: int) -> u8 {
    let py = i / 256;
    let px = i % 256;
    let tile_x = px / 8 + v.scroll_x / 8;
    let table = (tile_x / 32) % 2;
    let column = tile_x % 32;
    let name_addr = 0x2000 + table * 0x400 + tile_y * 32 + column;
    let attr_addr = 0x23C0 + table * 0x400 + (tile_y / 4) * 8 + column / 4;
    let sprite_id = ppu_peek(v, name_addr as u16);
    let attr = ppu_peek(v, attr_addr as u16);
    let base = (if v.ctrl & 0x10 == 0x10 { 0x1000int } else { 0 }) + sprite_id * 16 + py;
    let lo = ppu_peek(v, base as u16);
    let hi = ppu_peek(v, (base + 8) as u16);
    let colour = pattern_bit(lo, px % 8) + pattern_bit(hi, px % 8) * 2;
    (palette_of(attr, column, tile_y) * 4 + colour) as u8
}

/// The pixels of background tile row `tile_y`.
pub open spec fn tile_row(v: PpuView, tile_y: int) -> Seq<u8> {
    Seq::new(ROW_PIXELS as nat, |i: int| background_pixel(v, tile_y, i))
}

/// The end of scanline `v.line`: the background is cleared at the end of line
/// 0, a tile row is built on every eighth line up to 240, then the line
/// advances. Vertical blank begins at line 241; after line 261 the frame is
/// complete, vertical blank ends and the line returns to 0.
pub open spec fn finish_line(v: PpuView) -> PpuView {
    let l = v.line;
    let bg0 = if l == 0 {
        Seq::<u8>::empty()
    } else {
        v.background
    };
    let bg1 = if l <= 240 && l % 8 == 0 {
        bg0 + tile_row(v, (l / 8) as int)
    } else {
        bg0
    };
    let v1 = PpuView { cycle: (v.cycle - CYCLES_PER_LINE) as nat, background: bg1, ..v };
    if l + 1 == VBLANK_LINE {
        PpuView { line: (l + 1) as nat, vblank: true, ..v1 }
    } else if l + 1 >= LINES_PER_FRAME {
        PpuView { line: 0, vblank: false, ..v1 }
    } else {
        PpuView { line: (l + 1) as nat, ..v1 }
    }
}

/// Ends lines while a whole line's cycles have accumulated, stopping at the end
/// of a frame. Gives the new state, the NMI request (raised when vertical blank
/// begins with bit 7 of the control register set), and whether a frame ended.
pub open spec fn advance(v: PpuView, nmi: bool) -> (PpuView, bool, bool)
    decreases v.cycle,
{
    if v.cycle < CYCLES_PER_LINE {
        (v, nmi, false)
    } else {
        let v1 = finish_line(v);
        let nmi1 = nmi || (v1.line == VBLANK_LINE && v1.ctrl & 0x80 == 0x80);
        if v.line + 1 >= LINES_PER_FRAME {
            (v1, nmi1, true)
        } else {
            advance(v1, nmi1)
        }
    }
}

/// `n`, held at the largest machine integer.
pub open spec fn saturated(n: int) -> nat {
    if n > usize::MAX {
        usize::MAX as nat
    } else {
        n as nat
    }
}

/// Runs the PPU for `cycles` more cycles.
pub open spec fn ppu_run_spec(v: PpuView, cycles: nat, nmi: bool) -> (PpuView, bool, bool) {
    advance(PpuView { cycle: saturated(v.cycle + cycles as int), ..v }, nmi)
}

/// The sum of a sequence of cycle counts.
pub open spec fn sum_of(chunks: Seq<nat>) -> nat
    decreases chunks.len(),
{
    if chunks.len() == 0 {
        0
    } else {
        chunks[0] + sum_of(chunks.drop_first())
    }
}

/// How many frame completions the PPU signals when run once for each count of
/// cycles in `chunks`, in order.
pub open spec fn frames_signalled(v: PpuView, chunks: Seq<nat>) -> nat
    decreases chunks.len(),
{
    if chunks.len() == 0 {
        0
    } else {
        let (v1, n1, done) = ppu_run_spec(v, chunks[0], false);
        (if done {
            1nat
        } else {
            0nat
        }) + frames_signalled(v1, chunks.drop_first())
    }
}

/// The PPU at power-on, holding the cartridge's pattern data.
pub open spec fn initial_ppu(character_ram: Seq<u8>, config: PpuConfig) -> PpuView {
    PpuView {
        cycle: 0,
        line: 0,
        vram: Seq::new(0x2000, |i: int| 0u8),
        cram: character_ram,
        oam: Seq::new(0x100, |i: int| 0u8),
        background: Seq::empty(),
        horizontal_mirror: config.is_horizontal_mirror,
        ctrl: 0,
        vblank: false,
        oam_addr: 0,
        vram_addr: 0,
        latch: false,
        scroll_x: 0,
        scroll_y: 0,
    }
}

/// A vector of `n` zeros.
pub fn zeros(n: usize) -> (r: Vec<u8>)
    ensures
        r@ == Seq::new(n as nat, |i: int| 0u8),
{
    let mut v: Vec<u8> = Vec::new();
    let mut i: usize = 0;
    while i < n
        invariant
            i <= n,
            v@ == Seq::new(i as nat, |k: int| 0u8),
        decreases n - i,
    {
        v.push(0);
        i = i + 1;
        assert(v@ =~= Seq::new(i as nat, |k: int| 0u8));
    }
    v
}

/// A copy of `v`.
pub fn copy_bytes(v: &Vec<u8>) -> (r: Vec<u8>)
    ensures
        r@ == v@,
{
    let mut r: Vec<u8> = Vec::new();
    let mut i: usize = 0;
    while i < v.len()
        invariant
            i <= v.len(),
            r@ =~= v@.take(i as int),
        decreases v.len() - i,
    {
        r.push(v[i]);
        i = i + 1;
    }
    assert(v@.take(v.len() as int) =~= v@);
    r
}

fn vram_index_of(addr: u16, horizontal: bool) -> (r: usize)
    requires
        0x2000 <= addr < 0x4000,
    ensures
        r == vram_index(addr as int, horizontal),
{
    let a = (addr - 0x2000) as usize;
    if a < 0x1000 {
        let table = a / 0x400;
        let mirrored = if horizontal {
            table / 2 * 2
        } else {
            table % 2
        };
        mirrored * 0x400 + a % 0x400
    } else {
        a
    }
}

fn palette_bits(attr: u8, tile_x: usize, tile_y: usize) -> (r: u8)
    ensures
        r == palette_of(attr, tile_x as int, tile_y as int),
{
    let block = (tile_x % 4) / 2 + ((tile_y % 4) / 2) * 2;
    if block == 0 {
        attr % 4
    } else if block == 1 {
        (attr / 4) % 4
    } else if block == 2 {
        (attr / 16) % 4
    } else {
        (attr / 64) % 4
    }
}

fn pattern_bit_of(b: u8, fine_x: usize) -> (r: u8)
    ensures
        r == pattern_bit(b, fine_x as int),
{
    if fine_x == 0 {
        (b / 128) % 2
    } else if fine_x == 1 {
        (b / 64) % 2
    } else if fine_x == 2 {
        (b / 32) % 2
    } else if fine_x == 3 {
        (b / 16) % 2
    } else if fine_x == 4 {
        (b / 8) % 2
    } else if fine_x == 5 {
        (b / 4) % 2
    } else if fine_x == 6 {
        (b / 2) % 2
    } else {
        b % 2
    }
}

/// The position of the PPU in its frame, in cycles.
pub open spec fn frame_position(v: PpuView) -> int {
    v.line * CYCLES_PER_LINE + v.cycle
}

/// How `advance` moves through a frame: short of a whole frame it only moves
/// the position forward, normalised to a line and a cycle within it; at a
/// whole frame it signals completion and keeps the cycles beyond it.
pub proof fn lemma_advance_timing(v: PpuView, nmi: bool)
    requires
        v.line < LINES_PER_FRAME,
    ensures
        ({
            let (v1, n1, done) = advance(v, nmi);
            &&& v1.ctrl == v.ctrl
            &&& v1.cram == v.cram
            &&& v1.oam == v.oam
            &&& if frame_position(v) < LINES_PER_FRAME * CYCLES_PER_LINE {
                &&& !done
                &&& frame_position(v1) == frame_position(v)
                &&& v1.cycle < CYCLES_PER_LINE
                &&& v1.line < LINES_PER_FRAME
            } else {
                &&& done
                &&& v1.line == 0
                &&& v1.cycle == frame_position(v) - LINES_PER_FRAME * CYCLES_PER_LINE
            }
        }),
    decreases v.cycle,
{
    if v.cycle >= CYCLES_PER_LINE {
        let v1 = finish_line(v);
        let nmi1 = nmi || (v1.line == VBLANK_LINE && v1.ctrl & 0x80 == 0x80);
        if v.line + 1 < LINES_PER_FRAME {
            lemma_advance_timing(v1, nmi1);
        }
    }
}

/// From a point inside a frame, runs of the PPU that together come short of
/// the end of the frame signal nothing; runs that reach it, but not the end of
/// the frame after, signal exactly once.
pub proof fn lemma_frames_signalled(v: PpuView, chunks: Seq<nat>)
    requires
        v.line < LINES_PER_FRAME,
        frame_position(v) < LINES_PER_FRAME * CYCLES_PER_LINE,
        frame_position(v) + sum_of(chunks) < 2 * LINES_PER_FRAME * CYCLES_PER_LINE,
    ensures
        frames_signalled(v, chunks) == if frame_position(v) + sum_of(chunks) >= LINES_PER_FRAME
            * CYCLES_PER_LINE {
            1nat
        } else {
            0nat
        },
    decreases chunks.len(),
{
    if chunks.len() > 0 {
        let v0 = PpuView { cycle: saturated(v.cycle + chunks[0] as int), ..v };
        assert(v.cycle + chunks[0] <= usize::MAX);
        lemma_advance_timing(v0, false);
        let (v1, n1, done) = advance(v0, false);
        lemma_frames_signalled(v1, chunks.drop_first());
    }
}

/// Frame cadence: from the start of a frame, a PPU driven with exactly
/// 262 * 341 cycles, split over any number of runs, signals exactly one
/// completed frame.
pub proof fn lemma_frame_cadence(v: PpuView, chunks: Seq<nat>)
    requires
        v.line == 0,
        v.cycle < CYCLES_PER_LINE,
        sum_of(chunks) == LINES_PER_FRAME * CYCLES_PER_LINE,
    ensures
        frames_signalled(v, chunks) == 1,
{
    lemma_frames_signalled(v, chunks);
}

fn background_pixel_at(v: &Ppu, tile_y: usize, i: usize) -> (r: u8)
    requires
        tile_y <= 30,
        i < ROW_PIXELS,
    ensures
        r == background_pixel(v@, tile_y as int, i as int),
{
    let py = i / 256;
    let px = i % 256;
    let tile_x = px / 8 + (v.scroll_x / 8) as usize;
    let table = (tile_x / 32) % 2;
    let column = tile_x % 32;
    let name_addr = (0x2000 + table * 0x400 + tile_y * 32 + column) as u16;
    let attr_addr = (0x23C0 + table * 0x400 + (tile_y / 4) * 8 + column / 4) as u16;
    let sprite_id = v.peek(name_addr);
    let attr = v.peek(attr_addr);
    let pattern_table: usize = if v.ctrl & 0x10 == 0x10 {
        0x1000
    } else {
        0
    };
    let base = pattern_table + sprite_id as usize * 16 + py;
    let lo = v.peek(base as u16);
    let hi = v.peek((base + 8) as u16);
    let colour = pattern_bit_of(lo, px % 8) + pattern_bit_of(hi, px % 8) * 2;
    palette_bits(attr, column, tile_y) * 4 + colour
}

impl Ppu {
    pub fn new(character_ram: Vec<u8>, config: PpuConfig) -> (r: Ppu)
        ensures
            r@ == initial_ppu(character_ram@, config),
    {
        Ppu {
            cycle: 0,
            line: 0,
            vram: zeros(0x2000),
            cram: character_ram,
            oam: zeros(0x100),
            background: Vec::new(),
            config,
            ctrl: 0,
            vblank: false,
            oam_addr: 0,
            vram_addr: 0,
            latch: false,
            scroll_x: 0,
            scroll_y: 0,
        }
    }

    /// The pixels of background tile row `tile_y`.
    fn row_pixels(&self, tile_y: usize) -> (r: Vec<u8>)
        requires
            tile_y <= 30,
        ensures
            r@ == tile_row(self@, tile_y as int),
    {
        let mut row: Vec<u8> = Vec::new();
        let mut i: usize = 0;
        while i < ROW_PIXELS
            invariant
                i <= ROW_PIXELS,
                tile_y <= 30,
                row@ =~= tile_row(self@, tile_y as int).take(i as int),
            decreases ROW_PIXELS - i,
        {
            let p = background_pixel_at(self, tile_y, i);
            row.push(p);
            i = i + 1;
        }
        assert(tile_row(self@, tile_y as int).take(ROW_PIXELS as int) =~= tile_row(self@, tile_y as int));
        row
    }

    /// Ends the current scanline.
    fn finish_line(&mut self)
        requires
            old(self)@.cycle >= CYCLES_PER_LINE,
        ensures
            final(self)@ == finish_line(old(self)@),
    {
        let l = self.line;
        if l == 0 {
            let row = self.row_pixels(0);
            assert(Seq::<u8>::empty() + row@ =~= row@);
            self.background = row;
        } else if l <= 240 && l % 8 == 0 {
            let mut row = self.row_pixels(l / 8);
            self.background.append(&mut row);
        }
        self.cycle = self.cycle - CYCLES_PER_LINE;
        if l == VBLANK_LINE - 1 {
            self.line = VBLANK_LINE;
            self.vblank = true;
        } else if l >= LINES_PER_FRAME - 1 {
            self.line = 0;
            self.vblank = false;
        } else {
            self.line = l + 1;
        }
    }

    /// Runs the PPU for `cycle` more cycles (three per CPU cycle). Raises `nmi`
    /// when vertical blank begins with NMI enabled. When a frame is completed
    /// it stops there and returns the frame; cycles left over stay for the next call.
    pub fn run(&mut self, cycle: usize, nmi: &mut bool) -> (r: Option<RenderingContext>)
        ensures
            ({
                let (v1, n1, done) = ppu_run_spec(old(self)@, cycle as nat, *old(nmi));
                &&& final(self)@ == v1
                &&& *final(nmi) == n1
                &&& r is Some <==> done
                &&& r matches Some(f) ==> f.background@ == v1.background && f.sprites@ == v1.oam
            }),
    {
        self.cycle = if cycle > usize::MAX - self.cycle {
            usize::MAX
        } else {
            self.cycle + cycle
        };
        while self.cycle >= CYCLES_PER_LINE
            invariant
                advance(self@, *nmi) == ppu_run_spec(old(self)@, cycle as nat, *old(nmi)),
            decreases self.cycle,
        {
            let l = self.line;
            self.finish_line();
            if self.line == VBLANK_LINE && self.ctrl & 0x80 == 0x80 {
                *nmi = true;
            }
            if l >= LINES_PER_FRAME - 1 {
                return Some(
                    RenderingContext { background: copy_bytes(&self.background), sprites: copy_bytes(&self.oam) },
                );
            }
        }
        None
    }

    /// The byte at a PPU address.
    pub fn peek(&self, addr: u16) -> (r: u8)
        ensures
            r == ppu_peek(self@, addr),
    {
        let a = addr % 0x4000;
        if a < 0x2000 {
            load_byte(&self.cram, a as usize)
        } else {
            load_byte(&self.vram, vram_index_of(a, self.config.is_horizontal_mirror))
        }
    }

    /// Stores a byte at a PPU address.
    pub fn poke(&mut self, addr: u16, data: u8)
        ensures
            final(self)@ == ppu_poke(old(self)@, addr, data),
    {
        let a = addr % 0x4000;
        if a < 0x2000 {
            store_byte(&mut self.cram, a as usize, data);
        } else {
            let i = vram_index_of(a, self.config.is_horizontal_mirror);
            store_byte(&mut self.vram, i, data);
        }
    }

    fn advance_vram_addr(&mut self)
        ensures
            final(self)@ == (PpuView { vram_addr: advanced_vram_addr(old(self)@), ..old(self)@ }),
    {
        let step: u32 = if self.ctrl & 0x04 == 0x04 {
            32
        } else {
            1
        };
        self.vram_addr = ((self.vram_addr as u32 + step) % 0x4000) as u16;
    }

    /// A CPU write to PPU register `reg` (0 to 7).
    pub fn write(&mut self, reg: u16, data: u8)
        ensures
            final(self)@ == register_write(old(self)@, reg, data),
    {
        if reg == 0 {
            self.ctrl = data;
        } else if reg == 3 {
            self.oam_addr = data;
        } else if reg == 4 {
            store_byte(&mut self.oam, self.oam_addr as usize, data);
            self.oam_addr = if self.oam_addr == 0xFF {
                0
            } else {
                self.oam_addr + 1
            };
        } else if reg == 5 {
            if !self.latch {
                self.scroll_x = data;
                self.latch = true;
            } else {
                self.scroll_y = data;
                self.latch = false;
            }
        } else if reg == 6 {
            if !self.latch {
                self.vram_addr = (data % 0x40) as u16 * 256 + self.vram_addr % 256;
                self.latch = true;
            } else {
                self.vram_addr = ((self.vram_addr / 256) as u32 * 256 + data as u32) as u16;
                self.latch = false;
            }
        } else if reg == 7 {
            let addr = self.vram_addr;
            self.poke(addr, data);
            self.advance_vram_addr();
        }
    }

    /// A CPU read of PPU register `reg` (0 to 7).
    pub fn read(&mut self, reg: u16) -> (r: u8)
        ensures
            (r, final(self)@) == register_read(old(self)@, reg),
    {
        if reg == 2 {
            let status: u8 = if self.vblank {
                0x80
            } else {
                0
            };
            self.vblank = false;
            self.latch = false;
            status
        } else if reg == 4 {
            load_byte(&self.oam, self.oam_addr as usize)
        } else if reg == 7 {
            let v = self.peek(self.vram_addr);
            self.advance_vram_addr();
            v
        } else {
            0
        }
    }

    /// Replaces the whole sprite attribute memory.
    pub fn load_sprites(&mut self, sprites: Vec<u8>)
        ensures
            final(self)@ == (PpuView { oam: sprites@, ..old(self)@ }),
    {
        self.oam = sprites;
    }

    /// The sprite attribute memory.
    pub fn sprites(&self) -> (r: &Vec<u8>)
        ensures
            r@ == self@.oam,
    {
        &self.oam
    }

    /// The tile rows built so far in the current frame.
    pub fn background(&self) -> (r: &Vec<u8>)
        ensures
            r@ == self@.background,
    {
        &self.background
    }

    pub fn line(&self) -> (r: usize)
        ensures
            r == self@.line,
    {
        self.line
    }

    pub fn cycle(&self) -> (r: usize)
        ensures
            r == self@.cycle,
    {
        self.cycle
    }
}

} // verus!
