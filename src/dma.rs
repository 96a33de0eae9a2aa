use vstd::prelude::*;
use crate::memory::{Ram, byte_at};
use crate::ppu::{Ppu, PpuView};

verus! {

/// CPU cycles that a transfer stalls the processor for.
pub const DMA_CYCLES: u16 = 514;

/// Bytes a transfer copies.
pub const DMA_LENGTH: usize = 256;

/// Size of the work RAM, which repeats every 2 KiB below 0x2000.
pub const WORK_RAM_SIZE: usize = 0x800;

/// The 256 bytes a transfer from `addr` copies: work RAM from `addr` on, in
/// the work RAM's own address space.
pub open spec fn dma_source(ram: Seq<u8>, addr: u16) -> Seq<u8> {
    Seq::new(DMA_LENGTH as nat, |i: int| byte_at(ram, (addr + i) % WORK_RAM_SIZE as int))
}

/// Copies 256 bytes of work RAM from `addr` into the PPU's sprite memory,
/// replacing all of it.
pub fn transfer(addr: u16, ram: &Ram, ppu: &mut Ppu)
    ensures
        final(ppu)@ == (PpuView { oam: dma_source(ram@, addr), ..old(ppu)@ }),
{
    let mut sprites: Vec<u8> = Vec::new();
    let mut i: usize = 0;
    while i < DMA_LENGTH
        invariant
            i <= DMA_LENGTH,
            sprites@ =~= dma_source(ram@, addr).take(i as int),
        decreases DMA_LENGTH - i,
    {
        let index = (addr as usize + i) % WORK_RAM_SIZE;
        let v = if index < ram.size() {
            ram.read(index as u16)
        } else {
            0
        };
        sprites.push(v);
        i = i + 1;
    }
    assert(dma_source(ram@, addr).take(DMA_LENGTH as int) =~= dma_source(ram@, addr));
    ppu.load_sprites(sprites);
}

} // verus!
