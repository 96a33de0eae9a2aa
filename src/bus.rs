use vstd::prelude::*;

verus! {

/// What the CPU sees of the address space: a byte read and a byte write, each
/// with the effect on the devices behind the bus stated over the bus's view.
pub trait Bus: View + Sized {
    /// The byte that a read of `addr` returns in state `v`.
    spec fn peek(v: Self::V, addr: u16) -> u8;

    /// The state after a read of `addr` (a device register may change on read).
    spec fn after_read(v: Self::V, addr: u16) -> Self::V;

    /// The state after `data` is written to `addr`.
    spec fn after_write(v: Self::V, addr: u16, data: u8) -> Self::V;

    fn read(&mut self, addr: u16) -> (r: u8)
        ensures
            r == Self::peek(old(self)@, addr),
            final(self)@ == Self::after_read(old(self)@, addr),
    ;

    fn write(&mut self, addr: u16, data: u8)
        ensures
            final(self)@ == Self::after_write(old(self)@, addr, data),
    ;
}

/// A plain 64 KiB memory behind the bus, with no devices: every address is a
/// byte of RAM.
pub struct FlatMemory {
    bytes: Vec<u8>,
}

/// The size of the CPU's address space.
pub const ADDRESS_SPACE: usize = 0x10000;

impl View for FlatMemory {
    type V = Seq<u8>;

    closed spec fn view(&self) -> Seq<u8> {
        self.bytes@
    }
}

impl FlatMemory {
    /// A memory of 64 KiB zeros.
    pub fn new() -> (r: Self)
        ensures
            r@ == Seq::new(ADDRESS_SPACE as nat, |i: int| 0u8),
    {
        let mut bytes: Vec<u8> = Vec::new();
        let mut i: usize = 0;
        while i < ADDRESS_SPACE
            invariant
                i <= ADDRESS_SPACE,
                bytes@ == Seq::new(i as nat, |k: int| 0u8),
            decreases ADDRESS_SPACE - i,
        {
            bytes.push(0);
            i = i + 1;
            assert(bytes@ =~= Seq::new(i as nat, |k: int| 0u8));
        }
        FlatMemory { bytes }
    }

    /// The byte at `addr`.
    pub fn get(&self, addr: u16) -> (r: u8)
        ensures
            r == Self::peek(self@, addr),
    {
        if (addr as usize) < self.bytes.len() {
            self.bytes[addr as usize]
        } else {
            0
        }
    }

    /// Stores `data` at `addr`.
    pub fn set(&mut self, addr: u16, data: u8)
        ensures
            final(self)@ == Self::after_write(old(self)@, addr, data),
    {
        if (addr as usize) < self.bytes.len() {
            self.bytes.set(addr as usize, data);
        }
    }
}

impl Bus for FlatMemory {
    open spec fn peek(v: Seq<u8>, addr: u16) -> u8 {
        if (addr as int) < v.len() {
            v[addr as int]
        } else {
            0
        }
    }

    open spec fn after_read(v: Seq<u8>, addr: u16) -> Seq<u8> {
        v
    }

    open spec fn after_write(v: Seq<u8>, addr: u16, data: u8) -> Seq<u8> {
        if (addr as int) < v.len() {
            v.update(addr as int, data)
        } else {
            v
        }
    }

    fn read(&mut self, addr: u16) -> (r: u8) {
        self.get(addr)
    }

    fn write(&mut self, addr: u16, data: u8) {
        self.set(addr, data);
    }
}

} // verus!
