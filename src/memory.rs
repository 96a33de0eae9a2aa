use vstd::prelude::*;

verus! {

/// The byte at index `i`, or the fill value 0 outside the sequence.
pub open spec fn byte_at(s: Seq<u8>, i: int) -> u8 {
    if 0 <= i < s.len() {
        s[i]
    } else {
        0
    }
}

/// `s` with the byte at `i` replaced; unchanged when `i` lies outside it.
pub open spec fn stored(s: Seq<u8>, i: int, v: u8) -> Seq<u8> {
    if 0 <= i < s.len() {
        s.update(i, v)
    } else {
        s
    }
}

/// Reads `bytes[i]`, or 0 when `i` is out of range.
pub fn load_byte(bytes: &Vec<u8>, i: usize) -> (r: u8)
    ensures
        r == byte_at(bytes@, i as int),
{
    if i < bytes.len() {
        bytes[i]
    } else {
        0
    }
}

/// Writes `bytes[i]`; does nothing when `i` is out of range.
pub fn store_byte(bytes: &mut Vec<u8>, i: usize, v: u8)
    ensures
        final(bytes)@ == stored(old(bytes)@, i as int, v),
{
    if i < bytes.len() {
        bytes.set(i, v);
    }
}

/// Read-only memory, such as a cartridge's program ROM.
#[derive(Debug)]
pub struct Rom(Box<Vec<u8>>);

impl View for Rom {
    type V = Seq<u8>;

    closed spec fn view(&self) -> Seq<u8> {
        self.0@
    }
}

impl Rom {
    pub fn new(buf: Box<Vec<u8>>) -> (r: Rom)
        ensures
            r@ == buf@,
    {
        Rom(buf)
    }

    /// The byte at `addr`; the address must lie inside the ROM.
    pub fn read(&self, addr: u16) -> (r: u8)
        requires
            (addr as int) < self@.len(),
        ensures
            r == self@[addr as int],
    {
        self.0[addr as usize]
    }

    pub fn size(&self) -> (r: usize)
        ensures
            r == self@.len(),
    {
        self.0.len()
    }
}

/// Writable memory, such as the console's work RAM.
#[derive(Debug)]
pub struct Ram(Vec<u8>);

impl View for Ram {
    type V = Seq<u8>;

    closed spec fn view(&self) -> Seq<u8> {
        self.0@
    }
}

impl Ram {
    pub fn new(buf: Vec<u8>) -> (r: Ram)
        ensures
            r@ == buf@,
    {
        Ram(buf)
    }

    /// The byte at `addr`; the address must lie inside the RAM.
    pub fn read(&self, addr: u16) -> (r: u8)
        requires
            (addr as int) < self@.len(),
        ensures
            r == self@[addr as int],
    {
        self.0[addr as usize]
    }

    /// Stores `data` at `addr`; the address must lie inside the RAM.
    pub fn write(&mut self, addr: u16, data: u8)
        requires
            (addr as int) < old(self)@.len(),
        ensures
            final(self)@ == old(self)@.update(addr as int, data),
    {
        self.0.set(addr as usize, data);
    }

    pub fn size(&self) -> (r: usize)
        ensures
            r == self@.len(),
    {
        self.0.len()
    }
}

} // verus!
