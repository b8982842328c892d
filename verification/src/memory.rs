//! The 2 KiB internal work RAM of the console.
//!
//! CPU addresses 0x0000..0x1FFF are served by this RAM with the 2 KiB
//! repeated every 0x0800 bytes (address mirroring).

use vstd::prelude::*;

verus! {

/// Number of bytes of physical work RAM.
pub const RAM_SIZE: usize = 0x800;

/// The physical RAM cell a (possibly mirrored) address maps to.
pub open spec fn ram_index(address: u16) -> int {
    (address % 0x800) as int
}

/// What a RAM read at a (possibly mirrored) address returns.
pub open spec fn spec_ram_read(m: Seq<u8>, address: u16) -> u8 {
    m[ram_index(address)]
}

/// The RAM contents after a write: addresses at or above 0x2000 are outside
/// the RAM window and leave it unchanged.
pub open spec fn spec_ram_write(m: Seq<u8>, address: u16, value: u8) -> Seq<u8> {
    if address < 0x2000 {
        m.update(ram_index(address), value)
    } else {
        m
    }
}

/// The internal work RAM.  Its view is the sequence of the 2 KiB of bytes.
#[derive(Clone, Debug)]
#[verifier::ext_equal]
pub struct Memory {
    pub mem: Vec<u8>,
}

impl View for Memory {
    type V = Seq<u8>;

    open spec fn view(&self) -> Seq<u8> {
        self.mem@
    }
}

impl Memory {
    /// The RAM holds exactly 2 KiB.
    pub open spec fn wf(&self) -> bool {
        self@.len() == RAM_SIZE
    }

    /// A zero-filled RAM.
    pub fn new() -> (r: Memory)
        ensures
            r.wf(),
            r@ == Seq::<u8>::new(RAM_SIZE as nat, |i: int| 0u8),
    {
        Memory { mem: zero_bytes(RAM_SIZE) }
    }

    /// Read a byte without announcing it anywhere; mirrors every 0x800 bytes.
    pub fn silent_read(&self, address: u16) -> (r: u8)
        requires
            self.wf(),
        ensures
            r == spec_ram_read(self@, address),
    {
        let real_address: u16 = address % 0x800;
        self.mem[real_address as usize]
    }

    /// Read a byte; mirrors every 0x800 bytes.
    pub fn read(&self, address: u16) -> (r: u8)
        requires
            self.wf(),
        ensures
            r == spec_ram_read(self@, address),
    {
        let real_address: u16 = address % 0x800;
        self.mem[real_address as usize]
    }

    /// Read a little-endian word from two consecutive addresses
    /// (the high byte wraps around the top of the address space).
    pub fn read_word(&self, address: u16) -> (r: u16)
        requires
            self.wf(),
        ensures
            r == (spec_ram_read(self@, address) as u16) + 256 * (spec_ram_read(
                self@,
                vstd::wrapping::u16_specs::wrapping_add(address, 1),
            ) as u16),
    {
        let low = self.read(address);
        let high = self.read(address.wrapping_add(1));
        (low as u16) + 256 * (high as u16)
    }

    /// Write a byte at a mirrored address; addresses outside the RAM window
    /// are ignored.
    pub fn write(&mut self, address: u16, value: u8)
        requires
            old(self).wf(),
        ensures
            final(self).wf(),
            final(self)@ == spec_ram_write(old(self)@, address, value),
    {
        if address < 0x2000 {
            let real_address: u16 = address % 0x800;
            self.mem[real_address as usize] = value;
        }
    }

    /// The whole physical RAM, for inspection.
    pub fn get_memory_slice(&self) -> (r: &Vec<u8>)
        ensures
            r@ == self@,
    {
        &self.mem
    }

    /// Clear the RAM to all zeroes.
    pub fn reset(&mut self)
        ensures
            final(self).wf(),
            final(self)@ == Seq::<u8>::new(RAM_SIZE as nat, |i: int| 0u8),
    {
        self.mem = zero_bytes(RAM_SIZE);
    }
}

/// A vector of `len` zero bytes.
pub fn zero_bytes(len: usize) -> (r: Vec<u8>)
    ensures
        r@ == Seq::<u8>::new(len as nat, |i: int| 0u8),
{
    let mut v: Vec<u8> = Vec::new();
    let mut i: usize = 0;
    while i < len
        invariant
            i <= len,
            v@ =~= Seq::<u8>::new(i as nat, |j: int| 0u8),
        decreases len - i,
    {
        v.push(0);
        i = i + 1;
        proof {
            assert(v@ =~= Seq::<u8>::new(i as nat, |j: int| 0u8));
        }
    }
    proof {
        assert(v@ =~= Seq::<u8>::new(len as nat, |j: int| 0u8));
    }
    v
}

} // verus!
