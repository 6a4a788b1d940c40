//! The two memory regions and the bus trait.

use vstd::prelude::*;

verus! {

/// Size of the first backing region.
pub const ROM_SIZE: usize = 0x1_5000;

/// Size of the second backing region.
pub const RAM_SIZE: usize = 0x1_0000;

/// The two backing regions of the address space.
pub struct Memory {
    rom: Vec<u8>,
    ram: Vec<u8>,
}

impl Memory {
    #[verifier::type_invariant]
    spec fn sized(self) -> bool {
        self.rom@.len() == ROM_SIZE && self.ram@.len() == RAM_SIZE
    }

    /// Contents of the first region.
    pub closed spec fn rom(self) -> Seq<u8> {
        self.rom@
    }

    /// Contents of the second region.
    pub closed spec fn ram(self) -> Seq<u8> {
        self.ram@
    }

    /// Memory with every byte of both regions zero.
    pub fn new() -> (m: Memory)
        ensures
            m.rom() == Seq::new(ROM_SIZE as nat, |i: int| 0u8),
            m.ram() == Seq::new(RAM_SIZE as nat, |i: int| 0u8),
    {
        let m = Memory { rom: vec![0u8; ROM_SIZE], ram: vec![0u8; RAM_SIZE] };
        assert(m.rom@ =~= Seq::new(ROM_SIZE as nat, |i: int| 0u8));
        assert(m.ram@ =~= Seq::new(RAM_SIZE as nat, |i: int| 0u8));
        m
    }

    /// Both regions always have their full size.
    pub fn sizes(&self)
        ensures
            self.rom().len() == ROM_SIZE,
            self.ram().len() == RAM_SIZE,
    {
        proof {
            use_type_invariant(self);
        }
    }

    /// The byte at index `v` of the first region.
    pub fn peek(&self, v: usize) -> (b: u8)
        requires
            v < ROM_SIZE,
        ensures
            b == self.rom()[v as int],
    {
        proof {
            use_type_invariant(self);
        }
        self.rom[v]
    }

    /// Stores `b` at index `v` of the first region.
    pub fn poke(&mut self, v: usize, b: u8)
        requires
            v < ROM_SIZE,
        ensures
            final(self).rom() == old(self).rom().update(v as int, b),
            final(self).ram() == old(self).ram(),
    {
        proof {
            use_type_invariant(&*self);
        }
        self.rom[v] = b;
    }

    /// The byte at index `v` of the second region.
    pub fn peek_ram(&self, v: usize) -> (b: u8)
        requires
            v < RAM_SIZE,
        ensures
            b == self.ram()[v as int],
    {
        proof {
            use_type_invariant(self);
        }
        self.ram[v]
    }

    /// Stores `b` at index `v` of the second region.
    pub fn poke_ram(&mut self, v: usize, b: u8)
        requires
            v < RAM_SIZE,
        ensures
            final(self).ram() == old(self).ram().update(v as int, b),
            final(self).rom() == old(self).rom(),
    {
        proof {
            use_type_invariant(&*self);
        }
        self.ram[v] = b;
    }
}

impl Memory {
    /// The first region with `image` laid over it from index `at` on.
    pub open spec fn overlaid(rom: Seq<u8>, at: int, image: Seq<u8>) -> Seq<u8> {
        Seq::new(
            rom.len(),
            |i: int|
                if at <= i < at + image.len() {
                    image[i - at]
                } else {
                    rom[i]
                },
        )
    }

    /// Copies `image` into the first region from index `at` on.
    pub fn load_at(&mut self, at: usize, image: &[u8])
        requires
            at + image@.len() <= ROM_SIZE,
        ensures
            final(self).rom() == Memory::overlaid(old(self).rom(), at as int, image@),
            final(self).ram() == old(self).ram(),
    {
        let n = image.len();
        let mut i: usize = 0;
        proof {
            use_type_invariant(&*self);
        }
        while i < n
            invariant
                n == image@.len(),
                at + n <= ROM_SIZE,
                i <= n,
                self.rom@.len() == ROM_SIZE,
                self.ram@.len() == RAM_SIZE,
                self.ram@ == old(self).ram@,
                self.rom@ =~= Memory::overlaid(old(self).rom@, at as int, image@.take(i as int)),
            decreases n - i,
        {
            self.rom[at + i] = image[i];
            i = i + 1;
        }
        assert(image@.take(n as int) =~= image@);
    }

    /// Loads a program image at the start of the first region.
    pub fn load_bin(&mut self, image: &[u8])
        requires
            image@.len() <= ROM_SIZE,
        ensures
            final(self).rom() == Memory::overlaid(old(self).rom(), 0, image@),
            final(self).ram() == old(self).ram(),
    {
        self.load_at(0, image);
    }

    /// Loads a CP/M program image at address 0x0100.
    pub fn load_tests(&mut self, image: &[u8])
        requires
            0x0100 + image@.len() <= ROM_SIZE,
        ensures
            final(self).rom() == Memory::overlaid(old(self).rom(), 0x0100, image@),
            final(self).ram() == old(self).ram(),
    {
        self.load_at(0x0100, image);
    }
}

/// The bus: byte and little-endian word access by 16-bit address.
pub trait MemoryRW {
    fn read8(&self, addr: u16) -> u8;

    fn read16(&self, addr: u16) -> u16;

    fn write16(&mut self, addr: u16, word: u16);

    fn write8(&mut self, addr: u16, byte: u8);
}

} // verus!
