//! The 4096-byte address space and the built-in hexadecimal font.

use vstd::prelude::*;

verus! {

/// Number of addressable bytes.
pub const MEMORY_SIZE: usize = 4096;

/// Address at which a program image is placed and execution starts.
pub const PROGRAM_START: usize = 0x200;

/// Number of bytes taken by the font: sixteen glyphs of five rows each.
pub const FONT_SIZE: usize = 80;

/// The sixteen hexadecimal glyphs, five rows each, most significant bit leftmost.
pub const HEX_SPRITES: [u8; 80] = [
    0xF0, 0x90, 0x90, 0x90, 0xF0,
    0x20, 0x60, 0x20, 0x20, 0x70,
    0xF0, 0x10, 0xF0, 0x80, 0xF0,
    0xF0, 0x10, 0xF0, 0x10, 0xF0,
    0x90, 0x90, 0xF0, 0x10, 0x10,
    0xF0, 0x80, 0xF0, 0x10, 0xF0,
    0xF0, 0x80, 0xF0, 0x90, 0xF0,
    0xF0, 0x10, 0x20, 0x40, 0x40,
    0xF0, 0x90, 0xF0, 0x90, 0xF0,
    0xF0, 0x90, 0xF0, 0x10, 0xF0,
    0xF0, 0x90, 0xF0, 0x90, 0x90,
    0xE0, 0x90, 0xE0, 0x90, 0xE0,
    0xF0, 0x80, 0x80, 0x80, 0xF0,
    0xE0, 0x90, 0x90, 0x90, 0xE0,
    0xF0, 0x80, 0xF0, 0x80, 0xF0,
    0xF0, 0x80, 0xF0, 0x80, 0x80,
];

/// Memory after the font was copied to its first 80 bytes.
pub open spec fn font_installed(memory: Seq<u8>) -> Seq<u8> {
    Seq::new(
        memory.len(),
        |a: int|
            if 0 <= a < 80 {
                HEX_SPRITES@[a]
            } else {
                memory[a]
            },
    )
}

/// The memory of a machine that has just been switched on: the font, then zeros.
pub open spec fn initial_memory() -> Seq<u8> {
    font_installed(Seq::new(4096, |a: int| 0u8))
}

/// Memory after the three decimal digits of `value` were stored from `i` on.
pub open spec fn bcd_stored(memory: Seq<u8>, i: int, value: u8) -> Seq<u8> {
    memory.update(i, value / 100).update(i + 1, (value / 10) % 10).update(i + 2, value % 10)
}

/// Memory after V0 to VX were stored from `i` on.
pub open spec fn registers_stored(memory: Seq<u8>, v: Seq<u8>, i: int, x: int) -> Seq<u8> {
    Seq::new(
        memory.len(),
        |a: int|
            if i <= a <= i + x {
                v[a - i]
            } else {
                memory[a]
            },
    )
}

/// Memory after up to 3584 bytes of `rom` were copied to `0x200` and beyond.
pub open spec fn rom_loaded(memory: Seq<u8>, rom: Seq<u8>) -> Seq<u8> {
    Seq::new(
        memory.len(),
        |a: int|
            if 0x200 <= a < 0x200 + rom.len() {
                rom[a - 0x200]
            } else {
                memory[a]
            },
    )
}

/// The RAM of the machine.
pub struct Memory {
    /// The bytes, by address.
    pub buf: [u8; 4096],
}

impl View for Memory {
    type V = Seq<u8>;

    open spec fn view(&self) -> Seq<u8> {
        self.buf@
    }
}

impl std::ops::Deref for Memory {
    type Target = [u8; 4096];

    /// The bytes of the memory, for reading.
    fn deref(&self) -> (bytes: &[u8; 4096])
        ensures
            bytes@ == self@,
    {
        &self.buf
    }
}

impl Memory {
    /// Copies the font to the bottom of `memory` and leaves every other byte alone.
    pub fn fill_hex_sprites(memory: &mut [u8; 4096])
        ensures
            final(memory)@ == font_installed(old(memory)@),
    {
        let mut i: usize = 0;
        while i < 80
            invariant
                i <= 80,
                forall|k: int| 0 <= k < i ==> memory@[k] == HEX_SPRITES@[k],
                forall|k: int| 80 <= k < 4096 ==> memory@[k] == old(memory)@[k],
            decreases 80 - i,
        {
            memory[i] = HEX_SPRITES[i];
            i += 1;
        }
        assert(memory@ =~= font_installed(old(memory)@));
    }

    /// Copies a program image to address `0x200` and returns how many bytes
    /// were copied: what does not fit in the 3584 bytes up to the end of
    /// memory is silently left out.
    pub fn load_rom(&mut self, rom: &[u8]) -> (loaded: usize)
        ensures
            loaded == if rom@.len() <= 3584 {
                rom@.len()
            } else {
                3584
            },
            final(self)@ == rom_loaded(old(self)@, rom@),
    {
        let loaded: usize = if rom.len() <= 3584 {
            rom.len()
        } else {
            3584
        };
        let mut k: usize = 0;
        while k < loaded
            invariant
                k <= loaded <= 3584,
                loaded <= rom@.len(),
                forall|a: int| 0x200 <= a < 0x200 + k ==> self@[a] == rom@[a - 0x200],
                forall|a: int| 0 <= a < 0x200 || 0x200 + k <= a < 4096 ==> self@[a] == old(self)@[a],
            decreases loaded - k,
        {
            let ghost before = self@;
            self.buf[0x200 + k] = rom[k];
            assert(self@ == before.update(0x200 + k, rom@[k as int]));
            k += 1;
        }
        assert(self@ =~= rom_loaded(old(self)@, rom@));
        loaded
    }

    /// The byte at `addr`.
    pub fn read(&self, addr: usize) -> (value: u8)
        requires
            addr < 4096,
        ensures
            value == self@[addr as int],
    {
        self.buf[addr]
    }

    /// Stores `value` at `addr`.
    pub fn write(&mut self, addr: usize, value: u8)
        requires
            addr < 4096,
        ensures
            final(self)@ == old(self)@.update(addr as int, value),
    {
        self.buf[addr] = value;
        assert(self@ =~= old(self)@.update(addr as int, value));
    }

    /// Stores the hundreds, tens and ones digit of `value` at `addr`,
    /// `addr + 1` and `addr + 2`.
    pub fn store_bcd(&mut self, addr: usize, value: u8)
        requires
            addr + 3 <= 4096,
        ensures
            final(self)@ == bcd_stored(old(self)@, addr as int, value),
    {
        self.write(addr, value / 100);
        self.write(addr + 1, (value / 10) % 10);
        self.write(addr + 2, value % 10);
    }

    /// Stores the registers V0 to VX, in order, at `addr` and beyond.
    pub fn store_registers(&mut self, addr: usize, v: &[u8; 16], x: usize)
        requires
            x < 16,
            addr + x + 1 <= 4096,
        ensures
            final(self)@ == registers_stored(old(self)@, v@, addr as int, x as int),
    {
        let mut k: usize = 0;
        while k <= x
            invariant
                k <= x + 1,
                x < 16,
                addr + x + 1 <= 4096,
                forall|a: int| addr <= a < addr + k ==> self@[a] == v@[a - addr],
                forall|a: int| 0 <= a < addr || addr + k <= a < 4096 ==> self@[a] == old(self)@[a],
            decreases x + 1 - k,
        {
            let ghost before = self@;
            self.buf[addr + k] = v[k];
            assert(self@ == before.update(addr + k, v@[k as int]));
            k += 1;
        }
        assert(self@ =~= registers_stored(old(self)@, v@, addr as int, x as int));
    }

    /// A zeroed memory with the font installed.
    pub fn new() -> (m: Memory)
        ensures
            m@ == initial_memory(),
    {
        let mut buf: [u8; 4096] = [0; 4096];
        assert(buf@ =~= Seq::new(4096, |a: int| 0u8));
        Self::fill_hex_sprites(&mut buf);
        Memory { buf }
    }
}

} // verus!
