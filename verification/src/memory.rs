//! The machine's 4 KiB of byte-addressed memory.

use vstd::prelude::*;
use crate::sprites::load_default_sprites;
use crate::sprites::font;

verus! {

/// Number of bytes of memory: addresses run from `0x000` to `0xFFF`.
pub const MEMORY_SIZE: usize = 4096;

/// Address at which programs are loaded and start to run.
pub const PROGRAM_START: u16 = 0x200;

/// The longest program that fits between `PROGRAM_START` and the end of memory.
pub const MAX_ROM_SIZE: usize = 3584;

/// Why a program could not be loaded.
#[derive(Clone, Copy, Debug, PartialEq, Eq)]
pub enum RomError {
    /// The program is longer than the memory above `PROGRAM_START`.
    RomTooLarge,
}

/// The cell that a 16-bit address names: addresses wrap around the end of
/// memory.
pub open spec fn cell(address: u16) -> int {
    address as int % 4096
}

/// Memory as a fresh machine has it: the font in the first eighty bytes, zero
/// everywhere else.
pub open spec fn initial_memory() -> Seq<u8> {
    Seq::new(4096, |a: int| if a < 80 { font()[a] } else { 0u8 })
}

/// `memory` with `rom` copied in from `PROGRAM_START` on.
pub open spec fn with_rom(memory: Seq<u8>, rom: Seq<u8>) -> Seq<u8> {
    Seq::new(4096, |a: int| if 0x200 <= a < 0x200 + rom.len() { rom[a - 0x200] } else { memory[a] })
}

/// 4096 bytes of memory.
///
/// ```text
/// 0xFFF +---------------+ end of memory
///       |   program     |
///       |   and data    |
/// 0x200 +---------------+ PROGRAM_START
///       |   reserved    |
/// 0x050 +---------------+
///       |   font        |
/// 0x000 +---------------+
/// ```
///
/// Its view is the sequence of its 4096 bytes.
pub struct Memory {
    ram: [u8; 4096],
}

impl View for Memory {
    type V = Seq<u8>;

    closed spec fn view(&self) -> Seq<u8> {
        self.ram@
    }
}

impl Memory {
    /// Memory always has 4096 cells.
    pub proof fn lemma_size(&self)
        ensures
            self@.len() == 4096,
    {
    }

    /// Fresh memory: the font at the bottom, zero above it.
    pub fn new() -> (memory: Self)
        ensures
            memory@ == initial_memory(),
    {
        let mut memory = Self { ram: [0; 4096] };
        load_default_sprites(&mut memory);
        assert(memory@ =~= initial_memory());
        memory
    }

    /// The byte at `address`, which wraps around the end of memory.
    pub fn read(&self, address: u16) -> (value: u8)
        ensures
            value == self@[cell(address)],
    {
        self.ram[(address % 4096) as usize]
    }

    /// Stores `value` at `address`, which wraps around the end of memory.
    pub fn write(&mut self, address: u16, value: u8)
        ensures
            final(self)@ == old(self)@.update(cell(address), value),
    {
        self.ram[(address % 4096) as usize] = value;
    }

    /// Copies a program into memory from `PROGRAM_START` on. A program that
    /// does not fit is refused, and memory stays as it was.
    pub fn load_rom(&mut self, rom_data: &[u8]) -> (result: Result<(), RomError>)
        ensures
            rom_data@.len() <= MAX_ROM_SIZE ==> result is Ok && final(self)@ == with_rom(
                old(self)@,
                rom_data@,
            ),
            rom_data@.len() > MAX_ROM_SIZE ==> result == Err::<(), RomError>(RomError::RomTooLarge)
                && final(self)@ == old(self)@,
    {
        let len = rom_data.len();
        if len > MAX_ROM_SIZE {
            return Err(RomError::RomTooLarge);
        }
        let mut k: usize = 0;
        while k < len
            invariant
                k <= len,
                len == rom_data@.len(),
                len <= MAX_ROM_SIZE,
                self@.len() == 4096,
                forall|a: int| 0 <= a < 4096 ==> #[trigger] self@[a] == (if 0x200 <= a < 0x200 + k {
                    rom_data@[a - 0x200]
                } else {
                    old(self)@[a]
                }),
            decreases len - k,
        {
            self.ram[0x200 + k] = rom_data[k];
            k += 1;
        }
        assert(self@ =~= with_rom(old(self)@, rom_data@));
        Ok(())
    }
}

} // verus!
