use vstd::prelude::*;
use crate::error::Chip8Error;

verus! {

/// Number of addressable bytes.
pub const MEMORY_SIZE: usize = 4096;

/// Address at which a program is loaded and execution starts.
pub const PROGRAM_START: usize = 0x200;

/// Largest ROM image that fits between the program start and the end of memory.
pub const MAX_ROM_SIZE: usize = 3584;

/// The byte address that an arbitrary address stands for: the address space
/// wraps at its size.
pub open spec fn wrap_addr(a: int) -> int {
    a % (MEMORY_SIZE as int)
}

/// Memory after a ROM image is copied to the program start; every other byte
/// keeps its value.
pub open spec fn loaded(mem: Seq<u8>, rom: Seq<u8>) -> Seq<u8> {
    Seq::new(
        mem.len(),
        |a: int|
            if PROGRAM_START <= a < PROGRAM_START + rom.len() {
                rom[a - PROGRAM_START]
            } else {
                mem[a]
            },
    )
}

/// The machine's flat byte-addressed memory.
#[derive(Debug)]
pub struct Memory {
    pub data: [u8; 4096],
}

impl Memory {
    /// Zero-filled memory.
    pub fn new() -> (m: Self)
        ensures
            forall|a: int| 0 <= a < MEMORY_SIZE ==> #[trigger] m.data@[a] == 0,
    {
        Memory { data: [0u8; 4096] }
    }

    /// The byte at `index`.
    pub fn get(&self, index: usize) -> (r: u8)
        requires
            index < MEMORY_SIZE,
        ensures
            r == self.data@[index as int],
    {
        self.data[index]
    }

    /// Writes `value` at `index`.
    pub fn set(&mut self, index: usize, value: u8)
        requires
            index < MEMORY_SIZE,
        ensures
            final(self).data@ == old(self).data@.update(index as int, value),
    {
        self.data[index] = value;
    }

    /// Copies `rom` into memory from the program start on. A ROM that would
    /// run past the last address is refused and memory is left as it was.
    pub fn load(&mut self, rom: &[u8]) -> (r: Result<(), Chip8Error>)
        ensures
            rom@.len() <= MAX_ROM_SIZE ==> r is Ok && final(self).data@ == loaded(
                old(self).data@,
                rom@,
            ),
            rom@.len() > MAX_ROM_SIZE ==> r == Err::<(), Chip8Error>(
                Chip8Error::RomTooLarge { size: rom@.len() as usize },
            ) && final(self).data@ == old(self).data@,
    {
        if rom.len() > MAX_ROM_SIZE {
            return Err(Chip8Error::RomTooLarge { size: rom.len() });
        }
        let mut k: usize = 0;
        while k < rom.len()
            invariant
                rom@.len() <= MAX_ROM_SIZE,
                k <= rom@.len(),
                self.data@.len() == MEMORY_SIZE,
                forall|a: int|
                    0 <= a < MEMORY_SIZE ==> #[trigger] self.data@[a] == if PROGRAM_START <= a
                        < PROGRAM_START + k {
                        rom@[a - PROGRAM_START]
                    } else {
                        old(self).data@[a]
                    },
            decreases rom@.len() - k,
        {
            self.data[PROGRAM_START + k] = rom[k];
            k = k + 1;
        }
        assert(self.data@ =~= loaded(old(self).data@, rom@));
        Ok(())
    }
}

} // verus!
