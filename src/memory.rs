//! The 4096-byte memory of the machine: the built-in font at the bottom and
//! the program from address 0x200.

use vstd::prelude::*;

verus! {

/// Size of the memory in bytes.
pub const MEMORY_SIZE: usize = 4096;

/// Address at which programs are loaded.
pub const PROGRAM_START: usize = 0x200;

/// Number of bytes available to a program.
pub const PROGRAM_SIZE: usize = 3584;

/// Length of the built-in font: sixteen glyphs of five bytes.
pub const FONT_LEN: usize = 80;

/// The built-in font: the glyphs of the hex digits 0 to F, five rows each.
pub open spec fn font() -> Seq<u8> {
    seq![
        0xF0u8, 0x90, 0x90, 0x90, 0xF0,  // 0
        0x20, 0x60, 0x20, 0x20, 0x70,  // 1
        0xF0, 0x10, 0xF0, 0x80, 0xF0,  // 2
        0xF0, 0x10, 0xF0, 0x10, 0xF0,  // 3
        0x90, 0x90, 0xF0, 0x10, 0x10,  // 4
        0xF0, 0x80, 0xF0, 0x10, 0xF0,  // 5
        0xF0, 0x80, 0xF0, 0x90, 0xF0,  // 6
        0xF0, 0x10, 0x20, 0x40, 0x40,  // 7
        0xF0, 0x90, 0xF0, 0x90, 0xF0,  // 8
        0xF0, 0x90, 0xF0, 0x10, 0xF0,  // 9
        0xF0, 0x90, 0xF0, 0x90, 0x90,  // A
        0xE0, 0x90, 0xE0, 0x90, 0xE0,  // B
        0xF0, 0x80, 0x80, 0x80, 0xF0,  // C
        0xE0, 0x90, 0x90, 0x90, 0xE0,  // D
        0xF0, 0x80, 0xF0, 0x80, 0xF0,  // E
        0xF0, 0x80, 0xF0, 0x80, 0x80,  // F
    ]
}

fn font_bytes() -> (r: [u8; FONT_LEN])
    ensures
        r@ == font(),
{
    let r: [u8; FONT_LEN] = [
        0xF0, 0x90, 0x90, 0x90, 0xF0,
        0x20, 0x60, 0x20, 0x20, 0x70,
        0xF0, 0x10, 0xF0, 0x80, 0xF0,
        0xF0, 0x10, 0xF0, 0x10, 0xF0,
        0x90, 0x90, 0xF0, 0x10, 0x10,
        0xF0, 0x80, 0xF0, 0x10, 0xF0,
        0xF0, 0x80, 0xF0, 0x90, 0xF0,
        0xF0, 0x10, 0x20, 0x40, 0x40,
        0xF0, 0x90, 0xF0, 0x90, 0xF0,
        0xF0, 0x90, 0xF0, 0x10, 0xF0,
        0xF0, 0x90, 0xF0, 0x90, 0x90,
        0xE0, 0x90, 0xE0, 0x90, 0xE0,
        0xF0, 0x80, 0x80, 0x80, 0xF0,
        0xE0, 0x90, 0x90, 0x90, 0xE0,
        0xF0, 0x80, 0xF0, 0x80, 0xF0,
        0xF0, 0x80, 0xF0, 0x80, 0x80,
    ];
    assert(r@ =~= font());
    r
}

/// The contents of a fresh memory: the font, then zeroes.
pub open spec fn initial_memory() -> Seq<u8> {
    Seq::new(MEMORY_SIZE as nat, |i: int| if i < FONT_LEN { font()[i] } else { 0u8 })
}

/// The byte at address `i` after loading `rom` over `mem`: the program region
/// holds the first [`PROGRAM_SIZE`] bytes of `rom`, then zeroes; the bytes
/// below it are kept.
pub open spec fn loaded(mem: Seq<u8>, rom: Seq<u8>) -> Seq<u8> {
    Seq::new(
        mem.len(),
        |i: int|
            if i < PROGRAM_START {
                mem[i]
            } else if i - PROGRAM_START < rom.len() {
                rom[i - PROGRAM_START]
            } else {
                0u8
            },
    )
}

/// The byte at `addr`, or 0 where `addr` lies outside the memory.
pub open spec fn byte_at(mem: Seq<u8>, addr: int) -> u8 {
    if 0 <= addr < mem.len() {
        mem[addr]
    } else {
        0u8
    }
}

/// `mem` with `value` stored at `addr`, unchanged where `addr` lies outside.
pub open spec fn stored(mem: Seq<u8>, addr: int, value: u8) -> Seq<u8> {
    if 0 <= addr < mem.len() {
        mem.update(addr, value)
    } else {
        mem
    }
}

/// Byte-addressable memory of [`MEMORY_SIZE`] bytes.
pub struct Memory {
    memory: [u8; MEMORY_SIZE],
}

impl View for Memory {
    type V = Seq<u8>;

    closed spec fn view(&self) -> Seq<u8> {
        self.memory@
    }
}

impl Memory {
    /// The memory always holds [`MEMORY_SIZE`] bytes.
    pub broadcast proof fn lemma_len(&self)
        ensures
            #[trigger] self@.len() == MEMORY_SIZE,
    {
    }

    /// A memory holding the font at address 0 and zeroes elsewhere.
    pub fn new() -> (r: Self)
        ensures
            r@ == initial_memory(),
    {
        let mut memory = [0u8; MEMORY_SIZE];
        let glyphs = font_bytes();
        let mut i: usize = 0;
        while i < FONT_LEN
            invariant
                0 <= i <= FONT_LEN,
                glyphs@ == font(),
                memory@.len() == MEMORY_SIZE,
                forall|j: int|
                    0 <= j < MEMORY_SIZE ==> #[trigger] memory@[j] == if j < i {
                        font()[j]
                    } else {
                        0u8
                    },
            decreases FONT_LEN - i,
        {
            memory[i] = glyphs[i];
            i = i + 1;
        }
        let r = Memory { memory };
        assert(r@ =~= initial_memory());
        r
    }

    /// The byte at `addr`; 0 where `addr` is outside the memory.
    pub fn read(&self, addr: usize) -> (r: u8)
        ensures
            r == byte_at(self@, addr as int),
    {
        if addr < MEMORY_SIZE {
            self.memory[addr]
        } else {
            0
        }
    }

    /// Stores `value` at `addr`; does nothing where `addr` is outside the
    /// memory.
    pub fn write(&mut self, addr: usize, value: u8)
        ensures
            final(self)@ == stored(old(self)@, addr as int, value),
    {
        if addr < MEMORY_SIZE {
            self.memory[addr] = value;
        }
    }

    /// Copies `data` to the program region from [`PROGRAM_START`]: a shorter
    /// program is followed by zeroes, a longer one is cut at the end of memory.
    pub fn load_rom(&mut self, data: Vec<u8>)
        ensures
            final(self)@ == loaded(old(self)@, data@),
    {
        let ghost old_mem = self@;
        let mut i: usize = 0;
        while i < PROGRAM_SIZE
            invariant
                0 <= i <= PROGRAM_SIZE,
                old_mem == old(self)@,
                self@.len() == MEMORY_SIZE,
                old_mem.len() == MEMORY_SIZE,
                forall|j: int|
                    0 <= j < MEMORY_SIZE ==> #[trigger] self@[j] == if PROGRAM_START <= j
                        < PROGRAM_START + i {
                        loaded(old_mem, data@)[j]
                    } else {
                        old_mem[j]
                    },
            decreases PROGRAM_SIZE - i,
        {
            let value: u8 = if i < data.len() { data[i] } else { 0 };
            self.memory[PROGRAM_START + i] = value;
            i = i + 1;
        }
        assert(self@ =~= loaded(old_mem, data@));
    }

    /// A memory holding `bytes`, if there are exactly [`MEMORY_SIZE`] of them.
    pub fn from_bytes(bytes: &Vec<u8>) -> (r: Option<Self>)
        ensures
            r is Some <==> bytes@.len() == MEMORY_SIZE,
            r matches Some(m) ==> m@ == bytes@,
    {
        if bytes.len() != MEMORY_SIZE {
            return None;
        }
        let mut memory = [0u8; MEMORY_SIZE];
        let mut i: usize = 0;
        while i < MEMORY_SIZE
            invariant
                0 <= i <= MEMORY_SIZE,
                bytes@.len() == MEMORY_SIZE,
                memory@.len() == MEMORY_SIZE,
                forall|j: int| 0 <= j < i ==> #[trigger] memory@[j] == bytes@[j],
            decreases MEMORY_SIZE - i,
        {
            memory[i] = bytes[i];
            i = i + 1;
        }
        let r = Memory { memory };
        assert(r@ =~= bytes@);
        Some(r)
    }

    /// All bytes, from address 0.
    pub fn to_bytes(&self) -> (r: Vec<u8>)
        ensures
            r@ == self@,
    {
        let mut r: Vec<u8> = Vec::new();
        let mut i: usize = 0;
        while i < MEMORY_SIZE
            invariant
                0 <= i <= MEMORY_SIZE,
                self@.len() == MEMORY_SIZE,
                r@ == self@.take(i as int),
            decreases MEMORY_SIZE - i,
        {
            r.push(self.memory[i]);
            assert(r@ =~= self@.take(i + 1));
            i = i + 1;
        }
        assert(r@ =~= self@);
        r
    }
}

} // verus!