use vstd::prelude::*;

verus! {

/// Number of addressable bytes.
pub const MEMORY_SIZE: usize = 0x10000;

/// First address past the read-only program image.
pub const ROM_SIZE: usize = 0x2000;

/// A 64 KiB address space: `[0, ROM_SIZE)` holds the program image and ignores
/// writes, the rest is freely writable RAM.
#[derive(Clone, Debug)]
pub struct Memory {
    bytes: Vec<u8>,
}

/// The memory after storing `v` at `addr`: stores into the program image are dropped.
pub open spec fn mem_store(mem: Seq<u8>, addr: u16, v: u8) -> Seq<u8> {
    if addr as int >= ROM_SIZE as int {
        mem.update(addr as int, v)
    } else {
        mem
    }
}

/// The initial contents: `program` (cut or zero-padded to `ROM_SIZE` bytes),
/// then zeroed RAM.
pub open spec fn rom_image(program: Seq<u8>) -> Seq<u8> {
    Seq::new(
        MEMORY_SIZE as nat,
        |i: int|
            if i < ROM_SIZE && i < program.len() {
                program[i]
            } else {
                0u8
            },
    )
}

/// `mem` with its RAM zeroed.
pub open spec fn ram_cleared(mem: Seq<u8>) -> Seq<u8> {
    Seq::new(MEMORY_SIZE as nat, |i: int| if i < ROM_SIZE { mem[i] } else { 0u8 })
}

impl View for Memory {
    type V = Seq<u8>;

    closed spec fn view(&self) -> Seq<u8> {
        self.bytes@
    }
}

impl Memory {
    pub open spec fn wf(&self) -> bool {
        self@.len() == MEMORY_SIZE
    }

    /// Memory whose image holds `program` (cut or zero-padded to `ROM_SIZE` bytes),
    /// with RAM zeroed.
    pub fn new(program: &[u8]) -> (r: Memory)
        ensures
            r.wf(),
            r@ == rom_image(program@),
    {
        let mut bytes: Vec<u8> = Vec::new();
        let mut i: usize = 0;
        while i < MEMORY_SIZE
            invariant
                i <= MEMORY_SIZE,
                bytes@.len() == i,
                forall|j: int| 0 <= j < i && j < ROM_SIZE && j < program@.len() ==> bytes@[j] == program@[j],
                forall|j: int| 0 <= j < i && program@.len() <= j ==> bytes@[j] == 0,
                forall|j: int| ROM_SIZE <= j < i ==> bytes@[j] == 0,
            decreases MEMORY_SIZE - i,
        {
            if i < ROM_SIZE && i < program.len() {
                bytes.push(program[i]);
            } else {
                bytes.push(0);
            }
            i = i + 1;
        }
        let r = Memory { bytes };
        assert(r@ =~= rom_image(program@));
        r
    }

    /// The byte at `addr`.
    pub fn read(&self, addr: u16) -> (r: u8)
        requires
            self.wf(),
        ensures
            r == self@[addr as int],
    {
        self.bytes[addr as usize]
    }

    /// Stores `v` at `addr` when `addr` lies in RAM; does nothing otherwise.
    pub fn write(&mut self, addr: u16, v: u8)
        requires
            old(self).wf(),
        ensures
            final(self)@ == mem_store(old(self)@, addr, v),
            final(self).wf(),
    {
        if addr as usize >= ROM_SIZE {
            self.bytes.set(addr as usize, v);
        }
    }

    /// Zeroes every RAM byte and keeps the program image.
    pub fn reset_ram(&mut self)
        requires
            old(self).wf(),
        ensures
            final(self).wf(),
            final(self)@ == ram_cleared(old(self)@),
    {
        let mut i: usize = ROM_SIZE;
        while i < MEMORY_SIZE
            invariant
                ROM_SIZE <= i <= MEMORY_SIZE,
                self.wf(),
                forall|j: int| 0 <= j < ROM_SIZE ==> self@[j] == old(self)@[j],
                forall|j: int| ROM_SIZE <= j < i ==> self@[j] == 0,
            decreases MEMORY_SIZE - i,
        {
            self.bytes.set(i, 0);
            i = i + 1;
        }
        assert(self@ =~= ram_cleared(old(self)@));
    }
}

} // verus!
