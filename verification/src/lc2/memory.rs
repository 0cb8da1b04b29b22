//! The flat 64K-word memory of the simpler architecture.
use vstd::prelude::*;

verus! {

/// A memory of exactly 2^16 cells of 16 bits each, indexed by a 16-bit
/// address; every address is valid.  Viewed as the sequence of its cells.
pub struct Memory {
    cells: Vec<u16>,
}

impl View for Memory {
    type V = Seq<u16>;

    closed spec fn view(&self) -> Seq<u16> {
        self.cells@
    }
}

impl Memory {
    /// The address space holds exactly 2^16 cells.
    pub open spec fn wf(&self) -> bool {
        self@.len() == 0x10000
    }

    /// A zero-filled memory.
    pub fn new() -> (memory: Self)
        ensures
            memory.wf(),
            forall|address: int| 0 <= address < 0x10000 ==> memory@[address] == 0u16,
    {
        let mut cells: Vec<u16> = Vec::new();
        let mut filled: usize = 0;
        while filled < 0x10000
            invariant
                filled <= 0x10000,
                cells@.len() == filled,
                forall|address: int| 0 <= address < filled ==> cells@[address] == 0u16,
            decreases 0x10000 - filled,
        {
            cells.push(0);
            filled = filled + 1;
        }
        Memory { cells }
    }

    /// The word stored at an address.
    pub fn read(&self, address: u16) -> (data: u16)
        requires
            self.wf(),
        ensures
            data == self@[address as int],
    {
        self.cells[address as usize]
    }

    /// Stores a word at an address; no other cell changes.
    pub fn write(&mut self, address: u16, data: u16)
        requires
            old(self).wf(),
        ensures
            final(self).wf(),
            final(self)@ == old(self)@.update(address as int, data),
    {
        self.cells.set(address as usize, data);
    }
}

impl Default for Memory {
    /// Memory is allocated zero-filled.
    fn default() -> (memory: Self)
        ensures
            memory.wf(),
            forall|address: int| 0 <= address < 0x10000 ==> memory@[address] == 0u16,
    {
        Memory::new()
    }
}

} // verus!
