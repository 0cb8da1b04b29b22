//! The register names of the simpler architecture.
use vstd::prelude::*;

pub use crate::common::Gpr;

verus! {

/// A register of the simpler architecture: one of the eight general-purpose
/// registers or one of the four special registers.
#[derive(Clone, Copy, Debug, PartialEq, Eq, Structural)]
pub enum Register {
    Gpr(Gpr),
    ProgramCounter,
    InstructionRegister,
    MemoryAddressRegister,
    MemoryDataRegister,
}

impl Register {
    /// The slot of this register in the watcher table: the eight
    /// general-purpose registers take slots 0 to 7, the special registers
    /// the slots after them.
    pub open spec fn as_index(self) -> int {
        match self {
            Register::Gpr(gpr) => gpr.as_index(),
            Register::ProgramCounter => 8,
            Register::InstructionRegister => 9,
            Register::MemoryAddressRegister => 10,
            Register::MemoryDataRegister => 11,
        }
    }

    /// Executable twin of [`Self::as_index`].
    pub fn index(&self) -> (index: usize)
        ensures
            index == self.as_index(),
    {
        match self {
            Register::Gpr(gpr) => gpr.index(),
            Register::ProgramCounter => 8,
            Register::InstructionRegister => 9,
            Register::MemoryAddressRegister => 10,
            Register::MemoryDataRegister => 11,
        }
    }
}

/// Every register's watcher slot lies inside a 12-slot table.
pub proof fn lemma_register_index_bounds(register: Register)
    ensures
        0 <= register.as_index() < 12,
{
}

/// Two distinct registers never share a watcher slot.
pub proof fn lemma_register_index_injective(a: Register, b: Register)
    requires
        a.as_index() == b.as_index(),
    ensures
        a == b,
{
}

} // verus!
