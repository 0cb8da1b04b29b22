//! The register names of the richer architecture.
use vstd::prelude::*;

pub use crate::common::Gpr;

use crate::WatcherType;

verus! {

/// A register of the richer architecture: one of the eight general-purpose
/// registers or one of the five special registers.  The saved stack pointers
/// used by interrupt entry are internal state, not addressable registers.
#[derive(Clone, Copy, Debug, PartialEq, Eq, Structural)]
pub enum Register {
    Gpr(Gpr),
    ProgramCounter,
    InstructionRegister,
    ProcessorStatusRegister,
    MemoryAddressRegister,
    MemoryDataRegister,
}

impl Register {
    /// The rank of this register: the eight general-purpose registers come
    /// first, the special registers after them.
    pub open spec fn as_index(self) -> int {
        match self {
            Register::Gpr(gpr) => gpr.as_index(),
            Register::ProgramCounter => 8,
            Register::InstructionRegister => 9,
            Register::ProcessorStatusRegister => 10,
            Register::MemoryAddressRegister => 11,
            Register::MemoryDataRegister => 12,
        }
    }

    /// Executable twin of [`Self::as_index`].
    pub fn index(&self) -> (index: usize)
        ensures
            index == self.as_index(),
    {
        match self {
            Register::Gpr(gpr) => gpr.index(),
            Register::ProgramCounter => 8,
            Register::InstructionRegister => 9,
            Register::ProcessorStatusRegister => 10,
            Register::MemoryAddressRegister => 11,
            Register::MemoryDataRegister => 12,
        }
    }

    /// The watcher slot of this register for one access direction: two
    /// slots per register, writes before reads.
    pub open spec fn watcher_slot(self, watcher_type: WatcherType) -> int {
        self.as_index() * 2 + watcher_type.as_index()
    }
}

/// Every register's watcher slots lie inside a 26-slot table.
pub proof fn lemma_register_slot_bounds(register: Register, watcher_type: WatcherType)
    ensures
        0 <= register.watcher_slot(watcher_type) < 26,
{
}

/// Two distinct (register, direction) pairs never share a watcher slot.
pub proof fn lemma_register_slot_injective(
    a: Register,
    a_type: WatcherType,
    b: Register,
    b_type: WatcherType,
)
    requires
        a.watcher_slot(a_type) == b.watcher_slot(b_type),
    ensures
        a == b && a_type == b_type,
{
}

} // verus!
