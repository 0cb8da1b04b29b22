//! Instruction-set simulators for two related 16-bit teaching architectures:
//! a flat 64K-word memory, a small register file, a three-valued condition
//! code, and a fetch-decode-execute cycle over a fixed 16-bit encoding.
//!
//! Every access to memory, to a register, or to the condition code can fire a
//! caller-installed watcher, which is how terminal devices are wired to the
//! cores from the outside.
use vstd::prelude::*;

pub mod common;
pub mod lc2;
pub mod lc3;

verus! {

use crate::common::ConditionCode;

/// The direction of an access that a watcher reacts to.
#[derive(Clone, Copy, Debug, PartialEq, Eq, Structural)]
pub enum WatcherType {
    OnRead,
    OnWrite,
}

impl WatcherType {
    /// The slot offset that this direction selects inside a watcher table.
    pub open spec fn as_index(self) -> int {
        match self {
            WatcherType::OnWrite => 0,
            WatcherType::OnRead => 1,
        }
    }

    /// Executable twin of [`Self::as_index`].
    pub fn index(&self) -> (i: usize)
        ensures
            i == self.as_index(),
    {
        match self {
            WatcherType::OnWrite => 0,
            WatcherType::OnRead => 1,
        }
    }
}

/// A callback installed by the driver of a simulated machine.
///
/// A watcher is invoked synchronously, in-line with the access that triggers
/// it, and receives the value transferred by that access.  Watchers for
/// memory cells and registers receive the raw 16-bit word; watchers for the
/// condition code receive the decoded code.  Nothing is assumed about what an
/// implementation does.
pub trait Watcher {
    /// Called with the value just written to (or read from) a watched memory
    /// cell or register.
    fn on_data(&self, data: u16);

    /// Called with the condition code just written (or read).
    fn on_condition_code(&self, condition_code: ConditionCode);
}

/// A watcher that ignores every notification; the default watcher type for
/// machines on which no watcher is ever installed.
pub struct NopWatcher;

impl Watcher for NopWatcher {
    fn on_data(&self, _data: u16) {
    }

    fn on_condition_code(&self, _condition_code: ConditionCode) {
    }
}

/// The abstract capability set every machine of this crate offers: memory
/// and register access, bulk image loading, the condition code, one
/// instruction step, and interrupt entry.
///
/// The contracts here say only that every operation keeps the machine well
/// formed, and which register writes a machine accepts; what each operation
/// does to the state is pinned down by the far stronger contracts on the
/// machines themselves.  Watcher installation is not part of the abstract
/// contract: the two machines genuinely differ in which access directions
/// they let a driver watch.
pub trait Architecture {
    type Address;

    type Data;

    type Register;

    type RegisterData;

    type ConditionCode;

    /// The machine's representation invariant, established by its
    /// constructor and kept by every operation.
    spec fn arch_wf(&self) -> bool;

    /// Whether the machine accepts this value for this register; a machine
    /// that validates some register writes refuses the rest as caller
    /// errors.
    spec fn register_write_allowed(
        &self,
        register: &Self::Register,
        data: Self::RegisterData,
    ) -> bool;

    /// Reads a memory cell, latching the transfer in the bus registers.
    fn get_memory(&mut self, address: Self::Address) -> (data: Self::Data)
        requires
            old(self).arch_wf(),
        ensures
            final(self).arch_wf(),
    ;

    /// Writes a memory cell through the bus.
    fn set_memory(&mut self, address: Self::Address, data: Self::Data)
        requires
            old(self).arch_wf(),
        ensures
            final(self).arch_wf(),
    ;

    /// Loads a byte image into consecutive cells; an error if it would run
    /// past the top of memory.
    fn load_bytes(&mut self, start_address: Self::Address, bytes: &[u8]) -> (result: Result<
        (),
        &'static str,
    >)
        requires
            old(self).arch_wf(),
        ensures
            final(self).arch_wf(),
    ;

    /// The value a register holds.
    fn get_register(&self, register: &Self::Register) -> Self::RegisterData
        requires
            self.arch_wf(),
    ;

    /// Writes a register the machine accepts the value for.
    fn set_register(&mut self, register: &Self::Register, data: Self::RegisterData)
        requires
            old(self).arch_wf(),
            old(self).register_write_allowed(register, data),
        ensures
            final(self).arch_wf(),
    ;

    /// The current condition code.
    fn get_condition_code(&self) -> Self::ConditionCode
        requires
            self.arch_wf(),
    ;

    /// Sets the condition code.
    fn set_condition_code(&mut self, condition_code: &Self::ConditionCode)
        requires
            old(self).arch_wf(),
        ensures
            final(self).arch_wf(),
    ;

    /// Executes exactly one instruction.
    fn step_instruction(&mut self)
        requires
            old(self).arch_wf(),
        ensures
            final(self).arch_wf(),
    ;

    /// Injects one interrupt.
    fn interrupt(&mut self, routine_address: Self::Address)
        requires
            old(self).arch_wf(),
        ensures
            final(self).arch_wf(),
    ;
}

} // verus!

