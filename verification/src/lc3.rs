//! The richer of the two 16-bit machines.
//!
//! Beyond the simpler machine it carries a processor status register —
//! condition code one-hot in the low 3 bits, running priority in bits 8 to
//! 10, privilege mode in bit 15 — two saved stack pointers for interrupt
//! entry, and watchers in both directions: memory, registers and the
//! condition code can each be watched on reads as well as on writes.
//!
//! Every public operation is specified against the pure transition
//! functions in [`semantics`]: the view of a machine is its [`Lc3State`],
//! and each operation ends in exactly the state the corresponding spec
//! function names.  A ghost log records watcher notifications for writes
//! and for memory reads, so those contracts also pin down which watchers
//! fire.
use vstd::prelude::*;

pub mod registers;
pub mod semantics;

pub use crate::common::ConditionCode;
pub use registers::{Gpr, Register};
pub use semantics::Lc3State;

use crate::common::image::{cell_count, loaded_memory, packed_word};
use crate::common::instruction::{gpr_at, page_address_of, sign_extend_imm5};
use crate::common::watcher_storage::{WatcherEvent, WatcherSlots};
use crate::common::Memory16x16;
use crate::lc3::registers::{lemma_register_slot_bounds, lemma_register_slot_injective};
use crate::lc3::semantics::{
    lemma_interrupt_status_pattern, lemma_status_condition_update, valid_condition_pattern,
};
use crate::{NopWatcher, Watcher, WatcherType};

verus! {

/// The richer machine: 2^16 memory cells, eight general-purpose registers,
/// a program counter, an instruction register, the two bus registers, the
/// processor status register, and the saved user and supervisor stack
/// pointers.
///
/// `W` is the type of the watchers a driver installs; a machine that never
/// installs any can leave it at the default.
pub struct Lc3<W = NopWatcher> {
    general_purpose_register: Vec<u16>,
    program_counter: u16,
    instruction_register: u16,
    processor_status_register: u16,
    saved_usp: u16,
    saved_ssp: u16,
    memory_address_register: u16,
    memory_data_register: u16,
    memory: Memory16x16,
    register_watchers: WatcherSlots<W>,
    memory_watchers: WatcherSlots<W>,
    condition_code_watchers: WatcherSlots<W>,
    watcher_log: Ghost<Seq<WatcherEvent<Register>>>,
}

impl<W> View for Lc3<W> {
    type V = Lc3State;

    closed spec fn view(&self) -> Lc3State {
        Lc3State {
            memory: self.memory@,
            general_purpose_register: self.general_purpose_register@,
            program_counter: self.program_counter,
            instruction_register: self.instruction_register,
            processor_status_register: self.processor_status_register,
            saved_usp: self.saved_usp,
            saved_ssp: self.saved_ssp,
            memory_address_register: self.memory_address_register,
            memory_data_register: self.memory_data_register,
        }
    }
}

impl<W> Lc3<W> {
    /// The machine's representation is the right shape: full memory, eight
    /// general-purpose registers, a one-hot condition-code pattern in the
    /// status register, and one watcher slot per watchable location and
    /// direction.
    pub closed spec fn wf(&self) -> bool {
        &&& self.memory.wf()
        &&& self.general_purpose_register@.len() == 8
        &&& valid_condition_pattern(self.processor_status_register)
        &&& self.memory_watchers@.len() == 0x20000
        &&& self.register_watchers@.len() == 26
        &&& self.condition_code_watchers@.len() == 2
    }

    /// The watcher slots for memory: one per address and direction, all the
    /// write slots before all the read slots.
    pub closed spec fn memory_watcher_table(&self) -> Seq<Option<W>> {
        self.memory_watchers@
    }

    /// The watcher slots for registers, two per register.
    pub closed spec fn register_watcher_table(&self) -> Seq<Option<W>> {
        self.register_watchers@
    }

    /// The watcher slots for the condition code, one per direction.
    pub closed spec fn condition_code_watcher_table(&self) -> Seq<Option<W>> {
        self.condition_code_watchers@
    }

    /// The watcher installed on a memory address for a direction, if any.
    pub open spec fn memory_watcher(&self, address: u16, watcher_type: WatcherType) -> Option<W> {
        self.memory_watcher_table()[watcher_type.as_index() * 0x10000 + address as int]
    }

    /// The watcher installed on a register for a direction, if any.
    pub open spec fn register_watcher(&self, register: Register, watcher_type: WatcherType) -> Option<
        W,
    > {
        self.register_watcher_table()[register.watcher_slot(watcher_type)]
    }

    /// The condition-code watcher for a direction, if any.
    pub open spec fn condition_code_watcher(&self, watcher_type: WatcherType) -> Option<W> {
        self.condition_code_watcher_table()[watcher_type.as_index()]
    }

    /// Every watcher notification recorded so far, oldest first: writes of
    /// all kinds and memory reads.
    pub closed spec fn events(&self) -> Seq<WatcherEvent<Register>> {
        self.watcher_log@
    }

    /// Both machines hold exactly the same watchers.
    pub open spec fn same_watchers(&self, other: &Self) -> bool {
        &&& self.memory_watcher_table() == other.memory_watcher_table()
        &&& self.register_watcher_table() == other.register_watcher_table()
        &&& self.condition_code_watcher_table() == other.condition_code_watcher_table()
    }

    /// The notifications a memory write fires: one event if the address is
    /// write-watched, none otherwise.
    pub open spec fn memory_write_events(&self, address: u16, data: u16) -> Seq<
        WatcherEvent<Register>,
    > {
        if self.memory_watcher(address, WatcherType::OnWrite) is Some {
            seq![WatcherEvent::MemoryWrite { address, data }]
        } else {
            Seq::empty()
        }
    }

    /// The notifications a memory read fires: one event if the address is
    /// read-watched, none otherwise.
    pub open spec fn memory_read_events(&self, address: u16, data: u16) -> Seq<
        WatcherEvent<Register>,
    > {
        if self.memory_watcher(address, WatcherType::OnRead) is Some {
            seq![WatcherEvent::MemoryRead { address, data }]
        } else {
            Seq::empty()
        }
    }

    /// The notifications a condition-code write fires.
    pub open spec fn condition_code_write_events(&self, code: ConditionCode) -> Seq<
        WatcherEvent<Register>,
    > {
        if self.condition_code_watcher(WatcherType::OnWrite) is Some {
            seq![WatcherEvent::ConditionCodeWrite { code }]
        } else {
            Seq::empty()
        }
    }

    /// The notifications a register write fires: writing a general-purpose
    /// register first fires the condition-code write watcher, then the
    /// register's own write watcher.
    pub open spec fn register_write_events(&self, register: Register, data: u16) -> Seq<
        WatcherEvent<Register>,
    > {
        (match register {
            Register::Gpr(_) => self.condition_code_write_events(
                crate::common::condition_code::condition_code_of(data),
            ),
            _ => Seq::empty(),
        }) + (if self.register_watcher(register, WatcherType::OnWrite) is Some {
            seq![WatcherEvent::RegisterWrite { register, data }]
        } else {
            Seq::empty()
        })
    }

    /// The notifications the cell writes of a byte-image load fire: for
    /// each of the first `cells` cells, in increasing address order, the
    /// write watcher of that cell's address with its packed word.
    pub open spec fn load_events(&self, start_address: u16, bytes: Seq<u8>, cells: int) -> Seq<
        WatcherEvent<Register>,
    >
        decreases cells,
    {
        if cells <= 0 {
            Seq::empty()
        } else {
            self.load_events(start_address, bytes, cells - 1) + self.memory_write_events(
                (start_address + cells - 1) as u16,
                packed_word(bytes, cells - 1),
            )
        }
    }

    /// A well-formed machine's state is well formed in the sense of
    /// [`Lc3State::wf`]: a client reasoning about cell or register contents
    /// after an operation gets the lengths and the one-hot status pattern
    /// that needs.
    pub proof fn lemma_wf_state(&self)
        requires
            self.wf(),
        ensures
            self@.wf(),
    {
    }
}

impl<W: Watcher> Lc3<W> {
    /// A fresh machine: memory and registers zeroed, the program counter at
    /// the given address, the status register in user mode at priority zero
    /// with the condition code `Zero`, the saved stack pointers at their
    /// conventional homes, and no watcher installed anywhere.
    pub fn new(initial_address: u16) -> (machine: Self)
        ensures
            machine.wf(),
            machine@ == Lc3State::initial(initial_address),
            machine.events() == Seq::<WatcherEvent<Register>>::empty(),
            forall|address: u16, watcher_type: WatcherType|
                machine.memory_watcher(address, watcher_type) is None,
            forall|register: Register, watcher_type: WatcherType|
                machine.register_watcher(register, watcher_type) is None,
            forall|watcher_type: WatcherType| machine.condition_code_watcher(watcher_type) is None,
    {
        let mut general_purpose_register: Vec<u16> = Vec::new();
        let mut filled: usize = 0;
        while filled < 8
            invariant
                filled <= 8,
                general_purpose_register@.len() == filled,
                forall|index: int| 0 <= index < filled ==> general_purpose_register@[index] == 0u16,
            decreases 8 - filled,
        {
            general_purpose_register.push(0);
            filled = filled + 1;
        }
        let machine = Lc3 {
            general_purpose_register,
            program_counter: initial_address,
            instruction_register: 0,
            processor_status_register: 0x8002,
            saved_usp: 0xfe00,
            saved_ssp: 0x3000,
            memory_address_register: 0,
            memory_data_register: 0,
            memory: Memory16x16::new(),
            register_watchers: WatcherSlots::new(26),
            memory_watchers: WatcherSlots::new(0x20000),
            condition_code_watchers: WatcherSlots::new(2),
            watcher_log: Ghost(Seq::empty()),
        };
        proof {
            assert(0x8002u16 & 0b111 == 0b010) by (bit_vector);
            assert(machine@.memory =~= Lc3State::initial(initial_address).memory);
            assert(machine@.general_purpose_register =~= Lc3State::initial(
                initial_address,
            ).general_purpose_register);
            assert(machine@ =~= Lc3State::initial(initial_address));
            assert forall|register: Register, watcher_type: WatcherType|
                machine.register_watcher(register, watcher_type) is None by {
                lemma_register_slot_bounds(register, watcher_type);
            }
        }
        machine
    }

    /// Reads a memory cell.  The bus registers latch the transfer, and the
    /// read watcher installed on that address, if any, fires with the word
    /// read.
    pub fn get_memory(&mut self, address: u16) -> (data: u16)
        requires
            old(self).wf(),
        ensures
            final(self).wf(),
            data == old(self)@.memory_at(address),
            final(self)@ == old(self)@.bus_read(address),
            final(self).same_watchers(old(self)),
            final(self).events() == old(self).events() + old(self).memory_read_events(
                address,
                data,
            ),
    {
        let data = self.memory.read(address);
        self.memory_address_register = address;
        self.memory_data_register = data;
        let slot = WatcherType::OnRead.index();
        let fired = self.memory_watchers.notify_data(slot * 0x10000 + address as usize, data);
        if fired {
            self.watcher_log = Ghost(
                self.watcher_log@.push(WatcherEvent::MemoryRead { address, data }),
            );
        }
        proof {
            assert(self.events() =~= old(self).events() + old(self).memory_read_events(
                address,
                data,
            ));
        }
        data
    }

    /// Writes a memory cell through the bus, and fires the write watcher
    /// installed on that address, if any, with the word written.
    pub fn set_memory(&mut self, address: u16, data: u16)
        requires
            old(self).wf(),
        ensures
            final(self).wf(),
            final(self)@ == old(self)@.bus_write(address, data),
            final(self).same_watchers(old(self)),
            final(self).events() == old(self).events() + old(self).memory_write_events(
                address,
                data,
            ),
    {
        self.memory_address_register = address;
        self.memory_data_register = data;
        self.memory.write(address, data);
        let slot = WatcherType::OnWrite.index();
        let fired = self.memory_watchers.notify_data(slot * 0x10000 + address as usize, data);
        if fired {
            self.watcher_log = Ghost(
                self.watcher_log@.push(WatcherEvent::MemoryWrite { address, data }),
            );
        }
        proof {
            assert(self@ =~= old(self)@.bus_write(address, data));
            assert(self.events() =~= old(self).events() + old(self).memory_write_events(
                address,
                data,
            ));
        }
    }

    /// Loads a byte image into memory, packing bytes pairwise big-endian
    /// into consecutive cells from `start_address` on; an odd trailing byte
    /// fills the high half of one last cell.  Every cell goes through the
    /// normal write path, so memory watchers fire; the bus registers are
    /// restored afterwards through the normal register write path.  Fails,
    /// changing nothing, if the image would run past the top of memory.
    pub fn load_bytes(&mut self, start_address: u16, bytes: &[u8]) -> (result: Result<
        (),
        &'static str,
    >)
        requires
            old(self).wf(),
        ensures
            final(self).wf(),
            final(self).same_watchers(old(self)),
            start_address + cell_count(bytes@.len()) > 0xffff ==> result == Err::<
                (),
                &'static str,
            >("The array of byte is too big") && *final(self) == *old(self),
            start_address + cell_count(bytes@.len()) <= 0xffff ==> result is Ok && final(self)@
                == (Lc3State {
                memory: loaded_memory(old(self)@.memory, start_address, bytes@),
                ..old(self)@
            }) && final(self).events() == old(self).events() + old(self).load_events(
                start_address,
                bytes@,
                cell_count(bytes@.len()) as int,
            ) + old(self).register_write_events(
                Register::MemoryAddressRegister,
                old(self)@.memory_address_register,
            ) + old(self).register_write_events(
                Register::MemoryDataRegister,
                old(self)@.memory_data_register,
            ),
    {
        let ghost pre = *self;
        let length = bytes.len();
        let cells = length / 2 + if length % 2 != 0 {
            1usize
        } else {
            0usize
        };
        if start_address as usize + cells > 0xffff {
            return Err("The array of byte is too big");
        }
        let memory_address_register = self.get_register(&Register::MemoryAddressRegister);
        let memory_data_register = self.get_register(&Register::MemoryDataRegister);
        proof {
            assert(self.events() =~= pre.events() + pre.load_events(start_address, bytes@, 0));
        }
        let mut cell: usize = 0;
        while cell < cells
            invariant
                self.wf(),
                pre.wf(),
                cell <= cells,
                self.events() == pre.events() + pre.load_events(
                    start_address,
                    bytes@,
                    cell as int,
                ),
                length == bytes@.len(),
                cells == cell_count(bytes@.len()),
                start_address + cells <= 0xffff,
                self.same_watchers(&pre),
                self@.general_purpose_register == pre@.general_purpose_register,
                self@.processor_status_register == pre@.processor_status_register,
                self@.program_counter == pre@.program_counter,
                self@.instruction_register == pre@.instruction_register,
                self@.saved_usp == pre@.saved_usp,
                self@.saved_ssp == pre@.saved_ssp,
                forall|address: int|
                    0 <= address < 0x10000 && !(start_address <= address < start_address
                        + cell) ==> self@.memory[address] == pre@.memory[address],
                forall|offset: int|
                    0 <= offset < cell ==> self@.memory[start_address + offset] == packed_word(
                        bytes@,
                        offset,
                    ),
            decreases cells - cell,
        {
            let high = bytes[2 * cell];
            let mut data: u16 = (high as u16) << 8;
            if 2 * cell + 1 < length {
                data = data | (bytes[2 * cell + 1] as u16);
            }
            proof {
                assert(data == packed_word(bytes@, cell as int));
            }
            let address = start_address + (cell as u16);
            self.set_memory(address, data);
            proof {
                assert(self.events() =~= pre.events() + pre.load_events(
                    start_address,
                    bytes@,
                    cell + 1,
                ));
            }
            cell = cell + 1;
        }
        self.set_register(&Register::MemoryAddressRegister, memory_address_register);
        self.set_register(&Register::MemoryDataRegister, memory_data_register);
        proof {
            assert(self@.memory =~= loaded_memory(pre@.memory, start_address, bytes@));
            assert(self@ =~= (Lc3State {
                memory: loaded_memory(old(self)@.memory, start_address, bytes@),
                ..old(self)@
            }));
            assert(self.events() =~= old(self).events() + old(self).load_events(
                start_address,
                bytes@,
                cell_count(bytes@.len()) as int,
            ) + old(self).register_write_events(
                Register::MemoryAddressRegister,
                memory_address_register,
            ) + old(self).register_write_events(
                Register::MemoryDataRegister,
                memory_data_register,
            ));
        }
        Ok(())
    }

    /// The value a register holds.  Reading fires the register's read
    /// watcher, if one is installed, with the value read.
    pub fn get_register(&self, register: &Register) -> (data: u16)
        requires
            self.wf(),
        ensures
            data == self@.register(*register),
    {
        let data = match register {
            Register::Gpr(gpr) => self.general_purpose_register[gpr.index()],
            Register::ProgramCounter => self.program_counter,
            Register::InstructionRegister => self.instruction_register,
            Register::ProcessorStatusRegister => self.processor_status_register,
            Register::MemoryAddressRegister => self.memory_address_register,
            Register::MemoryDataRegister => self.memory_data_register,
        };
        proof {
            lemma_register_slot_bounds(*register, WatcherType::OnRead);
        }
        let slot = register.index() * 2 + WatcherType::OnRead.index();
        let _ = self.register_watchers.notify_data(slot, data);
        data
    }

    /// Writes a register.  A general-purpose register write first plants
    /// the condition code derived from the value (firing the condition-code
    /// write watcher), then the register takes the value and its own write
    /// watcher fires; other registers take the value verbatim.  A direct
    /// status-register write must carry a one-hot condition-code pattern in
    /// its low 3 bits: any other pattern is a caller error that this
    /// machine refuses.
    pub fn set_register(&mut self, register: &Register, data: u16)
        requires
            old(self).wf(),
            *register == Register::ProcessorStatusRegister ==> valid_condition_pattern(data),
        ensures
            final(self).wf(),
            final(self)@ == old(self)@.write_register(*register, data),
            final(self).same_watchers(old(self)),
            final(self).events() == old(self).events() + old(self).register_write_events(
                *register,
                data,
            ),
    {
        match register {
            Register::Gpr(gpr) => {
                let code = ConditionCode::derive(data);
                self.set_condition_code(&code);
                let index = gpr.index();
                self.general_purpose_register.set(index, data);
            },
            Register::ProgramCounter => {
                self.program_counter = data;
            },
            Register::InstructionRegister => {
                self.instruction_register = data;
            },
            Register::ProcessorStatusRegister => {
                self.processor_status_register = data;
            },
            Register::MemoryAddressRegister => {
                self.memory_address_register = data;
            },
            Register::MemoryDataRegister => {
                self.memory_data_register = data;
            },
        }
        proof {
            assert(self@ =~= old(self)@.write_register(*register, data));
            lemma_register_slot_bounds(*register, WatcherType::OnWrite);
        }
        let slot = register.index() * 2 + WatcherType::OnWrite.index();
        let fired = self.register_watchers.notify_data(slot, data);
        if fired {
            self.watcher_log = Ghost(
                self.watcher_log@.push(WatcherEvent::RegisterWrite { register: *register, data }),
            );
        }
        proof {
            assert(self.events() =~= old(self).events() + old(self).register_write_events(
                *register,
                data,
            ));
        }
    }

    /// The condition code held in the status register.  Reading fires the
    /// condition-code read watcher, if one is installed.
    pub fn get_condition_code(&self) -> (condition_code: ConditionCode)
        requires
            self.wf(),
        ensures
            condition_code == self@.condition_code(),
    {
        let bits = self.processor_status_register & 0b111;
        let code = if bits == 0b100 {
            ConditionCode::Negative
        } else if bits == 0b010 {
            ConditionCode::Zero
        } else {
            ConditionCode::Positive
        };
        let slot = WatcherType::OnRead.index();
        let _ = self.condition_code_watchers.notify_condition_code(slot, code);
        code
    }

    /// Plants a condition code in the low 3 bits of the status register and
    /// fires the condition-code write watcher, if one is installed, with
    /// the new code.
    pub fn set_condition_code(&mut self, condition_code: &ConditionCode)
        requires
            old(self).wf(),
        ensures
            final(self).wf(),
            final(self)@ == old(self)@.write_condition_code(*condition_code),
            final(self).same_watchers(old(self)),
            final(self).events() == old(self).events() + old(self).condition_code_write_events(
                *condition_code,
            ),
    {
        let pattern = match condition_code {
            ConditionCode::Negative => 0b100u16,
            ConditionCode::Zero => 0b010u16,
            ConditionCode::Positive => 0b001u16,
        };
        proof {
            lemma_status_condition_update(self.processor_status_register, pattern);
        }
        self.processor_status_register = (self.processor_status_register & 0xfff8) | pattern;
        let slot = WatcherType::OnWrite.index();
        let fired = self.condition_code_watchers.notify_condition_code(slot, *condition_code);
        if fired {
            self.watcher_log = Ghost(
                self.watcher_log@.push(WatcherEvent::ConditionCodeWrite { code: *condition_code }),
            );
        }
        proof {
            assert(self.events() =~= old(self).events() + old(self).condition_code_write_events(
                *condition_code,
            ));
        }
    }

    /// Installs a watcher on a memory address for one access direction,
    /// replacing any watcher already there.  The machine state does not
    /// change.
    pub fn add_memory_watcher(&mut self, address: u16, watcher_type: WatcherType, function: W)
        requires
            old(self).wf(),
        ensures
            final(self).wf(),
            final(self)@ == old(self)@,
            final(self).events() == old(self).events(),
            final(self).memory_watcher(address, watcher_type) == Some(function),
            forall|other: u16, other_type: WatcherType|
                other != address || other_type != watcher_type ==> final(self).memory_watcher(
                    other,
                    other_type,
                ) == old(self).memory_watcher(other, other_type),
            final(self).register_watcher_table() == old(self).register_watcher_table(),
            final(self).condition_code_watcher_table() == old(self).condition_code_watcher_table(),
    {
        let slot = watcher_type.index() * 0x10000 + address as usize;
        self.memory_watchers.install(slot, function);
    }

    /// Removes the watcher on a memory address for one access direction; a
    /// no-op if none is installed.  It will not fire again unless
    /// reinstalled.
    pub fn remove_memory_watcher(&mut self, address: u16, watcher_type: WatcherType)
        requires
            old(self).wf(),
        ensures
            final(self).wf(),
            final(self)@ == old(self)@,
            final(self).events() == old(self).events(),
            final(self).memory_watcher(address, watcher_type) is None,
            forall|other: u16, other_type: WatcherType|
                other != address || other_type != watcher_type ==> final(self).memory_watcher(
                    other,
                    other_type,
                ) == old(self).memory_watcher(other, other_type),
            final(self).register_watcher_table() == old(self).register_watcher_table(),
            final(self).condition_code_watcher_table() == old(self).condition_code_watcher_table(),
    {
        let slot = watcher_type.index() * 0x10000 + address as usize;
        self.memory_watchers.clear(slot);
    }

    /// Installs a watcher on a register for one access direction, replacing
    /// any watcher already there.
    pub fn add_register_watcher(&mut self, register: &Register, watcher_type: WatcherType, function: W)
        requires
            old(self).wf(),
        ensures
            final(self).wf(),
            final(self)@ == old(self)@,
            final(self).events() == old(self).events(),
            final(self).register_watcher(*register, watcher_type) == Some(function),
            forall|other: Register, other_type: WatcherType|
                other != *register || other_type != watcher_type ==> final(self).register_watcher(
                    other,
                    other_type,
                ) == old(self).register_watcher(other, other_type),
            final(self).memory_watcher_table() == old(self).memory_watcher_table(),
            final(self).condition_code_watcher_table() == old(self).condition_code_watcher_table(),
    {
        proof {
            lemma_register_slot_bounds(*register, watcher_type);
        }
        let slot = register.index() * 2 + watcher_type.index();
        self.register_watchers.install(slot, function);
        proof {
            assert forall|other: Register, other_type: WatcherType|
                other != *register || other_type != watcher_type implies final(self)
                .register_watcher(other, other_type) == old(self).register_watcher(
                other,
                other_type,
            ) by {
                if other.watcher_slot(other_type) == register.watcher_slot(watcher_type) {
                    lemma_register_slot_injective(other, other_type, *register, watcher_type);
                }
            }
        }
    }

    /// Removes the watcher on a register for one access direction; a no-op
    /// if none is installed.
    pub fn remove_register_watcher(&mut self, register: &Register, watcher_type: WatcherType)
        requires
            old(self).wf(),
        ensures
            final(self).wf(),
            final(self)@ == old(self)@,
            final(self).events() == old(self).events(),
            final(self).register_watcher(*register, watcher_type) is None,
            forall|other: Register, other_type: WatcherType|
                other != *register || other_type != watcher_type ==> final(self).register_watcher(
                    other,
                    other_type,
                ) == old(self).register_watcher(other, other_type),
            final(self).memory_watcher_table() == old(self).memory_watcher_table(),
            final(self).condition_code_watcher_table() == old(self).condition_code_watcher_table(),
    {
        proof {
            lemma_register_slot_bounds(*register, watcher_type);
        }
        let slot = register.index() * 2 + watcher_type.index();
        self.register_watchers.clear(slot);
        proof {
            assert forall|other: Register, other_type: WatcherType|
                other != *register || other_type != watcher_type implies final(self)
                .register_watcher(other, other_type) == old(self).register_watcher(
                other,
                other_type,
            ) by {
                if other.watcher_slot(other_type) == register.watcher_slot(watcher_type) {
                    lemma_register_slot_injective(other, other_type, *register, watcher_type);
                }
            }
        }
    }

    /// Installs a condition-code watcher for one access direction,
    /// replacing any watcher already there.
    pub fn add_condition_code_watcher(&mut self, watcher_type: WatcherType, function: W)
        requires
            old(self).wf(),
        ensures
            final(self).wf(),
            final(self)@ == old(self)@,
            final(self).events() == old(self).events(),
            final(self).condition_code_watcher(watcher_type) == Some(function),
            forall|other: WatcherType|
                other != watcher_type ==> final(self).condition_code_watcher(other) == old(
                    self,
                ).condition_code_watcher(other),
            final(self).memory_watcher_table() == old(self).memory_watcher_table(),
            final(self).register_watcher_table() == old(self).register_watcher_table(),
    {
        let slot = watcher_type.index();
        self.condition_code_watchers.install(slot, function);
    }

    /// Removes the condition-code watcher for one access direction; a no-op
    /// if none is installed.
    pub fn remove_condition_code_watcher(&mut self, watcher_type: WatcherType)
        requires
            old(self).wf(),
        ensures
            final(self).wf(),
            final(self)@ == old(self)@,
            final(self).events() == old(self).events(),
            final(self).condition_code_watcher(watcher_type) is None,
            forall|other: WatcherType|
                other != watcher_type ==> final(self).condition_code_watcher(other) == old(
                    self,
                ).condition_code_watcher(other),
            final(self).memory_watcher_table() == old(self).memory_watcher_table(),
            final(self).register_watcher_table() == old(self).register_watcher_table(),
    {
        let slot = watcher_type.index();
        self.condition_code_watchers.clear(slot);
    }

    /// Executes exactly one instruction: fetches the word at the program
    /// counter, latches it into the instruction register, advances the
    /// program counter, and executes per the instruction table — all as
    /// [`Lc3State::step`] describes.
    #[verifier::rlimit(50)]
    pub fn step_instruction(&mut self)
        requires
            old(self).wf(),
        ensures
            final(self).wf(),
            final(self)@ == old(self)@.step(),
            final(self).same_watchers(old(self)),
    {
        let program_counter = self.get_register(&Register::ProgramCounter);
        let instruction = self.get_memory(program_counter);
        self.set_register(&Register::InstructionRegister, instruction);
        let incremented = self.get_register(&Register::ProgramCounter).wrapping_add(1);
        self.set_register(&Register::ProgramCounter, incremented);
        let ghost ready = self@;
        proof {
            assert(ready =~= old(self)@.bus_read(old(self)@.program_counter).write_register(
                Register::InstructionRegister,
                instruction,
            ).write_register(Register::ProgramCounter, incremented));
            assert(old(self)@.step() == ready.execute(instruction));
        }
        let opcode = instruction >> 12;
        match opcode {
            // ADD and AND, with a register or an immediate second operand.
            0b0001 | 0b0101 => {
                let destination = reg_from_instr(instruction, 9);
                let source_register = reg_from_instr(instruction, 6);
                let source_1 = self.get_register(&source_register);
                let source_2 = if (instruction >> 5) & 1 == 0 {
                    let register = reg_from_instr(instruction, 0);
                    self.get_register(&register)
                } else {
                    sign_extend_imm5(instruction)
                };
                let value = if opcode == 0b0001 {
                    source_1.wrapping_add(source_2)
                } else {
                    source_1 & source_2
                };
                self.set_register(&destination, value);
            },
            // BR: taken only on a matching n/z/p bit.  The test reads the
            // condition code straight from the status register, firing no
            // watcher.
            0b0000 => {
                let bits = self.processor_status_register & 0b111;
                let code = if bits == 0b100 {
                    ConditionCode::Negative
                } else if bits == 0b010 {
                    ConditionCode::Zero
                } else {
                    ConditionCode::Positive
                };
                let taken = ((instruction >> 11) & 1 == 1 && code == ConditionCode::Negative) || ((
                instruction >> 10) & 1 == 1 && code == ConditionCode::Zero) || ((instruction >> 9)
                    & 1 == 1 && code == ConditionCode::Positive);
                if taken {
                    let counter = self.get_register(&Register::ProgramCounter);
                    let target = page_address_of(counter, instruction);
                    self.set_register(&Register::ProgramCounter, target);
                }
            },
            // JMP and JSR, page-relative or through a register.
            0b0100 | 0b1100 => {
                if (instruction >> 11) & 1 == 1 {
                    let counter = self.get_register(&Register::ProgramCounter);
                    self.set_register(&Register::Gpr(Gpr::R7), counter);
                }
                let address = if opcode == 0b0100 {
                    let counter = self.get_register(&Register::ProgramCounter);
                    page_address_of(counter, instruction)
                } else {
                    let base = reg_from_instr(instruction, 6);
                    self.get_register(&base).wrapping_add(instruction & 0x003f)
                };
                self.set_register(&Register::ProgramCounter, address);
            },
            // The load and store group: LD, LDI, LDR, LEA, ST, STI, STR.
            0b0010 | 0b1010 | 0b0110 | 0b1110 | 0b0011 | 0b1011 | 0b0111 => {
                let register = reg_from_instr(instruction, 9);
                let address = if opcode >> 1 == 0b011 {
                    let base = reg_from_instr(instruction, 6);
                    self.get_register(&base).wrapping_add(instruction & 0x003f)
                } else {
                    let counter = self.get_register(&Register::ProgramCounter);
                    let page = page_address_of(counter, instruction);
                    if opcode >> 1 == 0b101 {
                        self.get_memory(page)
                    } else {
                        page
                    }
                };
                if opcode & 1 == 1 {
                    let value = self.get_register(&register);
                    self.set_memory(address, value);
                } else {
                    let data = if opcode == 0b1110 {
                        address
                    } else {
                        self.get_memory(address)
                    };
                    self.set_register(&register, data);
                }
            },
            // NOT.
            0b1001 => {
                let source = reg_from_instr(instruction, 6);
                let value = !self.get_register(&source);
                let destination = reg_from_instr(instruction, 9);
                self.set_register(&destination, value);
            },
            // RET.
            0b1101 => {
                let address = self.get_register(&Register::Gpr(Gpr::R7));
                self.set_register(&Register::ProgramCounter, address);
            },
            // RTI: pop the return address, then the saved status word, and
            // restore the condition code it carries.
            0b1000 => {
                let stack_pointer = Register::Gpr(Gpr::R6);
                let pointer_1 = self.get_register(&stack_pointer);
                let address = self.get_memory(pointer_1);
                let incremented_1 = self.get_register(&stack_pointer).wrapping_add(1);
                self.set_register(&stack_pointer, incremented_1);
                let pointer_2 = self.get_register(&stack_pointer);
                let status_word = self.get_memory(pointer_2);
                let incremented_2 = self.get_register(&stack_pointer).wrapping_add(1);
                self.set_register(&stack_pointer, incremented_2);
                let bits = status_word & 0b111;
                let code = if bits == 0b100 {
                    ConditionCode::Negative
                } else if bits == 0b010 {
                    ConditionCode::Zero
                } else {
                    ConditionCode::Positive
                };
                self.set_condition_code(&code);
                self.set_register(&Register::ProgramCounter, address);
            },
            // TRAP.
            0b1111 => {
                let counter = self.get_register(&Register::ProgramCounter);
                self.set_register(&Register::Gpr(Gpr::R7), counter);
                let address = self.get_memory(instruction & 0x00ff);
                self.set_register(&Register::ProgramCounter, address);
            },
            // A 4-bit opcode covers the whole table; nothing else decodes.
            _ => {},
        }
        proof {
            assert(self@ =~= ready.execute(instruction));
        }
    }

    /// Interrupt entry, as [`Lc3State::interrupt`] describes.  An interrupt
    /// whose priority (bits 8 to 10 of the descriptor) is not strictly
    /// above the running priority leaves the machine completely unchanged.
    /// Otherwise the machine saves the status register, takes the new
    /// priority in supervisor mode, swaps in the supervisor stack pointer
    /// if it was interrupted in user mode, pushes the saved status word and
    /// the program counter, and vectors through the table at 0x0100.
    pub fn interrupt(&mut self, data: u16)
        requires
            old(self).wf(),
        ensures
            final(self).wf(),
            final(self)@ == old(self)@.interrupt(data),
            final(self).same_watchers(old(self)),
            (data >> 8) & 0b111 <= (old(self)@.processor_status_register >> 8) & 0b111
                ==> *final(self) == *old(self),
    {
        if (data >> 8) & 0b111 <= (self.processor_status_register >> 8) & 0b111 {
            return ;
        }
        let saved_status = self.get_register(&Register::ProcessorStatusRegister);
        let raised_status = (saved_status & 0x78ff) | (data & 0x0700);
        proof {
            lemma_interrupt_status_pattern(saved_status, data);
        }
        self.set_register(&Register::ProcessorStatusRegister, raised_status);
        let stack_pointer = Register::Gpr(Gpr::R6);
        if saved_status >> 15 == 1 {
            let pointer = self.get_register(&stack_pointer);
            self.saved_usp = pointer;
            let supervisor_pointer = self.saved_ssp;
            self.set_register(&stack_pointer, supervisor_pointer);
        }
        let decremented_1 = self.get_register(&stack_pointer).wrapping_sub(1);
        self.set_register(&stack_pointer, decremented_1);
        let top_1 = self.get_register(&stack_pointer);
        self.set_memory(top_1, saved_status);
        let decremented_2 = self.get_register(&stack_pointer).wrapping_sub(1);
        self.set_register(&stack_pointer, decremented_2);
        let top_2 = self.get_register(&stack_pointer);
        let counter = self.get_register(&Register::ProgramCounter);
        self.set_memory(top_2, counter);
        let routine_address = self.get_memory(0x0100 | (data & 0x00ff));
        self.set_register(&Register::ProgramCounter, routine_address);
        proof {
            assert(self@ =~= old(self)@.interrupt(data));
        }
    }
}

/// The register named by the 3-bit field at the given bit offset of an
/// instruction word.
fn reg_from_instr(instruction: u16, offset: u16) -> (register: Register)
    requires
        offset < 16,
    ensures
        register == Register::Gpr(gpr_at(instruction, offset)),
{
    Register::Gpr(crate::common::instruction::gpr_from_instruction(instruction, offset))
}

impl<W: Watcher> crate::Architecture for Lc3<W> {
    type Address = u16;

    type Data = u16;

    type Register = Register;

    type RegisterData = u16;

    type ConditionCode = ConditionCode;

    open spec fn arch_wf(&self) -> bool {
        self.wf()
    }

    /// This machine refuses a direct status-register write whose low 3
    /// bits are not a one-hot condition-code pattern; everything else goes
    /// in verbatim.
    open spec fn register_write_allowed(&self, register: &Register, data: u16) -> bool {
        *register == Register::ProcessorStatusRegister ==> valid_condition_pattern(data)
    }

    fn get_memory(&mut self, address: u16) -> u16 {
        self.get_memory(address)
    }

    fn set_memory(&mut self, address: u16, data: u16) {
        self.set_memory(address, data)
    }

    fn load_bytes(&mut self, start_address: u16, bytes: &[u8]) -> Result<(), &'static str> {
        self.load_bytes(start_address, bytes)
    }

    fn get_register(&self, register: &Register) -> u16 {
        self.get_register(register)
    }

    fn set_register(&mut self, register: &Register, data: u16) {
        self.set_register(register, data)
    }

    fn get_condition_code(&self) -> ConditionCode {
        self.get_condition_code()
    }

    fn set_condition_code(&mut self, condition_code: &ConditionCode) {
        self.set_condition_code(condition_code)
    }

    fn step_instruction(&mut self) {
        self.step_instruction()
    }

    fn interrupt(&mut self, routine_address: u16) {
        self.interrupt(routine_address)
    }
}

} // verus!
