//! The simpler of the two 16-bit machines.
//!
//! The machine owns its memory, register file and condition code, and a set
//! of watcher tables.  Every public operation is specified against the pure
//! transition functions in [`semantics`]: the view of a machine is its
//! [`Lc2State`], and each operation ends in exactly the state the
//! corresponding spec function names.
//!
//! Watchers fire on memory writes, register writes, and condition-code
//! writes and reads.  A ghost log records the write notifications with the
//! value each watcher received, so the contracts pin down not only the
//! machine state but also which watchers a write fires: a write to a
//! watched location appends one event, a write to an unwatched one appends
//! none.  (The condition-code read watcher fires without being logged: a
//! read borrows the machine immutably and cannot extend the log.)
use vstd::prelude::*;

pub mod memory;
pub mod registers;
pub mod semantics;

pub use crate::common::ConditionCode;
pub use memory::Memory;
pub use registers::{Gpr, Register};
pub use semantics::Lc2State;

use crate::common::instruction::{gpr_at, page_address_of, sign_extend_imm5};
use crate::common::image::{cell_count, loaded_memory, packed_word};
use crate::common::watcher_storage::{WatcherEvent, WatcherSlots};
use crate::lc2::registers::{lemma_register_index_bounds, lemma_register_index_injective};
use crate::{NopWatcher, Watcher, WatcherType};

verus! {

/// The simpler machine: 2^16 memory cells, eight general-purpose registers,
/// a program counter, an instruction register, the two bus registers, and a
/// first-class condition code.
///
/// `W` is the type of the watchers a driver installs; a machine that never
/// installs any can leave it at the default.
pub struct Lc2<W = NopWatcher> {
    general_purpose_register: Vec<u16>,
    condition_code: ConditionCode,
    program_counter: u16,
    instruction_register: u16,
    memory_address_register: u16,
    memory_data_register: u16,
    memory: Memory,
    register_watchers: WatcherSlots<W>,
    memory_watchers: WatcherSlots<W>,
    condition_code_watchers: WatcherSlots<W>,
    watcher_log: Ghost<Seq<WatcherEvent<Register>>>,
}

impl<W> View for Lc2<W> {
    type V = Lc2State;

    closed spec fn view(&self) -> Lc2State {
        Lc2State {
            memory: self.memory@,
            general_purpose_register: self.general_purpose_register@,
            condition_code: self.condition_code,
            program_counter: self.program_counter,
            instruction_register: self.instruction_register,
            memory_address_register: self.memory_address_register,
            memory_data_register: self.memory_data_register,
        }
    }
}

impl<W> Lc2<W> {
    /// The machine's representation is the right shape: full memory, eight
    /// general-purpose registers, one watcher slot per watchable location.
    pub closed spec fn wf(&self) -> bool {
        &&& self.memory.wf()
        &&& self.general_purpose_register@.len() == 8
        &&& self.memory_watchers@.len() == 0x10000
        &&& self.register_watchers@.len() == 12
        &&& self.condition_code_watchers@.len() == 2
    }

    /// The watcher slots for memory, one per address.
    pub closed spec fn memory_watcher_table(&self) -> Seq<Option<W>> {
        self.memory_watchers@
    }

    /// The watcher slots for registers, one per register.
    pub closed spec fn register_watcher_table(&self) -> Seq<Option<W>> {
        self.register_watchers@
    }

    /// The watcher slots for the condition code, one per access direction.
    pub closed spec fn condition_code_watcher_table(&self) -> Seq<Option<W>> {
        self.condition_code_watchers@
    }

    /// The watcher installed on a memory address, if any.
    pub open spec fn memory_watcher(&self, address: u16) -> Option<W> {
        self.memory_watcher_table()[address as int]
    }

    /// The watcher installed on a register, if any.
    pub open spec fn register_watcher(&self, register: Register) -> Option<W> {
        self.register_watcher_table()[register.as_index()]
    }

    /// The condition-code watcher for a direction, if any.
    pub open spec fn condition_code_watcher(&self, watcher_type: WatcherType) -> Option<W> {
        self.condition_code_watcher_table()[watcher_type.as_index()]
    }

    /// Every write notification recorded so far, oldest first; a read
    /// fires its watcher without being recorded.
    pub closed spec fn events(&self) -> Seq<WatcherEvent<Register>> {
        self.watcher_log@
    }

    /// Both machines hold exactly the same watchers.
    pub open spec fn same_watchers(&self, other: &Self) -> bool {
        &&& self.memory_watcher_table() == other.memory_watcher_table()
        &&& self.register_watcher_table() == other.register_watcher_table()
        &&& self.condition_code_watcher_table() == other.condition_code_watcher_table()
    }

    /// The notifications a memory write fires: one event if the address is
    /// watched, none otherwise.
    pub open spec fn memory_write_events(&self, address: u16, data: u16) -> Seq<
        WatcherEvent<Register>,
    > {
        if self.memory_watcher(address) is Some {
            seq![WatcherEvent::MemoryWrite { address, data }]
        } else {
            Seq::empty()
        }
    }

    /// The notifications a condition-code write fires.
    pub open spec fn condition_code_write_events(&self, code: ConditionCode) -> Seq<
        WatcherEvent<Register>,
    > {
        if self.condition_code_watcher(WatcherType::OnWrite) is Some {
            seq![WatcherEvent::ConditionCodeWrite { code }]
        } else {
            Seq::empty()
        }
    }

    /// The notifications a register write fires: writing a general-purpose
    /// register first fires the condition-code write watcher, then the
    /// register's own watcher.
    pub open spec fn register_write_events(&self, register: Register, data: u16) -> Seq<
        WatcherEvent<Register>,
    > {
        (match register {
            Register::Gpr(_) => self.condition_code_write_events(
                crate::common::condition_code::condition_code_of(data),
            ),
            _ => Seq::empty(),
        }) + (if self.register_watcher(register) is Some {
            seq![WatcherEvent::RegisterWrite { register, data }]
        } else {
            Seq::empty()
        })
    }

    /// The notifications the cell writes of a byte-image load fire: for
    /// each of the first `cells` cells, in increasing address order, the
    /// write watcher of that cell's address with its packed word.
    pub open spec fn load_events(&self, start_address: u16, bytes: Seq<u8>, cells: int) -> Seq<
        WatcherEvent<Register>,
    >
        decreases cells,
    {
        if cells <= 0 {
            Seq::empty()
        } else {
            self.load_events(start_address, bytes, cells - 1) + self.memory_write_events(
                (start_address + cells - 1) as u16,
                packed_word(bytes, cells - 1),
            )
        }
    }

    /// A well-formed machine's state is well formed in the sense of
    /// [`Lc2State::wf`]: a client reasoning about cell or register contents
    /// after an operation gets the lengths that needs.
    pub proof fn lemma_wf_state(&self)
        requires
            self.wf(),
        ensures
            self@.wf(),
    {
    }
}

impl<W: Watcher> Lc2<W> {
    /// A fresh machine: memory and registers zeroed, the condition code at
    /// `Zero`, the program counter at the given address, and no watcher
    /// installed anywhere.
    pub fn new(initial_address: u16) -> (machine: Self)
        ensures
            machine.wf(),
            machine@ == Lc2State::initial(initial_address),
            machine.events() == Seq::<WatcherEvent<Register>>::empty(),
            forall|address: u16| machine.memory_watcher(address) is None,
            forall|register: Register| machine.register_watcher(register) is None,
            forall|watcher_type: WatcherType| machine.condition_code_watcher(watcher_type) is None,
    {
        let mut general_purpose_register: Vec<u16> = Vec::new();
        let mut filled: usize = 0;
        while filled < 8
            invariant
                filled <= 8,
                general_purpose_register@.len() == filled,
                forall|index: int| 0 <= index < filled ==> general_purpose_register@[index] == 0u16,
            decreases 8 - filled,
        {
            general_purpose_register.push(0);
            filled = filled + 1;
        }
        let machine = Lc2 {
            general_purpose_register,
            condition_code: ConditionCode::Zero,
            program_counter: initial_address,
            instruction_register: 0,
            memory_address_register: 0,
            memory_data_register: 0,
            memory: Memory::new(),
            register_watchers: WatcherSlots::new(12),
            memory_watchers: WatcherSlots::new(0x10000),
            condition_code_watchers: WatcherSlots::new(2),
            watcher_log: Ghost(Seq::empty()),
        };
        proof {
            assert(machine@.memory =~= Lc2State::initial(initial_address).memory);
            assert(machine@.general_purpose_register =~= Lc2State::initial(
                initial_address,
            ).general_purpose_register);
            assert(machine@ =~= Lc2State::initial(initial_address));
            assert forall|register: Register| machine.register_watcher(register) is None by {
                lemma_register_index_bounds(register);
            }
        }
        machine
    }

    /// Reads a memory cell.  The bus registers latch the transfer: the
    /// memory address register takes the address, the memory data register
    /// the word read.
    pub fn get_memory(&mut self, address: u16) -> (data: u16)
        requires
            old(self).wf(),
        ensures
            final(self).wf(),
            data == old(self)@.memory_at(address),
            final(self)@ == old(self)@.bus_read(address),
            final(self).same_watchers(old(self)),
            final(self).events() == old(self).events(),
    {
        self.memory_address_register = address;
        self.memory_data_register = self.memory.read(address);
        self.memory_data_register
    }

    /// Writes a memory cell through the bus, and fires the watcher installed
    /// on that address, if any, with the word written.
    pub fn set_memory(&mut self, address: u16, data: u16)
        requires
            old(self).wf(),
        ensures
            final(self).wf(),
            final(self)@ == old(self)@.bus_write(address, data),
            final(self).same_watchers(old(self)),
            final(self).events() == old(self).events() + old(self).memory_write_events(
                address,
                data,
            ),
    {
        self.memory_address_register = address;
        self.memory_data_register = data;
        self.memory.write(address, data);
        let fired = self.memory_watchers.notify_data(address as usize, data);
        if fired {
            self.watcher_log = Ghost(
                self.watcher_log@.push(WatcherEvent::MemoryWrite { address, data }),
            );
        }
        proof {
            assert(self@ =~= old(self)@.bus_write(address, data));
            assert(self.events() =~= old(self).events() + old(self).memory_write_events(
                address,
                data,
            ));
        }
    }

    /// Loads a byte image into memory, packing bytes pairwise big-endian
    /// into consecutive cells from `start_address` on; an odd trailing byte
    /// fills the high half of one last cell.  Every cell goes through the
    /// normal write path, so memory watchers fire; the bus registers are
    /// restored afterwards through the normal register write path.  Fails,
    /// changing nothing, if the image would run past the top of memory.
    pub fn load_bytes(&mut self, start_address: u16, bytes: &[u8]) -> (result: Result<
        (),
        &'static str,
    >)
        requires
            old(self).wf(),
        ensures
            final(self).wf(),
            final(self).same_watchers(old(self)),
            start_address + cell_count(bytes@.len()) > 0xffff ==> result == Err::<
                (),
                &'static str,
            >("The array of byte is too big") && *final(self) == *old(self),
            start_address + cell_count(bytes@.len()) <= 0xffff ==> result is Ok && final(self)@
                == (Lc2State {
                memory: loaded_memory(old(self)@.memory, start_address, bytes@),
                ..old(self)@
            }) && final(self).events() == old(self).events() + old(self).load_events(
                start_address,
                bytes@,
                cell_count(bytes@.len()) as int,
            ) + old(self).register_write_events(
                Register::MemoryAddressRegister,
                old(self)@.memory_address_register,
            ) + old(self).register_write_events(
                Register::MemoryDataRegister,
                old(self)@.memory_data_register,
            ),
    {
        let ghost pre = *self;
        let length = bytes.len();
        let cells = length / 2 + if length % 2 != 0 {
            1usize
        } else {
            0usize
        };
        if start_address as usize + cells > 0xffff {
            return Err("The array of byte is too big");
        }
        let memory_address_register = self.get_register(&Register::MemoryAddressRegister);
        let memory_data_register = self.get_register(&Register::MemoryDataRegister);
        proof {
            assert(self.events() =~= pre.events() + pre.load_events(start_address, bytes@, 0));
        }
        let mut cell: usize = 0;
        while cell < cells
            invariant
                self.wf(),
                pre.wf(),
                cell <= cells,
                self.events() == pre.events() + pre.load_events(
                    start_address,
                    bytes@,
                    cell as int,
                ),
                length == bytes@.len(),
                cells == cell_count(bytes@.len()),
                start_address + cells <= 0xffff,
                self.same_watchers(&pre),
                self@.general_purpose_register == pre@.general_purpose_register,
                self@.condition_code == pre@.condition_code,
                self@.program_counter == pre@.program_counter,
                self@.instruction_register == pre@.instruction_register,
                forall|address: int|
                    0 <= address < 0x10000 && !(start_address <= address < start_address
                        + cell) ==> self@.memory[address] == pre@.memory[address],
                forall|offset: int|
                    0 <= offset < cell ==> self@.memory[start_address + offset] == packed_word(
                        bytes@,
                        offset,
                    ),
            decreases cells - cell,
        {
            let high = bytes[2 * cell];
            let mut data: u16 = (high as u16) << 8;
            if 2 * cell + 1 < length {
                data = data | (bytes[2 * cell + 1] as u16);
            }
            proof {
                assert(data == packed_word(bytes@, cell as int));
            }
            let address = start_address + (cell as u16);
            self.set_memory(address, data);
            proof {
                assert(self.events() =~= pre.events() + pre.load_events(
                    start_address,
                    bytes@,
                    cell + 1,
                ));
            }
            cell = cell + 1;
        }
        self.set_register(&Register::MemoryAddressRegister, memory_address_register);
        self.set_register(&Register::MemoryDataRegister, memory_data_register);
        proof {
            assert(self@.memory =~= loaded_memory(pre@.memory, start_address, bytes@));
            assert(self@ =~= (Lc2State {
                memory: loaded_memory(old(self)@.memory, start_address, bytes@),
                ..old(self)@
            }));
            assert(self.events() =~= old(self).events() + old(self).load_events(
                start_address,
                bytes@,
                cell_count(bytes@.len()) as int,
            ) + old(self).register_write_events(
                Register::MemoryAddressRegister,
                memory_address_register,
            ) + old(self).register_write_events(
                Register::MemoryDataRegister,
                memory_data_register,
            ));
        }
        Ok(())
    }

    /// The value a register holds.  Reading fires no watcher on this
    /// machine.
    pub fn get_register(&self, register: &Register) -> (data: u16)
        requires
            self.wf(),
        ensures
            data == self@.register(*register),
    {
        match register {
            Register::Gpr(gpr) => self.general_purpose_register[gpr.index()],
            Register::ProgramCounter => self.program_counter,
            Register::InstructionRegister => self.instruction_register,
            Register::MemoryAddressRegister => self.memory_address_register,
            Register::MemoryDataRegister => self.memory_data_register,
        }
    }

    /// Writes a register.  A general-purpose register write first derives
    /// and stores the condition code from the value (firing the
    /// condition-code write watcher), then the register takes the value and
    /// its own watcher fires; other registers take the value verbatim.
    pub fn set_register(&mut self, register: &Register, data: u16)
        requires
            old(self).wf(),
        ensures
            final(self).wf(),
            final(self)@ == old(self)@.write_register(*register, data),
            final(self).same_watchers(old(self)),
            final(self).events() == old(self).events() + old(self).register_write_events(
                *register,
                data,
            ),
    {
        match register {
            Register::Gpr(gpr) => {
                let code = ConditionCode::derive(data);
                self.set_condition_code(&code);
                let index = gpr.index();
                self.general_purpose_register.set(index, data);
            },
            Register::ProgramCounter => {
                self.program_counter = data;
            },
            Register::InstructionRegister => {
                self.instruction_register = data;
            },
            Register::MemoryAddressRegister => {
                self.memory_address_register = data;
            },
            Register::MemoryDataRegister => {
                self.memory_data_register = data;
            },
        }
        proof {
            assert(self@ =~= old(self)@.write_register(*register, data));
            lemma_register_index_bounds(*register);
        }
        let slot = register.index();
        let fired = self.register_watchers.notify_data(slot, data);
        if fired {
            self.watcher_log = Ghost(
                self.watcher_log@.push(WatcherEvent::RegisterWrite { register: *register, data }),
            );
        }
        proof {
            assert(self.events() =~= old(self).events() + old(self).register_write_events(
                *register,
                data,
            ));
        }
    }

    /// The current condition code.  Reading fires the condition-code read
    /// watcher, if one is installed.
    pub fn get_condition_code(&self) -> (condition_code: ConditionCode)
        requires
            self.wf(),
        ensures
            condition_code == self@.condition_code,
    {
        let code = self.condition_code;
        let _ = self.condition_code_watchers.notify_condition_code(1, code);
        code
    }

    /// Sets the condition code and fires the condition-code write watcher,
    /// if one is installed, with the new code.
    pub fn set_condition_code(&mut self, condition_code: &ConditionCode)
        requires
            old(self).wf(),
        ensures
            final(self).wf(),
            final(self)@ == old(self)@.write_condition_code(*condition_code),
            final(self).same_watchers(old(self)),
            final(self).events() == old(self).events() + old(self).condition_code_write_events(
                *condition_code,
            ),
    {
        self.condition_code = *condition_code;
        let fired = self.condition_code_watchers.notify_condition_code(0, *condition_code);
        if fired {
            self.watcher_log = Ghost(
                self.watcher_log@.push(WatcherEvent::ConditionCodeWrite { code: *condition_code }),
            );
        }
        proof {
            assert(self.events() =~= old(self).events() + old(self).condition_code_write_events(
                *condition_code,
            ));
        }
    }

    /// Installs a watcher on a memory address, replacing any watcher already
    /// there.  The machine state does not change.
    pub fn add_memory_watcher(&mut self, address: u16, function: W)
        requires
            old(self).wf(),
        ensures
            final(self).wf(),
            final(self)@ == old(self)@,
            final(self).events() == old(self).events(),
            final(self).memory_watcher(address) == Some(function),
            forall|other: u16|
                other != address ==> final(self).memory_watcher(other) == old(self).memory_watcher(
                    other,
                ),
            final(self).register_watcher_table() == old(self).register_watcher_table(),
            final(self).condition_code_watcher_table() == old(self).condition_code_watcher_table(),
    {
        self.memory_watchers.install(address as usize, function);
    }

    /// Removes the watcher on a memory address; a no-op if none is
    /// installed.  It will not fire again unless reinstalled.
    pub fn remove_memory_watcher(&mut self, address: u16)
        requires
            old(self).wf(),
        ensures
            final(self).wf(),
            final(self)@ == old(self)@,
            final(self).events() == old(self).events(),
            final(self).memory_watcher(address) is None,
            forall|other: u16|
                other != address ==> final(self).memory_watcher(other) == old(self).memory_watcher(
                    other,
                ),
            final(self).register_watcher_table() == old(self).register_watcher_table(),
            final(self).condition_code_watcher_table() == old(self).condition_code_watcher_table(),
    {
        self.memory_watchers.clear(address as usize);
    }

    /// Installs a watcher on a register, replacing any watcher already
    /// there.
    pub fn add_register_watcher(&mut self, register: &Register, function: W)
        requires
            old(self).wf(),
        ensures
            final(self).wf(),
            final(self)@ == old(self)@,
            final(self).events() == old(self).events(),
            final(self).register_watcher(*register) == Some(function),
            forall|other: Register|
                other != *register ==> final(self).register_watcher(other) == old(
                    self,
                ).register_watcher(other),
            final(self).memory_watcher_table() == old(self).memory_watcher_table(),
            final(self).condition_code_watcher_table() == old(self).condition_code_watcher_table(),
    {
        proof {
            lemma_register_index_bounds(*register);
        }
        let slot = register.index();
        self.register_watchers.install(slot, function);
        proof {
            assert forall|other: Register| other != *register implies final(self)
                .register_watcher(other) == old(self).register_watcher(other) by {
                if other.as_index() == register.as_index() {
                    lemma_register_index_injective(other, *register);
                }
            }
        }
    }

    /// Removes the watcher on a register; a no-op if none is installed.
    pub fn remove_register_watcher(&mut self, register: &Register)
        requires
            old(self).wf(),
        ensures
            final(self).wf(),
            final(self)@ == old(self)@,
            final(self).events() == old(self).events(),
            final(self).register_watcher(*register) is None,
            forall|other: Register|
                other != *register ==> final(self).register_watcher(other) == old(
                    self,
                ).register_watcher(other),
            final(self).memory_watcher_table() == old(self).memory_watcher_table(),
            final(self).condition_code_watcher_table() == old(self).condition_code_watcher_table(),
    {
        proof {
            lemma_register_index_bounds(*register);
        }
        let slot = register.index();
        self.register_watchers.clear(slot);
        proof {
            assert forall|other: Register| other != *register implies final(self)
                .register_watcher(other) == old(self).register_watcher(other) by {
                if other.as_index() == register.as_index() {
                    lemma_register_index_injective(other, *register);
                }
            }
        }
    }

    /// Installs a condition-code watcher for one access direction,
    /// replacing any watcher already there.
    pub fn add_condition_code_watcher(&mut self, watcher_type: WatcherType, function: W)
        requires
            old(self).wf(),
        ensures
            final(self).wf(),
            final(self)@ == old(self)@,
            final(self).events() == old(self).events(),
            final(self).condition_code_watcher(watcher_type) == Some(function),
            forall|other: WatcherType|
                other != watcher_type ==> final(self).condition_code_watcher(other) == old(
                    self,
                ).condition_code_watcher(other),
            final(self).memory_watcher_table() == old(self).memory_watcher_table(),
            final(self).register_watcher_table() == old(self).register_watcher_table(),
    {
        let slot = watcher_type.index();
        self.condition_code_watchers.install(slot, function);
    }

    /// Removes the condition-code watcher for one access direction; a no-op
    /// if none is installed.
    pub fn remove_condition_code_watcher(&mut self, watcher_type: WatcherType)
        requires
            old(self).wf(),
        ensures
            final(self).wf(),
            final(self)@ == old(self)@,
            final(self).events() == old(self).events(),
            final(self).condition_code_watcher(watcher_type) is None,
            forall|other: WatcherType|
                other != watcher_type ==> final(self).condition_code_watcher(other) == old(
                    self,
                ).condition_code_watcher(other),
            final(self).memory_watcher_table() == old(self).memory_watcher_table(),
            final(self).register_watcher_table() == old(self).register_watcher_table(),
    {
        let slot = watcher_type.index();
        self.condition_code_watchers.clear(slot);
    }

    /// Executes exactly one instruction: fetches the word at the program
    /// counter, latches it into the instruction register, advances the
    /// program counter, and executes per the instruction table — all as
    /// [`Lc2State::step`] describes.
    #[verifier::rlimit(50)]
    pub fn step_instruction(&mut self)
        requires
            old(self).wf(),
        ensures
            final(self).wf(),
            final(self)@ == old(self)@.step(),
            final(self).same_watchers(old(self)),
    {
        let program_counter = self.get_register(&Register::ProgramCounter);
        let instruction = self.get_memory(program_counter);
        self.set_register(&Register::InstructionRegister, instruction);
        let incremented = self.get_register(&Register::ProgramCounter).wrapping_add(1);
        self.set_register(&Register::ProgramCounter, incremented);
        let ghost ready = self@;
        proof {
            assert(ready =~= old(self)@.bus_read(old(self)@.program_counter).write_register(
                Register::InstructionRegister,
                instruction,
            ).write_register(Register::ProgramCounter, incremented));
            assert(old(self)@.step() == ready.execute(instruction));
        }
        let opcode = instruction >> 12;
        match opcode {
            // ADD and AND, with a register or an immediate second operand.
            0b0001 | 0b0101 => {
                let destination = reg_from_instr(instruction, 9);
                let source_register = reg_from_instr(instruction, 6);
                let source_1 = self.get_register(&source_register);
                let source_2 = if (instruction >> 5) & 1 == 0 {
                    let register = reg_from_instr(instruction, 0);
                    self.get_register(&register)
                } else {
                    sign_extend_imm5(instruction)
                };
                let value = if opcode == 0b0001 {
                    source_1.wrapping_add(source_2)
                } else {
                    source_1 & source_2
                };
                self.set_register(&destination, value);
            },
            // BR: taken only on a matching n/z/p bit.
            0b0000 => {
                let code = self.condition_code;
                let taken = ((instruction >> 11) & 1 == 1 && code == ConditionCode::Negative) || ((
                instruction >> 10) & 1 == 1 && code == ConditionCode::Zero) || ((instruction >> 9)
                    & 1 == 1 && code == ConditionCode::Positive);
                if taken {
                    let counter = self.get_register(&Register::ProgramCounter);
                    let target = page_address_of(counter, instruction);
                    self.set_register(&Register::ProgramCounter, target);
                }
            },
            // JMP and JSR, page-relative or through a register.
            0b0100 | 0b1100 => {
                if (instruction >> 11) & 1 == 1 {
                    let counter = self.get_register(&Register::ProgramCounter);
                    self.set_register(&Register::Gpr(Gpr::R7), counter);
                }
                let address = if opcode == 0b0100 {
                    let counter = self.get_register(&Register::ProgramCounter);
                    page_address_of(counter, instruction)
                } else {
                    let base = reg_from_instr(instruction, 6);
                    self.get_register(&base).wrapping_add(instruction & 0x003f)
                };
                self.set_register(&Register::ProgramCounter, address);
            },
            // The load and store group: LD, LDI, LDR, LEA, ST, STI, STR.
            0b0010 | 0b1010 | 0b0110 | 0b1110 | 0b0011 | 0b1011 | 0b0111 => {
                let register = reg_from_instr(instruction, 9);
                let address = if opcode >> 1 == 0b011 {
                    let base = reg_from_instr(instruction, 6);
                    self.get_register(&base).wrapping_add(instruction & 0x003f)
                } else {
                    let counter = self.get_register(&Register::ProgramCounter);
                    let page = page_address_of(counter, instruction);
                    if opcode >> 1 == 0b101 {
                        self.get_memory(page)
                    } else {
                        page
                    }
                };
                if opcode & 1 == 1 {
                    let value = self.get_register(&register);
                    self.set_memory(address, value);
                } else {
                    let data = if opcode == 0b1110 {
                        address
                    } else {
                        self.get_memory(address)
                    };
                    self.set_register(&register, data);
                }
            },
            // NOT.
            0b1001 => {
                let source = reg_from_instr(instruction, 6);
                let value = !self.get_register(&source);
                let destination = reg_from_instr(instruction, 9);
                self.set_register(&destination, value);
            },
            // RET.
            0b1101 => {
                let address = self.get_register(&Register::Gpr(Gpr::R7));
                self.set_register(&Register::ProgramCounter, address);
            },
            // RTI: pop the condition code, then the return address.
            0b1000 => {
                let stack_pointer = Register::Gpr(Gpr::R6);
                let pointer_1 = self.get_register(&stack_pointer);
                let code_value = self.get_memory(pointer_1);
                let decremented_1 = self.get_register(&stack_pointer).wrapping_sub(1);
                self.set_register(&stack_pointer, decremented_1);
                let pointer_2 = self.get_register(&stack_pointer);
                let address = self.get_memory(pointer_2);
                let decremented_2 = self.get_register(&stack_pointer).wrapping_sub(1);
                self.set_register(&stack_pointer, decremented_2);
                let code = ConditionCode::derive(code_value);
                self.set_condition_code(&code);
                self.set_register(&Register::ProgramCounter, address);
            },
            // TRAP.
            0b1111 => {
                let counter = self.get_register(&Register::ProgramCounter);
                self.set_register(&Register::Gpr(Gpr::R7), counter);
                let address = self.get_memory(instruction & 0x00ff);
                self.set_register(&Register::ProgramCounter, address);
            },
            // A 4-bit opcode covers the whole table; nothing else decodes.
            _ => {},
        }
        proof {
            assert(self@ =~= ready.execute(instruction));
        }
    }

    /// Interrupt entry: pushes the program counter and then the encoded
    /// condition code onto the stack R6 points at, incrementing R6 before
    /// each push, and jumps to the routine address — as
    /// [`Lc2State::interrupt`] describes.
    pub fn interrupt(&mut self, routine_address: u16)
        requires
            old(self).wf(),
        ensures
            final(self).wf(),
            final(self)@ == old(self)@.interrupt(routine_address),
            final(self).same_watchers(old(self)),
    {
        let code_value = u16::from(self.get_condition_code());
        let stack_pointer = Register::Gpr(Gpr::R6);
        let bumped_1 = self.get_register(&stack_pointer).wrapping_add(1);
        self.set_register(&stack_pointer, bumped_1);
        let top_1 = self.get_register(&stack_pointer);
        let counter = self.get_register(&Register::ProgramCounter);
        self.set_memory(top_1, counter);
        let bumped_2 = self.get_register(&stack_pointer).wrapping_add(1);
        self.set_register(&stack_pointer, bumped_2);
        let top_2 = self.get_register(&stack_pointer);
        self.set_memory(top_2, code_value);
        self.set_register(&Register::ProgramCounter, routine_address);
        proof {
            assert(self@ =~= old(self)@.interrupt(routine_address));
        }
    }
}

/// The register named by the 3-bit field at the given bit offset of an
/// instruction word.
fn reg_from_instr(instruction: u16, offset: u16) -> (register: Register)
    requires
        offset < 16,
    ensures
        register == Register::Gpr(gpr_at(instruction, offset)),
{
    Register::Gpr(crate::common::instruction::gpr_from_instruction(instruction, offset))
}

impl<W: Watcher> crate::Architecture for Lc2<W> {
    type Address = u16;

    type Data = u16;

    type Register = Register;

    type RegisterData = u16;

    type ConditionCode = ConditionCode;

    open spec fn arch_wf(&self) -> bool {
        self.wf()
    }

    /// This machine validates no register write: every value goes in
    /// verbatim.
    open spec fn register_write_allowed(&self, register: &Register, data: u16) -> bool {
        true
    }

    fn get_memory(&mut self, address: u16) -> u16 {
        self.get_memory(address)
    }

    fn set_memory(&mut self, address: u16, data: u16) {
        self.set_memory(address, data)
    }

    fn load_bytes(&mut self, start_address: u16, bytes: &[u8]) -> Result<(), &'static str> {
        self.load_bytes(start_address, bytes)
    }

    fn get_register(&self, register: &Register) -> u16 {
        self.get_register(register)
    }

    fn set_register(&mut self, register: &Register, data: u16) {
        self.set_register(register, data)
    }

    fn get_condition_code(&self) -> ConditionCode {
        self.get_condition_code()
    }

    fn set_condition_code(&mut self, condition_code: &ConditionCode) {
        self.set_condition_code(condition_code)
    }

    fn step_instruction(&mut self) {
        self.step_instruction()
    }

    fn interrupt(&mut self, routine_address: u16) {
        self.interrupt(routine_address)
    }
}

} // verus!
