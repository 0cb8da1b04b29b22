//! The mathematical model of the richer architecture: its machine state as
//! a ghost structure, and the meaning of every operation — bus accesses,
//! register writes, one instruction step, one interrupt entry — as pure
//! functions from state to state.
//!
//! The condition code is not a field of its own here: it lives one-hot in
//! the low 3 bits of the processor status register, which also carries the
//! privilege mode in bit 15 and the running priority in bits 8 to 10.
//!
//! The executable machine in the parent module is proved to follow these
//! functions exactly.
use vstd::prelude::*;

use crate::common::condition_code::{condition_code_of, ConditionCode};
use crate::common::instruction::{
    gpr_at, offset6, opcode_of, page_address, sign_extended_imm5, trap_vector,
};
use crate::common::Gpr;
use crate::lc3::registers::Register;

verus! {

/// The low 3 bits of a status word hold a one-hot condition-code pattern.
pub open spec fn valid_condition_pattern(data: u16) -> bool {
    data & 0b111 == 0b100 || data & 0b111 == 0b010 || data & 0b111 == 0b001
}

/// The condition code encoded in the low 3 bits of a status word; any
/// pattern other than the negative and zero ones reads as `Positive`, and a
/// well-formed machine only ever holds one-hot patterns.
pub open spec fn condition_code_of_status(status: u16) -> ConditionCode {
    if status & 0b111 == 0b100 {
        ConditionCode::Negative
    } else if status & 0b111 == 0b010 {
        ConditionCode::Zero
    } else {
        ConditionCode::Positive
    }
}

/// The one-hot pattern of a condition code inside a status word.
pub open spec fn condition_pattern(condition_code: ConditionCode) -> u16 {
    match condition_code {
        ConditionCode::Negative => 0b100,
        ConditionCode::Zero => 0b010,
        ConditionCode::Positive => 0b001,
    }
}

/// Replacing the low 3 bits of a status word plants exactly the new
/// pattern there.
pub proof fn lemma_status_condition_update(status: u16, pattern: u16)
    by (bit_vector)
    requires
        pattern == 0b100 || pattern == 0b010 || pattern == 0b001,
    ensures
        ((status & 0xfff8) | pattern) & 0b111 == pattern,
{
}

/// Interrupt entry changes only the priority bits of the status word: its
/// condition-code bits survive.
pub proof fn lemma_interrupt_status_pattern(status: u16, data: u16)
    by (bit_vector)
    ensures
        ((status & 0x78ff) | (data & 0x0700)) & 0b111 == status & 0b111,
{
}

/// The observable state of the richer machine: memory, the register file
/// with its status register, and the two saved stack pointers.
#[verifier::ext_equal]
pub ghost struct Lc3State {
    pub memory: Seq<u16>,
    pub general_purpose_register: Seq<u16>,
    pub program_counter: u16,
    pub instruction_register: u16,
    pub processor_status_register: u16,
    pub saved_usp: u16,
    pub saved_ssp: u16,
    pub memory_address_register: u16,
    pub memory_data_register: u16,
}

impl Lc3State {
    /// The shape every reachable state has: 2^16 memory cells, 8
    /// general-purpose registers, and a one-hot condition-code pattern in
    /// the status register.
    pub open spec fn wf(self) -> bool {
        &&& self.memory.len() == 0x10000
        &&& self.general_purpose_register.len() == 8
        &&& valid_condition_pattern(self.processor_status_register)
    }

    /// The state a fresh machine starts in: zeroed memory and registers, a
    /// status register in user mode at priority zero with the condition
    /// code `Zero`, and the two saved stack pointers at their conventional
    /// homes.
    pub open spec fn initial(initial_address: u16) -> Lc3State {
        Lc3State {
            memory: Seq::new(0x10000, |address: int| 0u16),
            general_purpose_register: Seq::new(8, |index: int| 0u16),
            program_counter: initial_address,
            instruction_register: 0,
            processor_status_register: 0x8002,
            saved_usp: 0xfe00,
            saved_ssp: 0x3000,
            memory_address_register: 0,
            memory_data_register: 0,
        }
    }

    /// The word stored at an address.
    pub open spec fn memory_at(self, address: u16) -> u16 {
        self.memory[address as int]
    }

    /// The condition code held in the status register.
    pub open spec fn condition_code(self) -> ConditionCode {
        condition_code_of_status(self.processor_status_register)
    }

    /// The value a register holds.
    pub open spec fn register(self, register: Register) -> u16 {
        match register {
            Register::Gpr(gpr) => self.general_purpose_register[gpr.as_index()],
            Register::ProgramCounter => self.program_counter,
            Register::InstructionRegister => self.instruction_register,
            Register::ProcessorStatusRegister => self.processor_status_register,
            Register::MemoryAddressRegister => self.memory_address_register,
            Register::MemoryDataRegister => self.memory_data_register,
        }
    }

    /// A bus read: the memory address register latches the address, the
    /// memory data register latches the word read.  No cell changes.
    pub open spec fn bus_read(self, address: u16) -> Lc3State {
        Lc3State {
            memory_address_register: address,
            memory_data_register: self.memory[address as int],
            ..self
        }
    }

    /// A bus write: the two bus registers latch the transfer and the cell
    /// takes the word.
    pub open spec fn bus_write(self, address: u16, data: u16) -> Lc3State {
        Lc3State {
            memory: self.memory.update(address as int, data),
            memory_address_register: address,
            memory_data_register: data,
            ..self
        }
    }

    /// A condition-code write: the low 3 bits of the status register take
    /// the code's one-hot pattern.
    pub open spec fn write_condition_code(self, condition_code: ConditionCode) -> Lc3State {
        Lc3State {
            processor_status_register: (self.processor_status_register & 0xfff8)
                | condition_pattern(condition_code),
            ..self
        }
    }

    /// A register write.  Writing a general-purpose register first plants
    /// the condition code derived from the value; every other register
    /// takes the value verbatim.  (The executable machine refuses a direct
    /// status-register write whose low bits are not one-hot.)
    pub open spec fn write_register(self, register: Register, data: u16) -> Lc3State {
        match register {
            Register::Gpr(gpr) => {
                let updated = self.write_condition_code(condition_code_of(data));
                Lc3State {
                    general_purpose_register: updated.general_purpose_register.update(
                        gpr.as_index(),
                        data,
                    ),
                    ..updated
                }
            },
            Register::ProgramCounter => Lc3State { program_counter: data, ..self },
            Register::InstructionRegister => Lc3State { instruction_register: data, ..self },
            Register::ProcessorStatusRegister => Lc3State {
                processor_status_register: data,
                ..self
            },
            Register::MemoryAddressRegister => Lc3State { memory_address_register: data, ..self },
            Register::MemoryDataRegister => Lc3State { memory_data_register: data, ..self },
        }
    }

    /// One full instruction: fetch the word the program counter points at,
    /// latch it in the instruction register, advance the program counter,
    /// then execute per the instruction table.
    pub open spec fn step(self) -> Lc3State {
        let fetched = self.bus_read(self.program_counter);
        let instruction = fetched.memory_data_register;
        let latched = fetched.write_register(Register::InstructionRegister, instruction);
        let ready = latched.write_register(
            Register::ProgramCounter,
            latched.program_counter.wrapping_add(1),
        );
        ready.execute(instruction)
    }

    /// The instruction table, shared with the simpler architecture except
    /// where the status register differs: the condition code read by BR and
    /// written by the loads comes from the status register, and RTI undoes
    /// this machine's interrupt entry.
    pub open spec fn execute(self, instruction: u16) -> Lc3State {
        let opcode = opcode_of(instruction);
        if opcode == 0b0001 || opcode == 0b0101 {
            self.execute_arithmetic(instruction)
        } else if opcode == 0b0000 {
            self.execute_branch(instruction)
        } else if opcode == 0b0100 || opcode == 0b1100 {
            self.execute_jump(instruction)
        } else if opcode == 0b0010 || opcode == 0b1010 || opcode == 0b0110 || opcode == 0b1110
            || opcode == 0b0011 || opcode == 0b1011 || opcode == 0b0111 {
            self.execute_memory_operation(instruction)
        } else if opcode == 0b1001 {
            // NOT
            self.write_register(
                Register::Gpr(gpr_at(instruction, 9)),
                !self.register(Register::Gpr(gpr_at(instruction, 6))),
            )
        } else if opcode == 0b1101 {
            // RET
            self.write_register(Register::ProgramCounter, self.register(Register::Gpr(Gpr::R7)))
        } else if opcode == 0b1000 {
            self.execute_return_from_interrupt()
        } else if opcode == 0b1111 {
            // TRAP
            let saved = self.write_register(
                Register::Gpr(Gpr::R7),
                self.register(Register::ProgramCounter),
            );
            let vectored = saved.bus_read(trap_vector(instruction));
            vectored.write_register(Register::ProgramCounter, vectored.memory_data_register)
        } else {
            // A 4-bit opcode covers the table; no other value can decode.
            self
        }
    }

    /// ADD and AND, with a register or a sign-extended immediate as the
    /// second operand; the destination write derives the condition code.
    pub open spec fn execute_arithmetic(self, instruction: u16) -> Lc3State {
        let destination = Register::Gpr(gpr_at(instruction, 9));
        let source_1 = self.register(Register::Gpr(gpr_at(instruction, 6)));
        let source_2 = if (instruction >> 5) & 1 == 0 {
            self.register(Register::Gpr(gpr_at(instruction, 0)))
        } else {
            sign_extended_imm5(instruction)
        };
        let value = if opcode_of(instruction) == 0b0001 {
            source_1.wrapping_add(source_2)
        } else {
            source_1 & source_2
        };
        self.write_register(destination, value)
    }

    /// BR: taken only when an n/z/p bit of the instruction matches the
    /// condition code held in the status register.
    pub open spec fn execute_branch(self, instruction: u16) -> Lc3State {
        let taken = ((instruction >> 11) & 1 == 1 && self.condition_code()
            == ConditionCode::Negative) || ((instruction >> 10) & 1 == 1 && self.condition_code()
            == ConditionCode::Zero) || ((instruction >> 9) & 1 == 1 && self.condition_code()
            == ConditionCode::Positive);
        if taken {
            self.write_register(
                Register::ProgramCounter,
                page_address(self.program_counter, instruction),
            )
        } else {
            self
        }
    }

    /// JMP and JSR, page-relative or through a register; the subroutine
    /// forms first save the program counter into R7.
    pub open spec fn execute_jump(self, instruction: u16) -> Lc3State {
        let saved = if (instruction >> 11) & 1 == 1 {
            self.write_register(Register::Gpr(Gpr::R7), self.register(Register::ProgramCounter))
        } else {
            self
        };
        let address = if opcode_of(instruction) == 0b0100 {
            page_address(saved.program_counter, instruction)
        } else {
            saved.register(Register::Gpr(gpr_at(instruction, 6))).wrapping_add(
                offset6(instruction),
            )
        };
        saved.write_register(Register::ProgramCounter, address)
    }

    /// The load and store group: LD, LDI, LDR, LEA, ST, STI and STR.
    pub open spec fn execute_memory_operation(self, instruction: u16) -> Lc3State {
        let opcode = opcode_of(instruction);
        let register = Register::Gpr(gpr_at(instruction, 9));
        // Register-relative forms take their address from a register; the
        // page-relative forms combine the program counter with the page
        // offset, indirect forms dereference that address once.
        let through_register = opcode >> 1 == 0b011;
        let indirect = opcode >> 1 == 0b101;
        let addressed = if through_register {
            self
        } else if indirect {
            self.bus_read(page_address(self.program_counter, instruction))
        } else {
            self
        };
        let address = if through_register {
            self.register(Register::Gpr(gpr_at(instruction, 6))).wrapping_add(
                offset6(instruction),
            )
        } else if indirect {
            addressed.memory_data_register
        } else {
            page_address(self.program_counter, instruction)
        };
        if opcode & 1 == 1 {
            // The store forms write the register to memory.
            addressed.bus_write(address, addressed.register(register))
        } else if opcode == 0b1110 {
            // LEA stores the computed address itself.
            addressed.write_register(register, address)
        } else {
            // The load forms read memory into the register.
            let read = addressed.bus_read(address);
            read.write_register(register, read.memory_data_register)
        }
    }

    /// RTI: undo this machine's interrupt entry.  The return address sits
    /// on top of the stack R6 points at, the saved status word above it;
    /// both are popped (incrementing after each pop), the condition code in
    /// the popped status word is restored, then the program counter.
    pub open spec fn execute_return_from_interrupt(self) -> Lc3State {
        let stack_pointer = Register::Gpr(Gpr::R6);
        let popped_address = self.bus_read(self.register(stack_pointer));
        let address = popped_address.memory_data_register;
        let dropped_address = popped_address.write_register(
            stack_pointer,
            popped_address.register(stack_pointer).wrapping_add(1),
        );
        let popped_status = dropped_address.bus_read(dropped_address.register(stack_pointer));
        let status_word = popped_status.memory_data_register;
        let dropped_status = popped_status.write_register(
            stack_pointer,
            popped_status.register(stack_pointer).wrapping_add(1),
        );
        let restored = dropped_status.write_condition_code(condition_code_of_status(status_word));
        restored.write_register(Register::ProgramCounter, address)
    }

    /// Writing any general-purpose register leaves the condition code held
    /// in the status register consistent with the value just written — and
    /// the register holds that value — until the next general-purpose
    /// write; no read changes either.
    pub proof fn lemma_gpr_write_sets_condition_code(self, gpr: Gpr, data: u16)
        requires
            self.wf(),
        ensures
            self.write_register(Register::Gpr(gpr), data).condition_code() == condition_code_of(
                data,
            ),
            self.write_register(Register::Gpr(gpr), data).register(Register::Gpr(gpr)) == data,
    {
        lemma_status_condition_update(
            self.processor_status_register,
            condition_pattern(condition_code_of(data)),
        );
    }

    /// Interrupt entry.  An interrupt whose priority (bits 8 to 10 of the
    /// descriptor) is not strictly above the running priority is ignored
    /// outright.  Otherwise the machine saves the status register, takes
    /// the new priority in supervisor mode, swaps in the supervisor stack
    /// pointer if it was in user mode, pushes the saved status word and the
    /// program counter (decrementing R6 before each push), and vectors
    /// through the table at 0x0100.
    pub open spec fn interrupt(self, data: u16) -> Lc3State {
        if (data >> 8) & 0b111 <= (self.processor_status_register >> 8) & 0b111 {
            self
        } else {
            let saved_status = self.processor_status_register;
            let raised = self.write_register(
                Register::ProcessorStatusRegister,
                (saved_status & 0x78ff) | (data & 0x0700),
            );
            let stack_pointer = Register::Gpr(Gpr::R6);
            let swapped = if saved_status >> 15 == 1 {
                let remembered = Lc3State { saved_usp: raised.register(stack_pointer), ..raised };
                remembered.write_register(stack_pointer, remembered.saved_ssp)
            } else {
                raised
            };
            let bumped_once = swapped.write_register(
                stack_pointer,
                swapped.register(stack_pointer).wrapping_sub(1),
            );
            let pushed_status = bumped_once.bus_write(
                bumped_once.register(stack_pointer),
                saved_status,
            );
            let bumped_twice = pushed_status.write_register(
                stack_pointer,
                pushed_status.register(stack_pointer).wrapping_sub(1),
            );
            let pushed_counter = bumped_twice.bus_write(
                bumped_twice.register(stack_pointer),
                bumped_twice.register(Register::ProgramCounter),
            );
            let vectored = pushed_counter.bus_read(0x0100 | (data & 0x00ff));
            vectored.write_register(Register::ProgramCounter, vectored.memory_data_register)
        }
    }
}

} // verus!
