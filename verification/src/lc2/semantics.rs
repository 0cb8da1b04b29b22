//! The mathematical model of the simpler architecture: its machine state as
//! a ghost structure, and the meaning of every operation — bus accesses,
//! register writes, one instruction step, one interrupt entry — as pure
//! functions from state to state.
//!
//! The executable machine in the parent module is proved to follow these
//! functions exactly.
use vstd::prelude::*;

use crate::common::condition_code::{condition_code_bits, condition_code_of, ConditionCode};
use crate::common::instruction::{
    gpr_at, offset6, opcode_of, page_address, sign_extended_imm5, trap_vector,
};
use crate::common::Gpr;
use crate::lc2::registers::Register;

verus! {

/// The observable state of the simpler machine: memory, the register file,
/// and the condition code.
#[verifier::ext_equal]
pub ghost struct Lc2State {
    pub memory: Seq<u16>,
    pub general_purpose_register: Seq<u16>,
    pub condition_code: ConditionCode,
    pub program_counter: u16,
    pub instruction_register: u16,
    pub memory_address_register: u16,
    pub memory_data_register: u16,
}

impl Lc2State {
    /// The shape every reachable state has: 2^16 memory cells and 8
    /// general-purpose registers.
    pub open spec fn wf(self) -> bool {
        self.memory.len() == 0x10000 && self.general_purpose_register.len() == 8
    }

    /// The state a fresh machine starts in: everything zero but for the
    /// program counter.
    pub open spec fn initial(initial_address: u16) -> Lc2State {
        Lc2State {
            memory: Seq::new(0x10000, |address: int| 0u16),
            general_purpose_register: Seq::new(8, |index: int| 0u16),
            condition_code: ConditionCode::Zero,
            program_counter: initial_address,
            instruction_register: 0,
            memory_address_register: 0,
            memory_data_register: 0,
        }
    }

    /// The word stored at an address.
    pub open spec fn memory_at(self, address: u16) -> u16 {
        self.memory[address as int]
    }

    /// The value a register holds.
    pub open spec fn register(self, register: Register) -> u16 {
        match register {
            Register::Gpr(gpr) => self.general_purpose_register[gpr.as_index()],
            Register::ProgramCounter => self.program_counter,
            Register::InstructionRegister => self.instruction_register,
            Register::MemoryAddressRegister => self.memory_address_register,
            Register::MemoryDataRegister => self.memory_data_register,
        }
    }

    /// A bus read: the memory address register latches the address, the
    /// memory data register latches the word read.  No cell changes.
    pub open spec fn bus_read(self, address: u16) -> Lc2State {
        Lc2State {
            memory_address_register: address,
            memory_data_register: self.memory[address as int],
            ..self
        }
    }

    /// A bus write: the two bus registers latch the transfer and the cell
    /// takes the word.
    pub open spec fn bus_write(self, address: u16, data: u16) -> Lc2State {
        Lc2State {
            memory: self.memory.update(address as int, data),
            memory_address_register: address,
            memory_data_register: data,
            ..self
        }
    }

    /// A condition-code write.
    pub open spec fn write_condition_code(self, condition_code: ConditionCode) -> Lc2State {
        Lc2State { condition_code, ..self }
    }

    /// A register write.  Writing a general-purpose register first derives
    /// the condition code from the value written; every other register takes
    /// the value verbatim.
    pub open spec fn write_register(self, register: Register, data: u16) -> Lc2State {
        match register {
            Register::Gpr(gpr) => {
                let updated = self.write_condition_code(condition_code_of(data));
                Lc2State {
                    general_purpose_register: updated.general_purpose_register.update(
                        gpr.as_index(),
                        data,
                    ),
                    ..updated
                }
            },
            Register::ProgramCounter => Lc2State { program_counter: data, ..self },
            Register::InstructionRegister => Lc2State { instruction_register: data, ..self },
            Register::MemoryAddressRegister => Lc2State { memory_address_register: data, ..self },
            Register::MemoryDataRegister => Lc2State { memory_data_register: data, ..self },
        }
    }

    /// One full instruction: fetch the word the program counter points at,
    /// latch it in the instruction register, advance the program counter,
    /// then execute per the instruction table.
    pub open spec fn step(self) -> Lc2State {
        let fetched = self.bus_read(self.program_counter);
        let instruction = fetched.memory_data_register;
        let latched = fetched.write_register(Register::InstructionRegister, instruction);
        let ready = latched.write_register(
            Register::ProgramCounter,
            latched.program_counter.wrapping_add(1),
        );
        ready.execute(instruction)
    }

    /// The instruction table: what one decoded instruction does to the state
    /// after fetch.
    pub open spec fn execute(self, instruction: u16) -> Lc2State {
        let opcode = opcode_of(instruction);
        if opcode == 0b0001 || opcode == 0b0101 {
            self.execute_arithmetic(instruction)
        } else if opcode == 0b0000 {
            self.execute_branch(instruction)
        } else if opcode == 0b0100 || opcode == 0b1100 {
            self.execute_jump(instruction)
        } else if opcode == 0b0010 || opcode == 0b1010 || opcode == 0b0110 || opcode == 0b1110
            || opcode == 0b0011 || opcode == 0b1011 || opcode == 0b0111 {
            self.execute_memory_operation(instruction)
        } else if opcode == 0b1001 {
            // NOT
            self.write_register(
                Register::Gpr(gpr_at(instruction, 9)),
                !self.register(Register::Gpr(gpr_at(instruction, 6))),
            )
        } else if opcode == 0b1101 {
            // RET
            self.write_register(Register::ProgramCounter, self.register(Register::Gpr(Gpr::R7)))
        } else if opcode == 0b1000 {
            self.execute_return_from_interrupt()
        } else if opcode == 0b1111 {
            // TRAP
            let saved = self.write_register(
                Register::Gpr(Gpr::R7),
                self.register(Register::ProgramCounter),
            );
            let vectored = saved.bus_read(trap_vector(instruction));
            vectored.write_register(Register::ProgramCounter, vectored.memory_data_register)
        } else {
            // A 4-bit opcode covers the table; no other value can decode.
            self
        }
    }

    /// ADD and AND, with a register or a sign-extended immediate as the
    /// second operand; the destination write derives the condition code.
    pub open spec fn execute_arithmetic(self, instruction: u16) -> Lc2State {
        let destination = Register::Gpr(gpr_at(instruction, 9));
        let source_1 = self.register(Register::Gpr(gpr_at(instruction, 6)));
        let source_2 = if (instruction >> 5) & 1 == 0 {
            self.register(Register::Gpr(gpr_at(instruction, 0)))
        } else {
            sign_extended_imm5(instruction)
        };
        let value = if opcode_of(instruction) == 0b0001 {
            source_1.wrapping_add(source_2)
        } else {
            source_1 & source_2
        };
        self.write_register(destination, value)
    }

    /// BR: taken only when an n/z/p bit of the instruction matches the
    /// current condition code; the target is page-relative.
    pub open spec fn execute_branch(self, instruction: u16) -> Lc2State {
        let taken = ((instruction >> 11) & 1 == 1 && self.condition_code
            == ConditionCode::Negative) || ((instruction >> 10) & 1 == 1 && self.condition_code
            == ConditionCode::Zero) || ((instruction >> 9) & 1 == 1 && self.condition_code
            == ConditionCode::Positive);
        if taken {
            self.write_register(
                Register::ProgramCounter,
                page_address(self.program_counter, instruction),
            )
        } else {
            self
        }
    }

    /// JMP and JSR, page-relative or through a register; the subroutine
    /// forms first save the program counter into R7.
    pub open spec fn execute_jump(self, instruction: u16) -> Lc2State {
        let saved = if (instruction >> 11) & 1 == 1 {
            self.write_register(Register::Gpr(Gpr::R7), self.register(Register::ProgramCounter))
        } else {
            self
        };
        let address = if opcode_of(instruction) == 0b0100 {
            page_address(saved.program_counter, instruction)
        } else {
            saved.register(Register::Gpr(gpr_at(instruction, 6))).wrapping_add(
                offset6(instruction),
            )
        };
        saved.write_register(Register::ProgramCounter, address)
    }

    /// The load and store group: LD, LDI, LDR, LEA, ST, STI and STR.
    pub open spec fn execute_memory_operation(self, instruction: u16) -> Lc2State {
        let opcode = opcode_of(instruction);
        let register = Register::Gpr(gpr_at(instruction, 9));
        // Register-relative forms take their address from a register; the
        // page-relative forms combine the program counter with the page
        // offset, indirect forms dereference that address once.
        let through_register = opcode >> 1 == 0b011;
        let indirect = opcode >> 1 == 0b101;
        let addressed = if through_register {
            self
        } else if indirect {
            self.bus_read(page_address(self.program_counter, instruction))
        } else {
            self
        };
        let address = if through_register {
            self.register(Register::Gpr(gpr_at(instruction, 6))).wrapping_add(
                offset6(instruction),
            )
        } else if indirect {
            addressed.memory_data_register
        } else {
            page_address(self.program_counter, instruction)
        };
        if opcode & 1 == 1 {
            // The store forms write the register to memory.
            addressed.bus_write(address, addressed.register(register))
        } else if opcode == 0b1110 {
            // LEA stores the computed address itself.
            addressed.write_register(register, address)
        } else {
            // The load forms read memory into the register.
            let read = addressed.bus_read(address);
            read.write_register(register, read.memory_data_register)
        }
    }

    /// RTI: pop the condition code, then the return address, from the stack
    /// R6 points at, decrementing after each pop.
    pub open spec fn execute_return_from_interrupt(self) -> Lc2State {
        let stack_pointer = Register::Gpr(Gpr::R6);
        let popped_code = self.bus_read(self.register(stack_pointer));
        let code_value = popped_code.memory_data_register;
        let dropped_code = popped_code.write_register(
            stack_pointer,
            popped_code.register(stack_pointer).wrapping_sub(1),
        );
        let popped_address = dropped_code.bus_read(dropped_code.register(stack_pointer));
        let address = popped_address.memory_data_register;
        let dropped_address = popped_address.write_register(
            stack_pointer,
            popped_address.register(stack_pointer).wrapping_sub(1),
        );
        let restored = dropped_address.write_condition_code(condition_code_of(code_value));
        restored.write_register(Register::ProgramCounter, address)
    }

    /// Writing any general-purpose register leaves the condition code
    /// consistent with the value just written — and the register holds that
    /// value — until the next general-purpose write; no read changes
    /// either.
    pub proof fn lemma_gpr_write_sets_condition_code(self, gpr: Gpr, data: u16)
        requires
            self.wf(),
        ensures
            self.write_register(Register::Gpr(gpr), data).condition_code == condition_code_of(
                data,
            ),
            self.write_register(Register::Gpr(gpr), data).register(Register::Gpr(gpr)) == data,
    {
    }

    /// Interrupt entry: push the program counter, then the encoded condition
    /// code, onto the stack R6 points at (incrementing before each push),
    /// and jump to the routine address.
    pub open spec fn interrupt(self, routine_address: u16) -> Lc2State {
        let code_value = condition_code_bits(self.condition_code);
        let stack_pointer = Register::Gpr(Gpr::R6);
        let bumped_once = self.write_register(
            stack_pointer,
            self.register(stack_pointer).wrapping_add(1),
        );
        let pushed_counter = bumped_once.bus_write(
            bumped_once.register(stack_pointer),
            bumped_once.register(Register::ProgramCounter),
        );
        let bumped_twice = pushed_counter.write_register(
            stack_pointer,
            pushed_counter.register(stack_pointer).wrapping_add(1),
        );
        let pushed_code = bumped_twice.bus_write(bumped_twice.register(stack_pointer), code_value);
        pushed_code.write_register(Register::ProgramCounter, routine_address)
    }
}

} // verus!
