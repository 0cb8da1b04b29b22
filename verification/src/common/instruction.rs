//! Decoding helpers for the fixed 16-bit instruction encoding shared by the
//! two architectures: the top 4 bits select the opcode, the remaining bits
//! are opcode-specific register, immediate and offset fields.
use vstd::prelude::*;

use crate::common::gpr::{gpr_of_index, Gpr};

verus! {

/// The opcode of an instruction word: its top 4 bits.
pub open spec fn opcode_of(instruction: u16) -> u16 {
    instruction >> 12
}

/// The general-purpose register named by the 3-bit field that starts at the
/// given bit offset.
pub open spec fn gpr_at(instruction: u16, offset: u16) -> Gpr {
    gpr_of_index(((instruction >> offset) & 0b111) as int)
}

/// The page-relative effective address: the high 7 bits of the program
/// counter combined with the 9-bit page offset of the instruction.
pub open spec fn page_address(program_counter: u16, instruction: u16) -> u16 {
    (((program_counter & 0xfe00) + (instruction & 0x01ff))) as u16
}

/// The 6-bit offset field of register-relative addressing.
pub open spec fn offset6(instruction: u16) -> u16 {
    instruction & 0x003f
}

/// The 5-bit immediate field, sign-extended to 16 bits.
pub open spec fn sign_extended_imm5(instruction: u16) -> u16 {
    if (instruction & 0b11111) >> 4 & 1 == 1 {
        (instruction & 0b11111) | 0xffe0
    } else {
        instruction & 0b11111
    }
}

/// The trap vector of a TRAP instruction: its low byte.
pub open spec fn trap_vector(instruction: u16) -> u16 {
    instruction & 0x00ff
}

/// Masking keeps a value at or below its mask, so a page-relative address
/// fits in 16 bits.
pub proof fn lemma_page_address_bounds(program_counter: u16, instruction: u16)
    by (bit_vector)
    ensures
        program_counter & 0xfe00 <= 0xfe00,
        instruction & 0x01ff <= 0x01ff,
{
}

/// A 3-bit field selects one of eight registers.
pub proof fn lemma_three_bit_field(instruction: u16, offset: u16)
    by (bit_vector)
    requires
        offset < 16,
    ensures
        (instruction >> offset) & 0b111 < 8,
{
}

/// Executable twin of [`gpr_at`].
pub fn gpr_from_instruction(instruction: u16, offset: u16) -> (gpr: Gpr)
    requires
        offset < 16,
    ensures
        gpr == gpr_at(instruction, offset),
{
    proof {
        lemma_three_bit_field(instruction, offset);
    }
    let field = (instruction >> offset) & 0b111;
    if field == 0 {
        Gpr::R0
    } else if field == 1 {
        Gpr::R1
    } else if field == 2 {
        Gpr::R2
    } else if field == 3 {
        Gpr::R3
    } else if field == 4 {
        Gpr::R4
    } else if field == 5 {
        Gpr::R5
    } else if field == 6 {
        Gpr::R6
    } else {
        Gpr::R7
    }
}

/// Executable twin of [`page_address`].
pub fn page_address_of(program_counter: u16, instruction: u16) -> (address: u16)
    ensures
        address == page_address(program_counter, instruction),
{
    proof {
        lemma_page_address_bounds(program_counter, instruction);
    }
    (program_counter & 0xfe00) + (instruction & 0x01ff)
}

/// Executable twin of [`sign_extended_imm5`].
pub fn sign_extend_imm5(instruction: u16) -> (immediate: u16)
    ensures
        immediate == sign_extended_imm5(instruction),
{
    let field = instruction & 0b11111;
    if (field >> 4) & 1 == 1 {
        field | 0xffe0
    } else {
        field
    }
}

} // verus!
