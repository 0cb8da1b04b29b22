//! The packing of byte images into 16-bit memory words.
//!
//! A binary image is a run of bytes loaded into consecutive cells: bytes are
//! paired big-endian (first byte high), and an odd trailing byte becomes the
//! high half of one last cell whose low half is zero.
use vstd::prelude::*;

verus! {

/// How many cells a run of `len` bytes fills.
pub open spec fn cell_count(len: nat) -> nat {
    (len + 1) / 2
}

/// The word that cell number `cell` of an image receives.
pub open spec fn packed_word(bytes: Seq<u8>, cell: int) -> u16 {
    if 2 * cell + 1 < bytes.len() {
        ((bytes[2 * cell] as u16) << 8) | (bytes[2 * cell + 1] as u16)
    } else {
        (bytes[2 * cell] as u16) << 8
    }
}

/// Memory after an image is loaded at `start_address`: the image's cells
/// hold the packed words, every other cell is untouched.
pub open spec fn loaded_memory(memory: Seq<u16>, start_address: u16, bytes: Seq<u8>) -> Seq<u16> {
    Seq::new(
        memory.len(),
        |address: int|
            if start_address <= address < start_address + cell_count(bytes.len()) {
                packed_word(bytes, address - start_address)
            } else {
                memory[address]
            },
    )
}

} // verus!
