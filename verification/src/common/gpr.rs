//! The eight general-purpose register names shared by both architectures.
use vstd::prelude::*;

verus! {

/// One of the eight general-purpose registers.
#[derive(Clone, Copy, Debug, PartialEq, Eq, Structural)]
pub enum Gpr {
    R0,
    R1,
    R2,
    R3,
    R4,
    R5,
    R6,
    R7,
}

/// The general-purpose register selected by an index between 0 and 7.
pub open spec fn gpr_of_index(index: int) -> Gpr {
    if index == 0 {
        Gpr::R0
    } else if index == 1 {
        Gpr::R1
    } else if index == 2 {
        Gpr::R2
    } else if index == 3 {
        Gpr::R3
    } else if index == 4 {
        Gpr::R4
    } else if index == 5 {
        Gpr::R5
    } else if index == 6 {
        Gpr::R6
    } else {
        Gpr::R7
    }
}

impl Gpr {
    /// The index of this register in the register file, between 0 and 7.
    pub open spec fn as_index(self) -> int {
        match self {
            Gpr::R0 => 0,
            Gpr::R1 => 1,
            Gpr::R2 => 2,
            Gpr::R3 => 3,
            Gpr::R4 => 4,
            Gpr::R5 => 5,
            Gpr::R6 => 6,
            Gpr::R7 => 7,
        }
    }

    /// Executable twin of [`Self::as_index`].
    pub fn index(&self) -> (index: usize)
        ensures
            index == self.as_index(),
    {
        match self {
            Gpr::R0 => 0,
            Gpr::R1 => 1,
            Gpr::R2 => 2,
            Gpr::R3 => 3,
            Gpr::R4 => 4,
            Gpr::R5 => 5,
            Gpr::R6 => 6,
            Gpr::R7 => 7,
        }
    }
}

impl TryFrom<usize> for Gpr {
    type Error = &'static str;

    /// The register with the given index; an error for indices above 7.
    fn try_from(value: usize) -> (result: Result<Self, Self::Error>) {
        match value {
            0 => Ok(Gpr::R0),
            1 => Ok(Gpr::R1),
            2 => Ok(Gpr::R2),
            3 => Ok(Gpr::R3),
            4 => Ok(Gpr::R4),
            5 => Ok(Gpr::R5),
            6 => Ok(Gpr::R6),
            7 => Ok(Gpr::R7),
            _ => Err("Only numbers between 0 and 7 can be converted into registers!"),
        }
    }
}

impl vstd::std_specs::convert::TryFromSpecImpl<usize> for Gpr {
    open spec fn obeys_try_from_spec() -> bool {
        true
    }

    open spec fn try_from_spec(value: usize) -> Result<Gpr, &'static str> {
        if value < 8 {
            Ok(gpr_of_index(value as int))
        } else {
            Err("Only numbers between 0 and 7 can be converted into registers!")
        }
    }
}

impl From<Gpr> for u8 {
    /// The index of a general-purpose register, between 0 and 7.
    fn from(value: Gpr) -> (index: Self) {
        match value {
            Gpr::R0 => 0,
            Gpr::R1 => 1,
            Gpr::R2 => 2,
            Gpr::R3 => 3,
            Gpr::R4 => 4,
            Gpr::R5 => 5,
            Gpr::R6 => 6,
            Gpr::R7 => 7,
        }
    }
}

impl vstd::std_specs::convert::FromSpecImpl<Gpr> for u8 {
    open spec fn obeys_from_spec() -> bool {
        true
    }

    open spec fn from_spec(value: Gpr) -> u8 {
        value.as_index() as u8
    }
}

} // verus!
