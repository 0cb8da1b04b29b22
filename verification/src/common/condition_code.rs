//! The three-valued sign classifier kept by both architectures.
use vstd::prelude::*;

verus! {

/// Sign classification of the last value written to a general-purpose
/// register.
#[derive(Clone, Copy, Debug, PartialEq, Eq, Structural)]
pub enum ConditionCode {
    Negative,
    Zero,
    Positive,
}

/// The condition code derived from a 16-bit value: zero stays `Zero`, a set
/// sign bit (bit 15) gives `Negative`, anything else gives `Positive`.
pub open spec fn condition_code_of(value: u16) -> ConditionCode {
    if value == 0 {
        ConditionCode::Zero
    } else if value >= 0x8000 {
        ConditionCode::Negative
    } else {
        ConditionCode::Positive
    }
}

/// The 16-bit hardware encoding of a condition code: the most negative word
/// for `Negative`, zero for `Zero`, one for `Positive`.
pub open spec fn condition_code_bits(condition_code: ConditionCode) -> u16 {
    match condition_code {
        ConditionCode::Negative => 0x8000,
        ConditionCode::Zero => 0,
        ConditionCode::Positive => 0x0001,
    }
}

/// Deriving a condition code classifies exactly by the sign bit and by zero:
/// the result is `Negative` precisely when bit 15 of the value is set, `Zero`
/// precisely when the value is zero, and `Positive` otherwise.
pub proof fn lemma_condition_code_of_sign_bit(value: u16)
    ensures
        (condition_code_of(value) == ConditionCode::Negative) <==> (value & 0x8000 != 0),
        (condition_code_of(value) == ConditionCode::Zero) <==> (value == 0),
        (condition_code_of(value) == ConditionCode::Positive) <==> (value != 0 && value & 0x8000
            == 0),
{
    assert((value & 0x8000 != 0) <==> value >= 0x8000) by (bit_vector);
}

/// Encoding a condition code as its 16-bit pattern and deriving a code from
/// that pattern round-trips: every one of the three codes comes back
/// unchanged.
pub proof fn lemma_condition_code_round_trip(condition_code: ConditionCode)
    ensures
        condition_code_of(condition_code_bits(condition_code)) == condition_code,
{
}

impl ConditionCode {
    /// Executable twin of [`condition_code_of`].
    pub fn derive(value: u16) -> (condition_code: ConditionCode)
        ensures
            condition_code == condition_code_of(value),
    {
        if value == 0 {
            ConditionCode::Zero
        } else if value >= 0x8000 {
            ConditionCode::Negative
        } else {
            ConditionCode::Positive
        }
    }

    /// Executable twin of [`condition_code_bits`].
    pub fn bits(&self) -> (bits: u16)
        ensures
            bits == condition_code_bits(*self),
    {
        match self {
            ConditionCode::Negative => 0x8000,
            ConditionCode::Zero => 0,
            ConditionCode::Positive => 0x0001,
        }
    }
}

impl Default for ConditionCode {
    /// A machine comes up with the condition code `Zero`.
    fn default() -> (condition_code: Self)
        ensures
            condition_code == ConditionCode::Zero,
    {
        ConditionCode::Zero
    }
}

impl From<u16> for ConditionCode {
    /// Derives the condition code of a 16-bit value, as
    /// [`condition_code_of`] describes.
    fn from(value: u16) -> (condition_code: Self) {
        ConditionCode::derive(value)
    }
}

impl vstd::std_specs::convert::FromSpecImpl<u16> for ConditionCode {
    open spec fn obeys_from_spec() -> bool {
        true
    }

    open spec fn from_spec(value: u16) -> ConditionCode {
        condition_code_of(value)
    }
}

impl From<ConditionCode> for u16 {
    /// Encodes a condition code as its 16-bit hardware pattern, as
    /// [`condition_code_bits`] describes.
    fn from(condition_code: ConditionCode) -> (bits: Self) {
        condition_code.bits()
    }
}

impl vstd::std_specs::convert::FromSpecImpl<ConditionCode> for u16 {
    open spec fn obeys_from_spec() -> bool {
        true
    }

    open spec fn from_spec(condition_code: ConditionCode) -> u16 {
        condition_code_bits(condition_code)
    }
}

} // verus!
