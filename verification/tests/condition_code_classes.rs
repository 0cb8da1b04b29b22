use architectures::common::{ConditionCode, Gpr};

#[test]
fn derive_condition_code_classes() {
    // Zero exactly for the zero word.
    assert_eq!(ConditionCode::from(0u16), ConditionCode::Zero);

    // Negative exactly when bit 15 is set.
    for value in [0x8000u16, 0x8001, 0xabcd, 0xffff] {
        assert_ne!(value & 0x8000, 0);
        assert_eq!(ConditionCode::from(value), ConditionCode::Negative);
    }

    // Positive for everything else.
    for value in [0x0001u16, 0x0042, 0x7fff] {
        assert_eq!(value & 0x8000, 0);
        assert_eq!(ConditionCode::from(value), ConditionCode::Positive);
    }
}

#[test]
fn condition_code_encoding() {
    assert_eq!(u16::from(ConditionCode::Negative), 0x8000);
    assert_eq!(u16::from(ConditionCode::Zero), 0x0000);
    assert_eq!(u16::from(ConditionCode::Positive), 0x0001);
}

#[test]
fn condition_code_round_trip() {
    for code in [
        ConditionCode::Negative,
        ConditionCode::Zero,
        ConditionCode::Positive,
    ] {
        assert_eq!(ConditionCode::from(u16::from(code)), code);
    }
}

#[test]
fn condition_code_default_is_zero() {
    assert_eq!(ConditionCode::default(), ConditionCode::Zero);
}

#[test]
fn gpr_index_round_trip() {
    for index in 0..8usize {
        let gpr = Gpr::try_from(index).unwrap();
        assert_eq!(u8::from(gpr) as usize, index);
    }
}
