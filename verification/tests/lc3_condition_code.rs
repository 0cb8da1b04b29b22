use architectures::lc3::{ConditionCode, Lc3};

#[test]
fn condition_code_get_and_set() {
    let mut cpu: Lc3 = Lc3::new(0x3000);

    cpu.set_condition_code(&ConditionCode::from(!5 + 1));
    assert_eq!(cpu.get_condition_code(), ConditionCode::Negative);

    cpu.set_condition_code(&ConditionCode::from(0));
    assert_eq!(cpu.get_condition_code(), ConditionCode::Zero);

    cpu.set_condition_code(&ConditionCode::from(5));
    assert_eq!(cpu.get_condition_code(), ConditionCode::Positive);
}
