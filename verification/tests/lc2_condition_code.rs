use std::rc::Rc;
use std::sync::atomic::{AtomicU16, Ordering};

use architectures::lc2::{ConditionCode, Gpr, Lc2, Register};
use architectures::{Watcher, WatcherType};

/// Stores every condition code it sees, encoded as a 16-bit word.
struct CodeToValue {
    value: Rc<AtomicU16>,
}

impl Watcher for CodeToValue {
    fn on_data(&self, _data: u16) {}

    fn on_condition_code(&self, new_value: ConditionCode) {
        self.value.store(u16::from(new_value), Ordering::Relaxed);
    }
}

#[test]
fn get_and_set() {
    let mut cpu: Lc2 = Lc2::new(0x3000);

    cpu.set_condition_code(&ConditionCode::from(!5 + 1));
    assert_eq!(cpu.get_condition_code(), ConditionCode::Negative);

    cpu.set_condition_code(&ConditionCode::from(0));
    assert_eq!(cpu.get_condition_code(), ConditionCode::Zero);

    cpu.set_condition_code(&ConditionCode::from(5));
    assert_eq!(cpu.get_condition_code(), ConditionCode::Positive);
}

#[test]
fn set_through_gpr() {
    let mut cpu: Lc2 = Lc2::new(0x3000);

    // In order:
    //  - Add 1 to R0 to make the Condition Code positive
    //  - And R0 with 0 to make the Condition Code zero
    //  - Add -1 to R0 to make the Condition Code negative
    cpu.set_memory(0x3000, 0b0001_000_000_1_00001); // ADD R0, R0, #1
    cpu.set_memory(0x3001, 0b0101_000_000_1_00000); // AND R0, R0, #0
    cpu.set_memory(0x3002, 0b0001_000_000_1_11111); // ADD R0, R0, #-1

    cpu.step_instruction();
    assert_eq!(cpu.get_condition_code(), ConditionCode::Positive);

    cpu.step_instruction();
    assert_eq!(cpu.get_condition_code(), ConditionCode::Zero);

    cpu.step_instruction();
    assert_eq!(cpu.get_condition_code(), ConditionCode::Negative);
}

#[test]
fn watcher_on_write() {
    // Create a new LC2 and an atomic u16 to store the watcher results
    let mut cpu: Lc2<CodeToValue> = Lc2::new(0x3000);
    let value = Rc::new(AtomicU16::new(0));

    // Create a watcher that transforms the Condition Code into a u16
    let value_watcher = value.clone();
    cpu.add_condition_code_watcher(WatcherType::OnWrite, CodeToValue { value: value_watcher });

    // Change the state of the Condition Code
    cpu.set_memory(0x3000, 0b0001_000_000_1_00001); // ADD R0, R0, #1

    // Check if the watcher has been called
    cpu.step_instruction();
    assert_eq!(value.load(Ordering::Relaxed), 1);

    // Remove the watcher and assert that nothing changes
    cpu.remove_condition_code_watcher(WatcherType::OnWrite);
    cpu.set_memory(0x3001, 0b0001_000_000_1_11110); // ADD R0, R0, #-2
    cpu.step_instruction();
    assert_eq!(value.load(Ordering::Relaxed), 1);
}

#[test]
fn watcher_on_read() {
    // Create a new LC2 and an atomic u16 to store the watcher results
    let mut cpu: Lc2<CodeToValue> = Lc2::new(0x3000);
    let value = Rc::new(AtomicU16::new(0));

    // Create a watcher that transforms the Condition Code into a u16
    let value_watcher = value.clone();
    cpu.add_condition_code_watcher(WatcherType::OnRead, CodeToValue { value: value_watcher });

    // Set the Condition Code
    cpu.set_memory(0x3000, 0b0001_000_000_1_00001); // ADD R0, R0, #1

    // Check that the watcher has NOT been called
    cpu.step_instruction();
    assert_eq!(value.load(Ordering::Relaxed), 0);

    // Get the Condition Code
    let _ = cpu.get_condition_code();

    // Check that the watcher has been called
    assert_eq!(value.load(Ordering::Relaxed), 1);

    // Remove the watcher and assert that nothing changes
    cpu.remove_condition_code_watcher(WatcherType::OnRead);
    cpu.set_memory(0x3001, 0b0001_000_000_1_11110); // ADD R0, R0, #-2
    cpu.step_instruction();
    let _ = cpu.get_condition_code();
    assert_eq!(value.load(Ordering::Relaxed), 1);
}

#[test]
fn gpr_write_keeps_register_and_code_consistent() {
    let mut cpu: Lc2 = Lc2::new(0x3000);

    for (value, expected) in [
        (0x0001, ConditionCode::Positive),
        (0x7fff, ConditionCode::Positive),
        (0x0000, ConditionCode::Zero),
        (0x8000, ConditionCode::Negative),
        (0xffff, ConditionCode::Negative),
    ] {
        cpu.set_register(&Register::Gpr(Gpr::R3), value);

        // The condition code stays consistent with the value just written
        // across repeated reads, until the next general-purpose write.
        assert_eq!(cpu.get_register(&Register::Gpr(Gpr::R3)), value);
        assert_eq!(cpu.get_condition_code(), expected);
        assert_eq!(cpu.get_condition_code(), expected);

        // A special-register write leaves the condition code alone.
        cpu.set_register(&Register::MemoryDataRegister, 0);
        assert_eq!(cpu.get_condition_code(), expected);
    }
}
