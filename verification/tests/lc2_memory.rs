use std::rc::Rc;
use std::sync::atomic::{AtomicU16, Ordering};

use architectures::lc2::{Lc2, Register};
use architectures::common::ConditionCode;
use architectures::Watcher;

/// Stores the bitwise negation of every word it sees.
struct NotValue {
    value: Rc<AtomicU16>,
}

impl Watcher for NotValue {
    fn on_data(&self, new_value: u16) {
        self.value.store(!new_value, Ordering::Relaxed);
    }

    fn on_condition_code(&self, _condition_code: ConditionCode) {}
}

#[test]
fn memory_get_and_set() {
    let mut cpu: Lc2 = Lc2::new(0x3000);

    // For every address...
    for address in 0..2_usize.pow(16) {
        let address = address as u16;

        // Set the memory address
        cpu.set_memory(address, !address);

        // Check if the memory has been set
        assert_eq!(cpu.get_memory(address), !address);
    }
}

#[test]
fn load_bytes() {
    let mut cpu: Lc2 = Lc2::new(0x3000);
    cpu.load_bytes(0x6000, &[1, 2, 3, 4, 5]).unwrap();

    assert_eq!(cpu.get_memory(0x6000), 0x0102);
    assert_eq!(cpu.get_memory(0x6001), 0x0304);
    assert_eq!(cpu.get_memory(0x6002), 0x0500);
}

#[test]
fn load_bytes_fails() {
    let mut cpu: Lc2 = Lc2::new(0x3000);

    assert_eq!(
        cpu.load_bytes(0xffff, &[1, 2]),
        Err("The array of byte is too big")
    );
}

#[test]
fn load_bytes_fails_leaves_memory_unchanged() {
    let mut cpu: Lc2 = Lc2::new(0x3000);
    cpu.set_memory(0xffff, 0x1234);

    assert!(cpu.load_bytes(0xffff, &[1, 2]).is_err());
    assert_eq!(cpu.get_memory(0xffff), 0x1234);
}

#[test]
fn load_bytes_empty() {
    let mut cpu: Lc2 = Lc2::new(0x3000);
    cpu.set_memory(0x6000, 0x4242);

    cpu.load_bytes(0x6000, &[]).unwrap();
    assert_eq!(cpu.get_memory(0x6000), 0x4242);
}

#[test]
fn load_bytes_at_boundary() {
    let mut cpu: Lc2 = Lc2::new(0x3000);

    // One cell ending exactly at the last address the bound admits.
    cpu.load_bytes(0xfffe, &[0xab, 0xcd]).unwrap();
    assert_eq!(cpu.get_memory(0xfffe), 0xabcd);

    // One byte more pushes past the bound.
    assert!(cpu.load_bytes(0xfffe, &[1, 2, 3]).is_err());
}

#[test]
fn load_bytes_restores_bus_registers() {
    let mut cpu: Lc2 = Lc2::new(0x3000);
    cpu.set_memory(0x1234, 0x5678);

    cpu.load_bytes(0x6000, &[1, 2, 3]).unwrap();
    assert_eq!(cpu.get_register(&Register::MemoryAddressRegister), 0x1234);
    assert_eq!(cpu.get_register(&Register::MemoryDataRegister), 0x5678);
}

#[test]
fn memory_watchers() {
    // Create a new LC2 and an atomic u16 to store the watcher results
    let mut cpu: Lc2<NotValue> = Lc2::new(0x3000);
    let value = Rc::new(AtomicU16::new(0));

    // For every address...
    for address in 0..2_usize.pow(16) {
        let address = address as u16;

        // Create a watcher that negates the value in memory
        let value_watcher = value.clone();
        cpu.add_memory_watcher(address, NotValue { value: value_watcher });

        // Set the memory address
        cpu.set_memory(address, address);

        // Check if the watcher has been called
        assert_eq!(value.load(Ordering::Relaxed), !address);

        // Remove the watcher and assert that nothing changes
        cpu.remove_memory_watcher(address);
        cpu.set_memory(address, u16::from(address == 0));
        assert_eq!(value.load(Ordering::Relaxed), !address);
    }
}

#[test]
fn memory_watcher_replaced_by_new_one() {
    let mut cpu: Lc2<NotValue> = Lc2::new(0x3000);
    let first = Rc::new(AtomicU16::new(0));
    let second = Rc::new(AtomicU16::new(0));

    cpu.add_memory_watcher(0x4000, NotValue { value: first.clone() });
    cpu.add_memory_watcher(0x4000, NotValue { value: second.clone() });

    // Only the replacement fires.
    cpu.set_memory(0x4000, 7);
    assert_eq!(first.load(Ordering::Relaxed), 0);
    assert_eq!(second.load(Ordering::Relaxed), !7);
}
