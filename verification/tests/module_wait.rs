use libdopamine::errors::ErrorType;
use libdopamine::module::{ModuleEvent, ModuleOp, ModuleWait, INITIAL_MODULE_SLOTS, STILL_ACTIVE};

fn target() -> Vec<u8> {
    b"payload.dll".to_vec()
}

#[test]
fn module_wait_starts_by_enumerating() {
    let (_machine, op) = ModuleWait::new(target());
    assert!(matches!(op, ModuleOp::Enumerate { slots: INITIAL_MODULE_SLOTS }));
}

#[test]
fn still_active_failure_is_transient() {
    let (mut machine, _) = ModuleWait::new(target());
    // Enumeration failed but the target still runs: retry, same capacity.
    let op = machine.step(ModuleEvent::EnumerationFailed { exit_status: Some(STILL_ACTIVE) });
    assert!(matches!(op, ModuleOp::Enumerate { slots: 128 }));
}

#[test]
fn unknown_exit_status_is_transient() {
    let (mut machine, _) = ModuleWait::new(target());
    // Even the exit status query failed: keep polling.
    let op = machine.step(ModuleEvent::EnumerationFailed { exit_status: None });
    assert!(matches!(op, ModuleOp::Enumerate { slots: 128 }));
}

#[test]
fn terminated_process_ends_the_wait() {
    let (mut machine, _) = ModuleWait::new(target());
    let op = machine.step(ModuleEvent::EnumerationFailed { exit_status: Some(3) });
    match op {
        ModuleOp::Fail { error } => {
            assert_eq!(error.error_type, ErrorType::ProcessClosedError);
            assert_eq!(error.message, "process is no longer active, exit code 3");
        },
        _ => panic!("expected the wait to end"),
    }
}

#[test]
fn exit_code_zero_also_ends_the_wait() {
    let (mut machine, _) = ModuleWait::new(target());
    let op = machine.step(ModuleEvent::EnumerationFailed { exit_status: Some(0) });
    match op {
        ModuleOp::Fail { error } => {
            assert_eq!(error.error_type, ErrorType::ProcessClosedError);
            assert_eq!(error.message, "process is no longer active, exit code 0");
        },
        _ => panic!("expected the wait to end"),
    }
}

#[test]
fn module_buffer_doubles_when_filled() {
    let (mut machine, _) = ModuleWait::new(target());
    // 128 slots of 8 bytes all needed: double.
    let op = machine.step(ModuleEvent::Enumerated { needed_bytes: 1024 });
    assert!(matches!(op, ModuleOp::Enumerate { slots: 256 }));
}

#[test]
fn module_scan_skips_until_match() {
    let (mut machine, _) = ModuleWait::new(target());
    // Three modules reported (24 bytes of 8-byte handles).
    let op = machine.step(ModuleEvent::Enumerated { needed_bytes: 24 });
    assert!(matches!(op, ModuleOp::Probe { index: 0 }));
    // First name cannot be resolved: skipped without erroring.
    let op = machine.step(ModuleEvent::NameUnavailable);
    assert!(matches!(op, ModuleOp::Probe { index: 1 }));
    // Second resolves to another module.
    let op = machine.step(ModuleEvent::Named { raw: b"C:\\sys\\other.dll\0\0".to_vec() });
    assert!(matches!(op, ModuleOp::Probe { index: 2 }));
    // Third matches: hand back its slot and the trimmed resolved path.
    let op = machine.step(ModuleEvent::Named {
        raw: b"C:\\app\\payload.dll\0\0\0\0".to_vec(),
    });
    match op {
        ModuleOp::Finish { index, path } => {
            assert_eq!(index, 2);
            assert_eq!(path, b"C:\\app\\payload.dll".to_vec());
        },
        _ => panic!("expected a match"),
    }
}

#[test]
fn exhausted_module_pass_restarts() {
    let (mut machine, _) = ModuleWait::new(target());
    let op = machine.step(ModuleEvent::Enumerated { needed_bytes: 8 });
    assert!(matches!(op, ModuleOp::Probe { index: 0 }));
    let op = machine.step(ModuleEvent::Named { raw: b"C:\\sys\\other.dll\0".to_vec() });
    assert!(matches!(op, ModuleOp::Enumerate { slots: 128 }));
}

#[test]
fn empty_module_pass_restarts() {
    let (mut machine, _) = ModuleWait::new(target());
    let op = machine.step(ModuleEvent::Enumerated { needed_bytes: 0 });
    assert!(matches!(op, ModuleOp::Enumerate { slots: 128 }));
}
