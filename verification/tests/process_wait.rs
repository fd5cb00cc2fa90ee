use libdopamine::errors::ErrorType;
use libdopamine::process::{
    close_handle_error, ProcessEvent, ProcessOp, ProcessWait, INITIAL_PROCESS_SLOTS,
};

fn target() -> Vec<u8> {
    b"target.exe".to_vec()
}

#[test]
fn wait_starts_by_enumerating() {
    let (_machine, action) = ProcessWait::new(target());
    assert!(!action.close_probed);
    assert!(matches!(action.op, ProcessOp::Enumerate { slots: INITIAL_PROCESS_SLOTS }));
}

#[test]
fn full_buffer_doubles_and_retries() {
    let (mut machine, _) = ProcessWait::new(target());
    // 32 slots of 4 bytes were all needed: double and ask again.
    let action = machine.step(ProcessEvent::Enumerated {
        needed_bytes: 128,
        pids: vec![0; 32],
    });
    assert!(!action.close_probed);
    assert!(matches!(action.op, ProcessOp::Enumerate { slots: 64 }));
    // Still not enough: double again.
    let action = machine.step(ProcessEvent::Enumerated {
        needed_bytes: 300,
        pids: vec![0; 64],
    });
    assert!(matches!(action.op, ProcessOp::Enumerate { slots: 128 }));
}

#[test]
fn scan_probes_each_candidate_until_match() {
    let (mut machine, _) = ProcessWait::new(target());
    let mut pids = vec![0u32; 32];
    pids[0] = 10;
    pids[1] = 20;
    pids[2] = 30;
    // Three candidates reported (12 bytes of 4-byte ids).
    let action = machine.step(ProcessEvent::Enumerated { needed_bytes: 12, pids });
    assert!(!action.close_probed);
    assert!(matches!(action.op, ProcessOp::Probe { pid: 10 }));
    // First candidate cannot be opened: skipped, nothing to close.
    let action = machine.step(ProcessEvent::ProbeUnopened);
    assert!(!action.close_probed);
    assert!(matches!(action.op, ProcessOp::Probe { pid: 20 }));
    // Second opens but resolves to another name: close it and move on.
    let action = machine.step(ProcessEvent::ProbeName {
        raw: b"C:\\other\\wrong.exe\0\0".to_vec(),
    });
    assert!(action.close_probed);
    assert!(matches!(action.op, ProcessOp::Probe { pid: 30 }));
    // Third matches: hand it back, keeping its handle open.
    let action = machine.step(ProcessEvent::ProbeName {
        raw: b"C:\\dir\\target.exe\0\0\0".to_vec(),
    });
    assert!(!action.close_probed);
    assert!(matches!(action.op, ProcessOp::Finish { pid: 30 }));
}

#[test]
fn name_collision_by_prefix_is_not_a_match() {
    let (mut machine, _) = ProcessWait::new(target());
    let mut pids = vec![0u32; 32];
    pids[0] = 5;
    machine.step(ProcessEvent::Enumerated { needed_bytes: 4, pids });
    // The final component differs even though the name appears in the path.
    let action = machine.step(ProcessEvent::ProbeName {
        raw: b"C:\\target.exe\\setup.exe\0".to_vec(),
    });
    assert!(action.close_probed);
    assert!(matches!(action.op, ProcessOp::Enumerate { slots: 32 }));
}

#[test]
fn exhausted_pass_restarts_enumeration() {
    let (mut machine, _) = ProcessWait::new(target());
    let mut pids = vec![0u32; 32];
    pids[0] = 7;
    pids[1] = 8;
    machine.step(ProcessEvent::Enumerated { needed_bytes: 8, pids });
    let action = machine.step(ProcessEvent::ProbeNameUnknown);
    assert!(action.close_probed);
    assert!(matches!(action.op, ProcessOp::Probe { pid: 8 }));
    let action = machine.step(ProcessEvent::ProbeUnopened);
    assert!(!action.close_probed);
    // Back to the top of the unbounded polling loop, same capacity.
    assert!(matches!(action.op, ProcessOp::Enumerate { slots: 32 }));
}

#[test]
fn empty_pass_restarts_enumeration() {
    let (mut machine, _) = ProcessWait::new(target());
    let action = machine.step(ProcessEvent::Enumerated {
        needed_bytes: 0,
        pids: vec![0; 32],
    });
    assert!(matches!(action.op, ProcessOp::Enumerate { slots: 32 }));
}

#[test]
fn enumeration_failure_is_fatal() {
    let (mut machine, _) = ProcessWait::new(target());
    let action = machine.step(ProcessEvent::EnumerationFailed { code: 5 });
    assert!(!action.close_probed);
    match action.op {
        ProcessOp::Fail { error } => {
            assert_eq!(error.error_type, ErrorType::ReadWriteError);
            assert_eq!(error.message, "process list query fail, EnumProcesses return 5");
        },
        _ => panic!("expected a failure"),
    }
}

#[test]
fn close_error_reports_the_code() {
    let e = close_handle_error(6);
    assert_eq!(e.error_type, ErrorType::ReadWriteError);
    assert_eq!(e.message, "couldn't close process handle, CloseHandle return 6");
}
