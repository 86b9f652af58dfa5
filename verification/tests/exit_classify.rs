//! Exit dispatch: classification of native exits and the run loop's
//! continue/return decision.

use smolvm::exit::{classify_exit, dispatch_exit, exit_is_terminal, CpuExitReason, NativeExit};

#[test]
fn halt_classifies_as_halt() {
    assert_eq!(classify_exit(&NativeExit::Halt), CpuExitReason::Halt);
}

#[test]
fn system_shutdown_is_terminal() {
    let (reason, continues) = dispatch_exit(&NativeExit::SystemShutdown);
    assert_eq!(reason, CpuExitReason::NotSupported);
    assert!(!continues);
}

#[test]
fn single_byte_output_keeps_port_and_value() {
    let e = NativeExit::IoOut {
        port: 0x3f8,
        data: vec![b'5'],
    };
    assert_eq!(classify_exit(&e), CpuExitReason::IoByteOut(0x3f8, b'5'));
}

#[test]
fn single_byte_input_keeps_port() {
    let e = NativeExit::IoIn {
        port: 0x3f8,
        data: vec![0],
    };
    assert!(matches!(
        classify_exit(&e),
        CpuExitReason::IoByteIn(0x3f8, _)
    ));
}

#[test]
fn two_byte_accesses_classify_as_words() {
    let out = NativeExit::IoOut {
        port: 0x2f8,
        data: vec![0x34, 0x12],
    };
    assert_eq!(classify_exit(&out), CpuExitReason::IoWordOut(0x2f8, 0x1234));
    let inp = NativeExit::IoIn {
        port: 0x2f8,
        data: vec![0xcd, 0xab],
    };
    assert_eq!(classify_exit(&inp), CpuExitReason::IoWordIn(0x2f8, 0xabcd));
}

#[test]
fn wider_accesses_and_unhandled_exits_collapse() {
    let wide = NativeExit::IoOut {
        port: 0x3f8,
        data: vec![1, 2, 3, 4],
    };
    assert_eq!(classify_exit(&wide), CpuExitReason::NotSupported);
    assert_eq!(
        classify_exit(&NativeExit::Unhandled),
        CpuExitReason::NotSupported
    );
}

#[test]
fn only_not_supported_ends_the_run_loop() {
    assert!(exit_is_terminal(&CpuExitReason::NotSupported));
    assert!(!exit_is_terminal(&CpuExitReason::Halt));
    assert!(!exit_is_terminal(&CpuExitReason::IoByteOut(0x3f8, b'5')));
    assert!(!exit_is_terminal(&CpuExitReason::IoByteIn(0x3f8, 0)));
    assert!(!exit_is_terminal(&CpuExitReason::IoWordOut(0, 0)));
    assert!(!exit_is_terminal(&CpuExitReason::IoWordIn(0, 0)));
}

#[test]
fn dispatch_pairs_reason_with_decision() {
    assert_eq!(
        dispatch_exit(&NativeExit::Halt),
        (CpuExitReason::Halt, true)
    );
    assert_eq!(
        dispatch_exit(&NativeExit::Unhandled),
        (CpuExitReason::NotSupported, false)
    );
}
