//! VM-exit dispatch: the projection of a backend-reported exit onto the
//! architecture-neutral exit set, and the run loop's continue/return
//! decision.

use vstd::prelude::*;

verus! {

/// The architecture-neutral exit set exposed to callers.
#[derive(Clone, Copy, Debug, PartialEq, Eq, Structural)]
pub enum CpuExitReason {
    NotSupported,
    Halt,
    IoByteIn(u16, u8),
    IoByteOut(u16, u8),
    IoWordIn(u16, u16),
    IoWordOut(u16, u16),
}

/// A backend-reported VM-exit, reduced to plain values by the backend
/// glue before it reaches the dispatcher.
pub enum NativeExit {
    /// The guest executed a halt instruction.
    Halt,
    /// The guest requested a system-level shutdown.
    SystemShutdown,
    /// A port input: the guest awaits `data.len()` bytes from `port`;
    /// `data` holds whatever the handler has placed there so far.
    IoIn { port: u16, data: Vec<u8> },
    /// A port output: the guest wrote `data` to `port`.
    IoOut { port: u16, data: Vec<u8> },
    /// Any exit kind with no defined handling.
    Unhandled,
}

/// The architecture-neutral projection of a native exit. A halt
/// instruction classifies as `Halt`, which the run loop treats as a
/// continue signal; one- and two-byte port accesses keep their port and
/// payload (two-byte payloads read as little-endian words); a guest
/// shutdown request, like every other exit with no defined handling,
/// collapses to the terminal `NotSupported` signal, so a shut-down guest
/// ends the run loop.
pub open spec fn spec_classify(e: &NativeExit) -> CpuExitReason {
    match e {
        NativeExit::Halt => CpuExitReason::Halt,
        NativeExit::SystemShutdown => CpuExitReason::NotSupported,
        NativeExit::IoIn { port, data } => {
            if data@.len() == 1 {
                CpuExitReason::IoByteIn(*port, data@[0])
            } else if data@.len() == 2 {
                CpuExitReason::IoWordIn(*port, (data@[0] as u16 | ((data@[1] as u16) << 8)) as u16)
            } else {
                CpuExitReason::NotSupported
            }
        },
        NativeExit::IoOut { port, data } => {
            if data@.len() == 1 {
                CpuExitReason::IoByteOut(*port, data@[0])
            } else if data@.len() == 2 {
                CpuExitReason::IoWordOut(*port, (data@[0] as u16 | ((data@[1] as u16) << 8)) as u16)
            } else {
                CpuExitReason::NotSupported
            }
        },
        NativeExit::Unhandled => CpuExitReason::NotSupported,
    }
}

/// Classify one native exit.
pub fn classify_exit(e: &NativeExit) -> (r: CpuExitReason)
    ensures
        r == spec_classify(e),
{
    match e {
        NativeExit::Halt => CpuExitReason::Halt,
        NativeExit::SystemShutdown => CpuExitReason::NotSupported,
        NativeExit::IoIn { port, data } => {
            if data.len() == 1 {
                CpuExitReason::IoByteIn(*port, data[0])
            } else if data.len() == 2 {
                CpuExitReason::IoWordIn(*port, data[0] as u16 | ((data[1] as u16) << 8))
            } else {
                CpuExitReason::NotSupported
            }
        },
        NativeExit::IoOut { port, data } => {
            if data.len() == 1 {
                CpuExitReason::IoByteOut(*port, data[0])
            } else if data.len() == 2 {
                CpuExitReason::IoWordOut(*port, data[0] as u16 | ((data[1] as u16) << 8))
            } else {
                CpuExitReason::NotSupported
            }
        },
        NativeExit::Unhandled => CpuExitReason::NotSupported,
    }
}

/// The run loop returns to the caller exactly on an exit that carries no
/// further defined handling; every classified reason continues the loop.
pub fn exit_is_terminal(r: &CpuExitReason) -> (b: bool)
    ensures
        b <==> *r == CpuExitReason::NotSupported,
{
    match r {
        CpuExitReason::NotSupported => true,
        _ => false,
    }
}

/// Classify one native exit and decide whether the run loop continues:
/// the step a single `run_once` cycle takes after the hardware traps.
pub fn dispatch_exit(e: &NativeExit) -> (r: (CpuExitReason, bool))
    ensures
        r.0 == spec_classify(e),
        r.1 <==> r.0 != CpuExitReason::NotSupported,
{
    let reason = classify_exit(e);
    let stop = exit_is_terminal(&reason);
    (reason, !stop)
}

} // verus!
