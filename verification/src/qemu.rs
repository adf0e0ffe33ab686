//! The exit codes the kernel reports to QEMU's debug-exit device.

use vstd::prelude::*;

verus! {

/// How a run under QEMU ended.
#[derive(Debug, Clone, Copy, PartialEq, Eq, Structural)]
pub enum QemuExitCode {
    Success,
    Failed,
}

/// The value written to the debug-exit port for each outcome.
pub open spec fn exit_code_value(code: QemuExitCode) -> u32 {
    match code {
        QemuExitCode::Success => 0x10,
        QemuExitCode::Failed => 0x11,
    }
}

impl QemuExitCode {
    /// The value to write to the debug-exit port.
    pub fn code(self) -> (ret: u32)
        ensures
            ret == exit_code_value(self),
    {
        match self {
            QemuExitCode::Success => 0x10,
            QemuExitCode::Failed => 0x11,
        }
    }
}

/// The debug-exit port.
pub const QEMU_EXIT_PORT: u16 = 0xf4;

} // verus!
