//! Leaving QEMU with an exit status, and running the kernel's tests.

use vstd::prelude::*;

verus! {

/// The I/O port of QEMU's `isa-debug-exit` device.
pub const QEMU_EXIT_PORT: u16 = 0xf4;

/// The status a test run reports to QEMU through the debug-exit device.
#[derive(Debug, Clone, Copy, PartialEq, Eq, Structural)]
pub enum QemuExitCode {
    Success,
    Failed,
}

impl QemuExitCode {
    /// The 32-bit value written to the debug-exit port for this status.
    pub fn to_u32(self) -> (v: u32)
        ensures
            v == (match self {
                QemuExitCode::Success => 0x10u32,
                QemuExitCode::Failed => 0x11u32,
            }),
    {
        match self {
            QemuExitCode::Success => 0x10,
            QemuExitCode::Failed => 0x11,
        }
    }
}

/// A test case the runner can execute.
pub trait Testable {
    /// Whether the test has passed: its run came back (a failing test panics).
    spec fn passed(&self) -> bool;

    /// Runs the test; when the call returns, the test has passed.
    fn run(&self)
        ensures
            self.passed(),
    ;
}

/// Runs every test in order; a run that comes back has passed them all, and
/// QEMU is then told `Success`.
pub fn test_runner(tests: &[&dyn Testable]) -> (code: QemuExitCode)
    ensures
        forall|j: int| 0 <= j < tests@.len() ==> #[trigger] tests@[j].passed(),
        code == QemuExitCode::Success,
{
    let mut i: usize = 0;
    while i < tests.len()
        invariant
            i <= tests@.len(),
            forall|j: int| 0 <= j < i ==> #[trigger] tests@[j].passed(),
        decreases tests@.len() - i,
    {
        tests[i].run();
        i += 1;
    }
    QemuExitCode::Success
}

} // verus!
