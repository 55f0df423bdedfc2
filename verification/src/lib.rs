//! Interrupt and privilege-transition core of a small x86_64 kernel:
//! segment selectors, the Global Descriptor Table, the Task State Segment,
//! the Interrupt Descriptor Table with its gate descriptors, and the
//! chained 8259 interrupt-controller driver.
//!
//! All hardware-facing work (privileged instructions, port input and
//! output) happens outside this crate; the types here build the exact
//! bit-level images the hardware consumes and decide which port
//! operations must be performed.

use vstd::prelude::*;

pub mod bitfield;
pub mod gdt;
pub mod idt;
pub mod init;
pub mod interrupt_handlers;
pub mod pic;
pub mod privilege;
pub mod segment;
pub mod tss;

verus! {

/// Exit status reported to the emulator's debug-exit device.
#[derive(Debug, Clone, Copy, PartialEq, Eq, Structural)]
pub enum QemuExitCode {
    Success,
    Failed,
}

impl QemuExitCode {
    /// The value written to the debug-exit port; chosen so the emulator's
    /// resulting exit status does not collide with its own codes.
    pub fn value(self) -> (r: u32)
        ensures
            self is Success ==> r == 0x10,
            self is Failed ==> r == 0x11,
    {
        match self {
            QemuExitCode::Success => 0x10,
            QemuExitCode::Failed => 0x11,
        }
    }
}

} // verus!
