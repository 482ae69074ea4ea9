//! Error taxonomy of the hardware exerciser core.
//!
//! Every fallible operation reports failure explicitly; kernel error codes
//! are preserved verbatim where one is involved.

use vstd::prelude::*;

verus! {

/// Every failure the core can report.  Each variant corresponds to exactly
/// one fallible operation family; contracts state if-and-only-if conditions
/// under which each one is produced.
#[derive(Clone, Copy, Debug, PartialEq, Eq, Structural)]
pub enum HwError {
    /// The device node could not be opened (missing or permission denied).
    DeviceOpenError,
    /// The driver rejected a requested optional capability.
    CapabilityUnsupportedError,
    /// No enumerated connector reports a connected display.
    NoDisplayAttachedError,
    /// The chosen connector advertises no display mode.
    NoModeAvailableError,
    /// The requested buffer dimensions exceed available video memory.
    OutOfVideoMemoryError,
    /// A buffer destroy was attempted while a mapping is still outstanding.
    BufferStillMappedError,
    /// A required property name is absent on a kernel object.
    PropertyNotFoundError,
    /// The kernel refused an atomic commit; the error code is kept verbatim.
    CommitError(i32),
    /// A control call returned a non-zero error; the code is kept verbatim.
    IoctlError(i32),
}

} // verus!
