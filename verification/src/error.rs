//! Failure classes of the driver.

use vstd::prelude::*;

verus! {

/// Why a control request was refused.
#[derive(Clone, Copy, Debug, PartialEq, Eq, Structural)]
pub enum GpuError {
    /// The request code names no operation of the device.
    Unsupported,
    /// The payload does not have the shape of the record that the request code calls for.
    BadPayload,
    /// A handle names no buffer object of the store.
    HandleNotFound,
    /// The buffer object may not be released.
    Protected,
    /// No memory, or no handle, is left for a new buffer object.
    AllocationFailure,
    /// A command list holds an unknown packet or ends inside one.
    MalformedStream,
    /// An address field of a command list reaches past its buffer object.
    OutOfBounds,
    /// The accelerator did not take the submission within the bounded wait.
    HardwareTimeout,
    /// Another request that needs the accelerator or the memory collaborator is under way.
    Busy,
}

/// Why bring-up left no device.
#[derive(Clone, Copy, Debug, PartialEq, Eq, Structural)]
pub enum BringUpFailure {
    /// The firmware did not power the accelerator on.
    PowerOnFailed,
    /// The identification register does not read what a powered 3D pipeline reads.
    IdentMismatch,
    /// No framebuffer is there, or none of the firmware's memory handles leads to it.
    NoFramebuffer,
    /// No memory for the binner.
    BinnerAllocationFailed,
}

impl GpuError {
    /// The number that the caller of a control request sees: negative, and different for each
    /// failure class.
    pub open spec fn failure_code(self) -> int {
        match self {
            GpuError::Unsupported => -95,
            GpuError::BadPayload => -14,
            GpuError::HandleNotFound => -2,
            GpuError::Protected => -13,
            GpuError::AllocationFailure => -12,
            GpuError::MalformedStream => -22,
            GpuError::OutOfBounds => -34,
            GpuError::HardwareTimeout => -110,
            GpuError::Busy => -16,
        }
    }

    /// The number that the caller of a control request sees for this failure.
    pub fn code(self) -> (code: i32)
        ensures
            code == self.failure_code(),
            code < 0,
    {
        match self {
            GpuError::Unsupported => -95,
            GpuError::BadPayload => -14,
            GpuError::HandleNotFound => -2,
            GpuError::Protected => -13,
            GpuError::AllocationFailure => -12,
            GpuError::MalformedStream => -22,
            GpuError::OutOfBounds => -34,
            GpuError::HardwareTimeout => -110,
            GpuError::Busy => -16,
        }
    }
}

} // verus!
