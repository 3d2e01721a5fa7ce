//! The ways in which an operation on a device context can fail.
use vstd::prelude::*;
use vstd::string::*;
use crate::status::{error_name, error_text, CL_INVALID_KERNEL_ARGS, CL_INVALID_KERNEL_NAME};

verus! {

/// Why an operation was refused or did not go through.
#[derive(Debug, Clone, PartialEq, Eq)]
pub enum Error {
    /// No usable device: the platform selector is out of range, no device was
    /// found, or the context has already been torn down.
    DeviceUnavailable,
    /// The kernel source did not compile. `log` is the compiler's output as
    /// the device gave it.
    BuildFailure { log: String },
    /// A kernel of that name is registered already.
    DuplicateKernelError,
    /// No kernel of that name: the compiled program has no such entry point,
    /// or the name was never registered.
    UnknownKernelName,
    /// A buffer with that identity is registered already.
    BufferAlreadyRegistered,
    /// No buffer with that identity is registered.
    UnknownBuffer,
    /// The buffer is in the wrong ownership state for the operation: mapped
    /// while host-owned, unmapped while device-owned, or bound to a kernel
    /// while host-owned.
    BufferStateViolation,
    /// The global work size is not a positive multiple of the local work size.
    InvalidPartitioning,
    /// A kernel was dispatched although one of its arguments was never bound.
    UnboundArgument,
    /// The device answered a call with a status other than success.
    Device { code: i32 },
}

impl Error {
    /// The text of [`Error::message`].
    pub open spec fn message_text(self) -> Seq<char> {
        match self {
            Error::DeviceUnavailable => "no usable device"@,
            Error::BuildFailure { log } => log@,
            Error::DuplicateKernelError => "kernel already registered"@,
            Error::UnknownKernelName => "unknown kernel name"@,
            Error::BufferAlreadyRegistered => "buffer already registered"@,
            Error::UnknownBuffer => "buffer not registered"@,
            Error::BufferStateViolation => "buffer is in the wrong ownership state"@,
            Error::InvalidPartitioning => "global size is not a positive multiple of local size"@,
            Error::UnboundArgument => "kernel argument never bound"@,
            Error::Device { code } => error_name(code),
        }
    }

    /// A line of text for the error. A build failure gives the compiler's log
    /// word for word, a device failure the name of its status code.
    pub fn message(&self) -> (text: String)
        ensures
            text@ == self.message_text(),
    {
        match self {
            Error::DeviceUnavailable => String::from_str("no usable device"),
            Error::BuildFailure { log } => log.clone(),
            Error::DuplicateKernelError => String::from_str("kernel already registered"),
            Error::UnknownKernelName => String::from_str("unknown kernel name"),
            Error::BufferAlreadyRegistered => String::from_str("buffer already registered"),
            Error::UnknownBuffer => String::from_str("buffer not registered"),
            Error::BufferStateViolation => String::from_str(
                "buffer is in the wrong ownership state",
            ),
            Error::InvalidPartitioning => String::from_str(
                "global size is not a positive multiple of local size",
            ),
            Error::UnboundArgument => String::from_str("kernel argument never bound"),
            Error::Device { code } => String::from_str(error_text(*code)),
        }
    }
}

/// The error that stands for a failed device call.
///
/// An unknown entry point and a dispatch with unset arguments have kinds of
/// their own; every other status is passed on as it came.
pub open spec fn device_error(code: i32) -> Error {
    if code == CL_INVALID_KERNEL_NAME {
        Error::UnknownKernelName
    } else if code == CL_INVALID_KERNEL_ARGS {
        Error::UnboundArgument
    } else {
        Error::Device { code }
    }
}

/// Turns the status of a failed device call into an error.
pub fn error_of_status(code: i32) -> (e: Error)
    ensures
        e == device_error(code),
{
    if code == CL_INVALID_KERNEL_NAME {
        Error::UnknownKernelName
    } else if code == CL_INVALID_KERNEL_ARGS {
        Error::UnboundArgument
    } else {
        Error::Device { code }
    }
}

} // verus!
