//! The failures an emulated call can end in, and the error codes the kernel
//! hands back to the container for them.
use vstd::prelude::*;

verus! {

/// Operation not permitted.
pub const EPERM: i32 = 1;

/// No such process.
pub const ESRCH: i32 = 3;

/// Input/output error: the generic failure of this daemon.
pub const EIO: i32 = 5;

/// Invalid argument.
pub const EINVAL: i32 = 22;

/// Function not implemented.
pub const ENOSYS: i32 = 38;

/// The largest error code the kernel's return-value convention can carry.
pub const MAX_ERRNO: i32 = 4095;

/// Why an intercepted call was not carried out as asked.
#[derive(Clone, Copy, Debug, PartialEq, Eq, Structural)]
pub enum SyscallError {
    /// The calling process vanished before its namespaces could be opened.
    ProcessGone,
    /// The request is malformed or names a path outside the container.
    InvalidArgument,
    /// The container may not perform this operation.
    PrivilegeDenied,
    /// The worker crashed, timed out, or reported something unreadable.
    ExecutorFault,
    /// The intercepted system call is not one this daemon emulates.
    NotImplemented,
    /// The operation itself failed in the worker with this kernel error code.
    Kernel(i32),
}

/// Whether `e` is a code the kernel's return-value convention can carry.
pub open spec fn valid_errno(e: i32) -> bool {
    1 <= e <= MAX_ERRNO
}

/// The error code reported to the container for `e`.
pub open spec fn errno_of(e: SyscallError) -> i32 {
    match e {
        SyscallError::ProcessGone => ESRCH,
        SyscallError::InvalidArgument => EINVAL,
        SyscallError::PrivilegeDenied => EPERM,
        SyscallError::ExecutorFault => EIO,
        SyscallError::NotImplemented => ENOSYS,
        SyscallError::Kernel(c) => if valid_errno(c) { c } else { EIO },
    }
}

impl SyscallError {
    /// The error code reported to the container for this failure.
    pub fn errno(&self) -> (r: i32)
        ensures
            r == errno_of(*self),
            valid_errno(r),
    {
        match self {
            SyscallError::ProcessGone => ESRCH,
            SyscallError::InvalidArgument => EINVAL,
            SyscallError::PrivilegeDenied => EPERM,
            SyscallError::ExecutorFault => EIO,
            SyscallError::NotImplemented => ENOSYS,
            SyscallError::Kernel(c) => if 1 <= *c && *c <= MAX_ERRNO { *c } else { EIO },
        }
    }
}

} // verus!
