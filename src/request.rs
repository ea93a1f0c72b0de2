//! Intercepted system calls as the kernel reports them, and their decoding
//! into typed requests.
use vstd::prelude::*;
use crate::error::SyscallError;

verus! {

/// `mknod(path, mode, dev)` on x86_64.
pub const SYS_MKNOD: i32 = 133;

/// `quotactl(cmd, special, id, addr)` on x86_64.
pub const SYS_QUOTACTL: i32 = 179;

/// `mknodat(dirfd, path, mode, dev)` on x86_64.
pub const SYS_MKNODAT: i32 = 259;

/// The architecture word of x86_64 calls, whose numbers these are.
pub const AUDIT_ARCH_X86_64: u32 = 0xc000003e;

/// The directory descriptor that stands for the caller's working directory.
pub const AT_FDCWD: i32 = -100;

/// One pending intercepted system call.
#[derive(Clone, Copy, Debug, PartialEq, Eq)]
pub struct Notification {
    /// The kernel's identifier of this event; it may go stale.
    pub id: u64,
    /// The calling process.
    pub pid: u32,
    /// The architecture the call was made in.
    pub arch: u32,
    /// The system call number.
    pub nr: i32,
    /// The raw argument words.
    pub args: [u64; 6],
    /// The caller's effective capability set at interception time.
    pub caps: u64,
}

/// A decoded request. Addresses point into the caller's memory.
#[derive(Clone, Copy, Debug, PartialEq, Eq, Structural)]
pub enum Request {
    Mknod { dirfd: i32, path_addr: u64, mode: u32, dev: u64 },
    Quotactl { cmd: u32, special_addr: u64, id: u32, addr: u64 },
}

/// What the argument words of a call with number `nr` in architecture
/// `arch` mean. Calls of any other architecture are not emulated.
pub open spec fn decoded(arch: u32, nr: i32, a: Seq<u64>) -> Result<Request, SyscallError> {
    if arch != AUDIT_ARCH_X86_64 {
        Err(SyscallError::NotImplemented)
    } else if nr == SYS_MKNOD {
        Ok(Request::Mknod { dirfd: AT_FDCWD, path_addr: a[0], mode: a[1] as u32, dev: a[2] })
    } else if nr == SYS_MKNODAT {
        Ok(Request::Mknod { dirfd: a[0] as i32, path_addr: a[1], mode: a[2] as u32, dev: a[3] })
    } else if nr == SYS_QUOTACTL {
        Ok(Request::Quotactl { cmd: a[0] as u32, special_addr: a[1], id: a[2] as u32, addr: a[3] })
    } else {
        Err(SyscallError::NotImplemented)
    }
}

/// Decodes the arguments of an intercepted call; a call this daemon does not
/// emulate, or one of another architecture, is refused with `NotImplemented`.
pub fn decode_request(n: &Notification) -> (r: Result<Request, SyscallError>)
    ensures
        r == decoded(n.arch, n.nr, n.args@),
{
    let a = &n.args;
    if n.arch != AUDIT_ARCH_X86_64 {
        Err(SyscallError::NotImplemented)
    } else if n.nr == SYS_MKNOD {
        Ok(Request::Mknod { dirfd: AT_FDCWD, path_addr: a[0], mode: a[1] as u32, dev: a[2] })
    } else if n.nr == SYS_MKNODAT {
        Ok(Request::Mknod { dirfd: a[0] as i32, path_addr: a[1], mode: a[2] as u32, dev: a[3] })
    } else if n.nr == SYS_QUOTACTL {
        Ok(Request::Quotactl { cmd: a[0] as u32, special_addr: a[1], id: a[2] as u32, addr: a[3] })
    } else {
        Err(SyscallError::NotImplemented)
    }
}

} // verus!
