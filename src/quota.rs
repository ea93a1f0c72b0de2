//! Validation of quota-control requests.
use vstd::prelude::*;
use crate::capability::{has_cap, holds_cap, CAP_SYS_ADMIN};
use crate::error::SyscallError;
use crate::path::{below, components_below, within};

verus! {

/// The first quota subcommand (`Q_SYNC`).
pub const Q_SYNC: u32 = 0x800001;

/// Turning quotas on (`Q_QUOTAON`). Its fourth argument names a quota file,
/// a second path this daemon does not resolve, so the call is refused.
pub const Q_QUOTAON: u32 = 0x800002;

/// The last quota subcommand this daemon knows (`Q_GETNEXTQUOTA`).
pub const Q_GETNEXTQUOTA: u32 = 0x800009;

/// The largest quota type (`PRJQUOTA`; user and group quotas come before it).
pub const MAX_QUOTA_TYPE: u32 = 2;

/// The filesystems, by device number, whose quotas a container may administer.
#[derive(Clone, Debug)]
pub struct QuotaPolicy {
    pub devices: Vec<u64>,
}

/// A validated quota-control call: the special file below the container's
/// root, and the remaining arguments as the worker will hand them on.
#[derive(Clone, Debug)]
pub struct QuotaOp {
    pub special: Vec<Vec<u8>>,
    pub cmd: u32,
    pub id: u32,
    pub addr: u64,
}

/// The subcommand of a quota command word.
pub open spec fn subcmd_of(cmd: u32) -> u32 {
    cmd >> 8u32
}

/// The quota type of a quota command word.
pub open spec fn qtype_of(cmd: u32) -> u32 {
    cmd & 0xffu32
}

/// Whether the command word names a known subcommand other than
/// `Q_QUOTAON`, and a known quota type.
pub open spec fn known_cmd(cmd: u32) -> bool {
    Q_SYNC <= subcmd_of(cmd) <= Q_GETNEXTQUOTA && subcmd_of(cmd) != Q_QUOTAON
        && qtype_of(cmd) <= MAX_QUOTA_TYPE
}

/// The verdict on a quota-control request, checked in this order: the special
/// file must stay inside the root, the command must be known, the caller must
/// hold the capability to administer quotas, and the filesystem (`dev`, the
/// device the special file names) must be one the container may administer.
pub open spec fn quota_verdict(
    caps: u64,
    cmd: u32,
    root: Seq<u8>,
    special: Seq<u8>,
    dev: u64,
    devices: Seq<u64>,
) -> Result<(), SyscallError> {
    if !within(root, special) {
        Err(SyscallError::InvalidArgument)
    } else if !known_cmd(cmd) {
        Err(SyscallError::InvalidArgument)
    } else if !holds_cap(caps, CAP_SYS_ADMIN) {
        Err(SyscallError::PrivilegeDenied)
    } else if !devices.contains(dev) {
        Err(SyscallError::PrivilegeDenied)
    } else {
        Ok(())
    }
}

/// Whether the command word names a known subcommand other than
/// `Q_QUOTAON`, and a known quota type.
pub fn is_known_cmd(cmd: u32) -> (r: bool)
    ensures
        r == known_cmd(cmd),
{
    let sub = cmd >> 8u32;
    let ty = cmd & 0xffu32;
    Q_SYNC <= sub && sub <= Q_GETNEXTQUOTA && sub != Q_QUOTAON && ty <= MAX_QUOTA_TYPE
}

impl QuotaPolicy {
    /// Whether the container may administer the filesystem on device `dev`.
    pub fn allows(&self, dev: u64) -> (r: bool)
        ensures
            r == self.devices@.contains(dev),
    {
        let mut i: usize = 0;
        while i < self.devices.len()
            invariant
                i <= self.devices@.len(),
                forall|j: int| 0 <= j < i ==> self.devices@[j] != dev,
            decreases self.devices@.len() - i,
        {
            if self.devices[i] == dev {
                return true;
            }
            i = i + 1;
        }
        false
    }
}

/// Validates a quota-control request. `root` is the container's root
/// directory and `special` the special file once resolved in the caller's
/// namespace, both absolute as the daemon sees them; `dev` is the device it
/// names and `caps` the caller's effective capability set. Only an `Ok`
/// result leads to a worker.
pub fn validate_quotactl(
    caps: u64,
    cmd: u32,
    id: u32,
    addr: u64,
    root: &Vec<u8>,
    special: &Vec<u8>,
    dev: u64,
    policy: &QuotaPolicy,
) -> (r: Result<QuotaOp, SyscallError>)
    ensures
        r.is_ok() == (quota_verdict(caps, cmd, root@, special@, dev, policy.devices@) == Ok::<(), SyscallError>(())),
        r matches Err(e) ==> quota_verdict(caps, cmd, root@, special@, dev, policy.devices@) == Err::<(), SyscallError>(e),
        r matches Ok(op) ==> op.special.deep_view() == below(root@, special@) && op.cmd == cmd && op.id == id && op.addr == addr,
{
    let path = match components_below(root, special) {
        Some(p) => p,
        None => return Err(SyscallError::InvalidArgument),
    };
    if !is_known_cmd(cmd) {
        return Err(SyscallError::InvalidArgument);
    }
    if !has_cap(caps, CAP_SYS_ADMIN) {
        return Err(SyscallError::PrivilegeDenied);
    }
    if !policy.allows(dev) {
        return Err(SyscallError::PrivilegeDenied);
    }
    Ok(QuotaOp { special: path, cmd, id, addr })
}

/// The size of the record a command writes back into the caller's memory:
/// a format word for `Q_GETFMT`, a quota-file description for `Q_GETINFO`,
/// a quota record for `Q_GETQUOTA`, and for `Q_GETNEXTQUOTA` one that ends
/// with its id where the other has padding: 72 bytes each.
pub open spec fn reply_size(cmd: u32) -> usize {
    let sub = subcmd_of(cmd);
    if sub == 0x800004 {
        4
    } else if sub == 0x800005 {
        24
    } else if sub == 0x800007 {
        72
    } else if sub == Q_GETNEXTQUOTA {
        72
    } else {
        0
    }
}

/// The size of the record a command writes back into the caller's memory;
/// zero for the commands that write nothing.
pub fn reply_len(cmd: u32) -> (r: usize)
    ensures
        r == reply_size(cmd),
{
    let sub = cmd >> 8u32;
    if sub == 0x800004 {
        4
    } else if sub == 0x800005 {
        24
    } else if sub == 0x800007 {
        72
    } else if sub == Q_GETNEXTQUOTA {
        72
    } else {
        0
    }
}

} // verus!
