//! Validation of device-node creation requests.
use vstd::prelude::*;
use crate::capability::{has_cap, holds_cap, CAP_MKNOD};
use crate::error::SyscallError;
use crate::path::{below, components_below, within};

verus! {

/// The file-type bits of a mode.
pub const S_IFMT: u32 = 0o170000;

/// The file type of a character device.
pub const S_IFCHR: u32 = 0o020000;

/// The file type of a block device.
pub const S_IFBLK: u32 = 0o060000;

/// The two kinds of device node.
#[derive(Clone, Copy, Debug, PartialEq, Eq, Structural)]
pub enum DeviceKind {
    Char,
    Block,
}

/// One class of device a container may create: a kind and major number, and
/// either one minor number or, with `None`, every minor number.
#[derive(Clone, Copy, Debug, PartialEq, Eq, Structural)]
pub struct DeviceRule {
    pub kind: DeviceKind,
    pub major: u32,
    pub minor: Option<u32>,
}

/// The device classes a container may create.
#[derive(Clone, Debug)]
pub struct DevicePolicy {
    pub rules: Vec<DeviceRule>,
}

/// A validated device-node creation: the path below the container's root, the
/// mode and the device number, as the worker will hand them to the kernel.
#[derive(Clone, Debug)]
pub struct MknodOp {
    pub path: Vec<Vec<u8>>,
    pub mode: u32,
    pub dev: u64,
}

/// The device kind a mode asks for, if it asks for a device.
pub open spec fn kind_of(mode: u32) -> Option<DeviceKind> {
    if mode & S_IFMT == S_IFCHR {
        Some(DeviceKind::Char)
    } else if mode & S_IFMT == S_IFBLK {
        Some(DeviceKind::Block)
    } else {
        None
    }
}

/// The major number of a device number, in the kernel's encoding.
pub open spec fn major_of(dev: u64) -> u32 {
    (((dev >> 8u64) & 0xfffu64) | ((dev >> 32u64) & 0xfffff000u64)) as u32
}

/// The minor number of a device number, in the kernel's encoding.
pub open spec fn minor_of(dev: u64) -> u32 {
    ((dev & 0xffu64) | ((dev >> 12u64) & 0xffffff00u64)) as u32
}

/// Whether rule `r` admits the device.
pub open spec fn rule_matches(r: DeviceRule, kind: DeviceKind, major: u32, minor: u32) -> bool {
    r.kind == kind && r.major == major && (r.minor matches Some(m) ==> m == minor)
}

/// Whether some rule of `rules` admits the device.
pub open spec fn admitted(rules: Seq<DeviceRule>, kind: DeviceKind, major: u32, minor: u32) -> bool {
    exists|i: int| 0 <= i < rules.len() && rule_matches(#[trigger] rules[i], kind, major, minor)
}

/// The verdict on a device-node request, checked in this order: the path must
/// stay inside the root, the mode must ask for a device, the caller must hold
/// the capability to create devices, and the device must be admitted.
pub open spec fn mknod_verdict(
    caps: u64,
    mode: u32,
    dev: u64,
    root: Seq<u8>,
    target: Seq<u8>,
    rules: Seq<DeviceRule>,
) -> Result<(), SyscallError> {
    if !within(root, target) {
        Err(SyscallError::InvalidArgument)
    } else if kind_of(mode).is_none() {
        Err(SyscallError::InvalidArgument)
    } else if !holds_cap(caps, CAP_MKNOD) {
        Err(SyscallError::PrivilegeDenied)
    } else if !admitted(rules, kind_of(mode).unwrap(), major_of(dev), minor_of(dev)) {
        Err(SyscallError::PrivilegeDenied)
    } else {
        Ok(())
    }
}

/// The major number of a device number.
pub fn major(dev: u64) -> (r: u32)
    ensures
        r == major_of(dev),
{
    (((dev >> 8u64) & 0xfffu64) | ((dev >> 32u64) & 0xfffff000u64)) as u32
}

/// The minor number of a device number.
pub fn minor(dev: u64) -> (r: u32)
    ensures
        r == minor_of(dev),
{
    ((dev & 0xffu64) | ((dev >> 12u64) & 0xffffff00u64)) as u32
}

/// The device kind a mode asks for, if it asks for a device.
pub fn device_kind(mode: u32) -> (r: Option<DeviceKind>)
    ensures
        r == kind_of(mode),
{
    let t = mode & S_IFMT;
    if t == S_IFCHR {
        Some(DeviceKind::Char)
    } else if t == S_IFBLK {
        Some(DeviceKind::Block)
    } else {
        None
    }
}

impl DevicePolicy {
    /// Whether some rule admits the device.
    pub fn admits(&self, kind: DeviceKind, major: u32, minor: u32) -> (r: bool)
        ensures
            r == admitted(self.rules@, kind, major, minor),
    {
        let mut i: usize = 0;
        while i < self.rules.len()
            invariant
                i <= self.rules@.len(),
                forall|j: int| 0 <= j < i ==> !rule_matches(#[trigger] self.rules@[j], kind, major, minor),
            decreases self.rules@.len() - i,
        {
            let r = self.rules[i];
            let ok = match r.minor {
                Some(m) => m == minor,
                None => true,
            };
            if r.kind == kind && r.major == major && ok {
                assert(rule_matches(self.rules@[i as int], kind, major, minor));
                return true;
            }
            i = i + 1;
        }
        false
    }
}

/// Validates a device-node request. `root` is the container's root directory
/// and `target` the requested path once resolved in the caller's namespace,
/// both absolute as the daemon sees them; `caps` is the caller's effective
/// capability set. Only an `Ok` result leads to a worker.
pub fn validate_mknod(
    caps: u64,
    mode: u32,
    dev: u64,
    root: &Vec<u8>,
    target: &Vec<u8>,
    policy: &DevicePolicy,
) -> (r: Result<MknodOp, SyscallError>)
    ensures
        r.is_ok() == (mknod_verdict(caps, mode, dev, root@, target@, policy.rules@) == Ok::<(), SyscallError>(())),
        r matches Err(e) ==> mknod_verdict(caps, mode, dev, root@, target@, policy.rules@) == Err::<(), SyscallError>(e),
        r matches Ok(op) ==> op.path.deep_view() == below(root@, target@) && op.mode == mode && op.dev == dev,
{
    let path = match components_below(root, target) {
        Some(p) => p,
        None => return Err(SyscallError::InvalidArgument),
    };
    let kind = match device_kind(mode) {
        Some(k) => k,
        None => return Err(SyscallError::InvalidArgument),
    };
    if !has_cap(caps, CAP_MKNOD) {
        return Err(SyscallError::PrivilegeDenied);
    }
    if !policy.admits(kind, major(dev), minor(dev)) {
        return Err(SyscallError::PrivilegeDenied);
    }
    Ok(MknodOp { path, mode, dev })
}

} // verus!
