//! The handling of one intercepted call, from its decoded request and the
//! resolution of its path to the operation a worker will perform.
use vstd::prelude::*;
use crate::capability::OpKind;
use crate::error::SyscallError;
use crate::mknod::{mknod_verdict, validate_mknod, DevicePolicy, MknodOp};
use crate::path::{below, within};
use crate::quota::{quota_verdict, validate_quotactl, QuotaOp, QuotaPolicy};
use crate::request::Request;
use crate::worker::{plan_of, worker_plan, WorkerStep};

verus! {

/// What was learned of a request's path in the caller's namespaces: the
/// container's root directory and the target with every symbolic link
/// followed inside that root (see `walk`), both absolute as the daemon sees
/// them, and for quota control the device the target names.
#[derive(Clone, Debug)]
pub struct Resolved {
    pub root: Vec<u8>,
    pub target: Vec<u8>,
    pub dev: u64,
}

/// The policy of one container.
#[derive(Clone, Debug)]
pub struct Policy {
    pub devices: DevicePolicy,
    pub quotas: QuotaPolicy,
}

/// A validated operation, ready for a worker.
#[derive(Clone, Debug)]
pub enum Operation {
    Mknod(MknodOp),
    Quotactl(QuotaOp),
}

/// The verdict on a request whose path resolution came to `resolved`.
pub open spec fn verdict(caps: u64, req: Request, resolved: Result<Resolved, SyscallError>, policy: Policy) -> Result<(), SyscallError> {
    match resolved {
        Err(e) => Err(e),
        Ok(res) => match req {
            Request::Mknod { mode, dev, .. } =>
                mknod_verdict(caps, mode, dev, res.root@, res.target@, policy.devices.rules@),
            Request::Quotactl { cmd, .. } =>
                quota_verdict(caps, cmd, res.root@, res.target@, res.dev, policy.quotas.devices@),
        },
    }
}

/// What a validated request becomes.
pub open spec fn operation_fits(op: Operation, req: Request, res: Resolved) -> bool {
    match (op, req) {
        (Operation::Mknod(m), Request::Mknod { mode, dev, .. }) =>
            m.path.deep_view() == below(res.root@, res.target@) && m.mode == mode && m.dev == dev,
        (Operation::Quotactl(q), Request::Quotactl { cmd, id, addr, .. }) =>
            q.special.deep_view() == below(res.root@, res.target@) && q.cmd == cmd && q.id == id && q.addr == addr,
        _ => false,
    }
}

/// Validates a decoded request against the caller's capabilities `caps`, the
/// outcome of resolving its path, and the container's policy. A failed
/// resolution (the caller gone) is passed on. Only an `Ok` result leads to a
/// worker.
pub fn prepare(
    caps: u64,
    req: Request,
    resolved: Result<Resolved, SyscallError>,
    policy: &Policy,
) -> (r: Result<Operation, SyscallError>)
    ensures
        r.is_ok() == (verdict(caps, req, resolved, *policy) == Ok::<(), SyscallError>(())),
        r matches Err(e) ==> verdict(caps, req, resolved, *policy) == Err::<(), SyscallError>(e),
        r matches Ok(op) ==> (resolved matches Ok(res) && operation_fits(op, req, res)),
{
    let res = match resolved {
        Ok(res) => res,
        Err(e) => return Err(e),
    };
    match req {
        Request::Mknod { mode, dev, .. } => {
            match validate_mknod(caps, mode, dev, &res.root, &res.target, &policy.devices) {
                Ok(m) => Ok(Operation::Mknod(m)),
                Err(e) => Err(e),
            }
        },
        Request::Quotactl { cmd, id, addr, .. } => {
            match validate_quotactl(caps, cmd, id, addr, &res.root, &res.target, res.dev, &policy.quotas) {
                Ok(q) => Ok(Operation::Quotactl(q)),
                Err(e) => Err(e),
            }
        },
    }
}

impl Operation {
    /// The kind of this operation.
    pub fn kind(&self) -> (r: OpKind)
        ensures
            r == self.kind_spec(),
    {
        match self {
            Operation::Mknod(_) => OpKind::Mknod,
            Operation::Quotactl(_) => OpKind::Quotactl,
        }
    }

    /// The steps of the worker that performs this operation.
    pub fn plan(&self) -> (r: Vec<WorkerStep>)
        ensures
            r@ == plan_of(self.kind_spec()),
    {
        worker_plan(self.kind())
    }

    /// The kind of this operation.
    pub open spec fn kind_spec(&self) -> OpKind {
        match self {
            Operation::Mknod(_) => OpKind::Mknod,
            Operation::Quotactl(_) => OpKind::Quotactl,
        }
    }
}

/// A request whose resolved path leaves the container's root is refused as an
/// invalid argument, before any other check, so no worker is started for it.
pub proof fn lemma_escape_refused(caps: u64, req: Request, res: Resolved, policy: Policy)
    requires
        !within(res.root@, res.target@),
    ensures
        verdict(caps, req, Ok(res), policy) == Err::<(), SyscallError>(SyscallError::InvalidArgument),
{
}

} // verus!
