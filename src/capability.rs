//! Capability sets as bit masks, and the minimal set each emulated operation
//! runs with.
use vstd::prelude::*;

verus! {

/// The capability to administer the system, quotas among it.
pub const CAP_SYS_ADMIN: u64 = 21;

/// The capability to create device nodes.
pub const CAP_MKNOD: u64 = 27;

/// The operations the daemon performs on a container's behalf.
#[derive(Clone, Copy, Debug, PartialEq, Eq, Structural)]
pub enum OpKind {
    Mknod,
    Quotactl,
}

/// The set that holds capability `cap` alone.
pub open spec fn cap_mask(cap: u64) -> u64 {
    1u64 << cap
}

/// Whether the set `caps` holds capability `cap`.
pub open spec fn holds_cap(caps: u64, cap: u64) -> bool {
    caps & cap_mask(cap) != 0
}

/// The capability an operation of kind `k` needs.
pub open spec fn needed_cap(k: OpKind) -> u64 {
    match k {
        OpKind::Mknod => CAP_MKNOD,
        OpKind::Quotactl => CAP_SYS_ADMIN,
    }
}

/// The set made for the capability an operation needs holds that capability
/// and no other.
pub proof fn lemma_needed_mask(k: OpKind)
    ensures
        holds_cap(cap_mask(needed_cap(k)), needed_cap(k)),
        forall|c: u64| c < 64 && c != needed_cap(k) ==> !holds_cap(cap_mask(needed_cap(k)), c),
{
    assert(forall|c2: u64| c2 < 64 && c2 != 27 ==> (1u64 << 27u64) & (1u64 << c2) == 0) by (bit_vector);
    assert(forall|c2: u64| c2 < 64 && c2 != 21 ==> (1u64 << 21u64) & (1u64 << c2) == 0) by (bit_vector);
    assert((1u64 << 27u64) & (1u64 << 27u64) != 0) by (bit_vector);
    assert((1u64 << 21u64) & (1u64 << 21u64) != 0) by (bit_vector);
}

/// Whether the set `caps` holds capability `cap`, below 64.
pub fn has_cap(caps: u64, cap: u64) -> (r: bool)
    requires
        cap < 64,
    ensures
        r == holds_cap(caps, cap),
{
    caps & (1u64 << cap) != 0
}

/// The minimal capability set for an operation of kind `k`: its one needed
/// capability and nothing else.
pub fn required_caps(k: OpKind) -> (r: u64)
    ensures
        r == cap_mask(needed_cap(k)),
        holds_cap(r, needed_cap(k)),
        forall|c: u64| c < 64 && c != needed_cap(k) ==> !holds_cap(r, c),
{
    let c = match k {
        OpKind::Mknod => CAP_MKNOD,
        OpKind::Quotactl => CAP_SYS_ADMIN,
    };
    proof {
        lemma_needed_mask(k);
    }
    1u64 << c
}

} // verus!
