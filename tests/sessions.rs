use syscalld::capability::CAP_MKNOD;
use syscalld::capability::CAP_SYS_ADMIN;
use syscalld::error::SyscallError;
use syscalld::handler::{prepare, Policy, Resolved};
use syscalld::mknod::{DeviceKind, DevicePolicy, DeviceRule, S_IFCHR};
use syscalld::quota::QuotaPolicy;
use syscalld::request::{decode_request, Notification, AUDIT_ARCH_X86_64, SYS_MKNOD, SYS_QUOTACTL};
use syscalld::session::{to_response, Response, Session};
use syscalld::worker::{conclude, encode_report, Cleanup, Outcome, WorkerEnd, WorkerStep};

fn b(s: &str) -> Vec<u8> {
    s.as_bytes().to_vec()
}

#[test]
fn responses_carry_value_or_negated_code() {
    assert_eq!(to_response(4, Ok(0)), Response { id: 4, val: 0, error: 0 });
    assert_eq!(to_response(4, Ok(12)), Response { id: 4, val: 12, error: 0 });
    assert_eq!(to_response(5, Err(SyscallError::PrivilegeDenied)), Response { id: 5, val: 0, error: -1 });
    assert_eq!(to_response(5, Err(SyscallError::Kernel(17))), Response { id: 5, val: 0, error: -17 });
}

#[test]
fn each_id_is_answered_once() {
    let mut s = Session::new();
    assert!(s.receive(1));
    assert!(s.receive(2));
    assert!(!s.receive(1));
    assert_eq!(s.complete(2, Ok(0), true), Some(Response { id: 2, val: 0, error: 0 }));
    assert_eq!(s.complete(1, Err(SyscallError::ExecutorFault), true), Some(Response { id: 1, val: 0, error: -5 }));
    assert_eq!(s.complete(1, Ok(0), true), None);
    assert_eq!(s.complete(2, Ok(0), true), None);
    assert_eq!(s.served(), 2);
}

#[test]
fn unknown_id_gets_no_response() {
    let mut s = Session::new();
    assert_eq!(s.complete(9, Ok(0), true), None);
    assert_eq!(s.served(), 0);
}

#[test]
fn stale_notification_is_dropped_silently() {
    let mut s = Session::new();
    s.receive(3);
    assert!(s.is_pending(3));
    assert_eq!(s.complete(3, Ok(0), false), None);
    assert!(!s.is_pending(3));
    assert_eq!(s.complete(3, Ok(0), true), None);
}

fn policy() -> Policy {
    Policy {
        devices: DevicePolicy { rules: vec![DeviceRule { kind: DeviceKind::Char, major: 1, minor: Some(3) }] },
        quotas: QuotaPolicy { devices: vec![0x805, 0x806] },
    }
}

#[test]
fn char_device_request_runs_to_a_success_response() {
    let mut s = Session::new();
    let n = Notification { id: 11, pid: 300, arch: AUDIT_ARCH_X86_64, nr: SYS_MKNOD, args: [0x1000, (S_IFCHR | 0o666) as u64, 0x103, 0, 0, 0], caps: 1 << CAP_MKNOD };
    assert!(s.receive(n.id));
    let req = decode_request(&n).unwrap();
    let res = Resolved { root: b("/c/100/rootfs"), target: b("/c/100/rootfs/dev/null"), dev: 0 };
    let op = prepare(n.caps, req, Ok(res), &policy()).unwrap();
    assert_eq!(op.plan()[3], WorkerStep::Perform);
    let end = WorkerEnd::Exited { status: 0, report: encode_report(Outcome::Value(0)) };
    let (result, cleanup) = conclude(&end);
    assert_eq!(cleanup, Cleanup::Reap);
    assert_eq!(s.complete(n.id, result, true), Some(Response { id: 11, val: 0, error: 0 }));
}

#[test]
fn escaping_request_is_denied_without_a_worker() {
    let mut s = Session::new();
    let n = Notification { id: 12, pid: 300, arch: AUDIT_ARCH_X86_64, nr: SYS_MKNOD, args: [0x1000, (S_IFCHR | 0o666) as u64, 0x103, 0, 0, 0], caps: 1 << CAP_MKNOD };
    s.receive(n.id);
    let req = decode_request(&n).unwrap();
    let res = Resolved { root: b("/c/100/rootfs"), target: b("/etc/null"), dev: 0 };
    let result = prepare(n.caps, req, Ok(res), &policy()).map(|_| 0i64);
    assert_eq!(result, Err(SyscallError::InvalidArgument));
    assert_eq!(s.complete(n.id, result, true), Some(Response { id: 12, val: 0, error: -22 }));
}

#[test]
fn two_sessions_quota_calls_are_independent() {
    let mut first = Session::new();
    let mut second = Session::new();
    let cmd = ((0x800007u64) << 8) | 0;
    let n1 = Notification { id: 21, pid: 400, arch: AUDIT_ARCH_X86_64, nr: SYS_QUOTACTL, args: [cmd, 0x10, 1000, 0x20, 0, 0], caps: 1 << CAP_SYS_ADMIN };
    let n2 = Notification { id: 21, pid: 500, arch: AUDIT_ARCH_X86_64, nr: SYS_QUOTACTL, args: [cmd, 0x10, 2000, 0x20, 0, 0], caps: 1 << CAP_SYS_ADMIN };
    assert!(first.receive(n1.id));
    assert!(second.receive(n2.id));
    let r1 = Resolved { root: b("/c/1/rootfs"), target: b("/c/1/rootfs/dev/loop0"), dev: 0x805 };
    let r2 = Resolved { root: b("/c/2/rootfs"), target: b("/c/2/rootfs/dev/loop1"), dev: 0x806 };
    assert!(prepare(n1.caps, decode_request(&n1).unwrap(), Ok(r1), &policy()).is_ok());
    assert!(prepare(n2.caps, decode_request(&n2).unwrap(), Ok(r2), &policy()).is_ok());
    let ok = WorkerEnd::Exited { status: 0, report: encode_report(Outcome::Value(0)) };
    assert_eq!(first.complete(n1.id, conclude(&ok).0, true), Some(Response { id: 21, val: 0, error: 0 }));
    assert!(second.is_pending(21));
    assert_eq!(first.served(), 1);
    assert_eq!(second.served(), 0);
    assert_eq!(second.complete(n2.id, conclude(&ok).0, true), Some(Response { id: 21, val: 0, error: 0 }));
    assert_eq!(second.served(), 1);
}

#[test]
fn caller_gone_before_completion_leaves_nothing_to_write() {
    let mut s = Session::new();
    s.receive(31);
    let (result, cleanup) = conclude(&WorkerEnd::Exited { status: 0, report: encode_report(Outcome::Value(0)) });
    assert_eq!(cleanup, Cleanup::Reap);
    assert_eq!(s.complete(31, result, false), None);
    assert_eq!(s.served(), 1);
    assert!(!s.is_pending(31));
}

#[test]
fn closed_session_writes_nothing() {
    let mut s = Session::new();
    s.receive(41);
    s.receive(42);
    assert!(!s.closed());
    assert_eq!(s.complete(41, Ok(0), true), Some(Response { id: 41, val: 0, error: 0 }));
    s.close();
    assert!(s.closed());
    assert!(s.is_pending(42));
    assert_eq!(s.complete(42, Ok(0), true), None);
    assert!(!s.is_pending(42));
    assert_eq!(s.served(), 2);
}
