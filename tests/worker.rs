use syscalld::capability::OpKind;
use syscalld::error::SyscallError;
use syscalld::worker::{conclude, encode_report, parse_report, worker_plan, Cleanup, Outcome, WorkerEnd, WorkerStep};

#[test]
fn plan_enters_namespace_before_narrowing_and_drops_after() {
    assert_eq!(
        worker_plan(OpKind::Mknod),
        vec![
            WorkerStep::EnterNamespace,
            WorkerStep::SetCaps(1 << 27),
            WorkerStep::ApplyProfile,
            WorkerStep::Perform,
            WorkerStep::DropCaps,
            WorkerStep::Report,
            WorkerStep::Exit,
        ]
    );
    assert_eq!(worker_plan(OpKind::Quotactl)[1], WorkerStep::SetCaps(1 << 21));
}

#[test]
fn report_bytes_are_little_endian() {
    assert_eq!(encode_report(Outcome::Value(0x0102)), vec![0, 2, 1, 0, 0, 0, 0, 0, 0]);
    assert_eq!(encode_report(Outcome::Errno(17)), vec![1, 17, 0, 0, 0, 0, 0, 0, 0]);
    assert_eq!(encode_report(Outcome::Value(-1)), vec![0, 255, 255, 255, 255, 255, 255, 255, 255]);
}

#[test]
fn report_round_trip() {
    for v in [0i64, 1, -1, i64::MAX, i64::MIN, 0x1234_5678_9abc] {
        assert_eq!(parse_report(&encode_report(Outcome::Value(v))), Ok(v));
    }
    for e in [1i32, 17, 4095] {
        assert_eq!(parse_report(&encode_report(Outcome::Errno(e))), Err(SyscallError::Kernel(e)));
    }
}

#[test]
fn malformed_reports_are_faults() {
    assert_eq!(parse_report(&vec![]), Err(SyscallError::ExecutorFault));
    assert_eq!(parse_report(&vec![0; 8]), Err(SyscallError::ExecutorFault));
    assert_eq!(parse_report(&vec![0; 10]), Err(SyscallError::ExecutorFault));
    assert_eq!(parse_report(&vec![2, 0, 0, 0, 0, 0, 0, 0, 0]), Err(SyscallError::ExecutorFault));
    assert_eq!(parse_report(&encode_report(Outcome::Errno(0))), Err(SyscallError::ExecutorFault));
    assert_eq!(parse_report(&encode_report(Outcome::Errno(4096))), Err(SyscallError::ExecutorFault));
    assert_eq!(parse_report(&encode_report(Outcome::Errno(-5))), Err(SyscallError::ExecutorFault));
}

#[test]
fn timed_out_worker_is_a_fault_and_is_killed() {
    assert_eq!(conclude(&WorkerEnd::TimedOut), (Err(SyscallError::ExecutorFault), Cleanup::KillAndReap));
}

#[test]
fn ended_workers_are_reaped() {
    assert_eq!(conclude(&WorkerEnd::Killed), (Err(SyscallError::ExecutorFault), Cleanup::Reap));
    let end = WorkerEnd::Exited { status: 1, report: encode_report(Outcome::Value(0)) };
    assert_eq!(conclude(&end), (Err(SyscallError::ExecutorFault), Cleanup::Reap));
    let end = WorkerEnd::Exited { status: 0, report: vec![] };
    assert_eq!(conclude(&end), (Err(SyscallError::ExecutorFault), Cleanup::Reap));
    let end = WorkerEnd::Exited { status: 0, report: encode_report(Outcome::Errno(17)) };
    assert_eq!(conclude(&end), (Err(SyscallError::Kernel(17)), Cleanup::Reap));
}
