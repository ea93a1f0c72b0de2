use syscalld::error::SyscallError;
use syscalld::request::{decode_request, Notification, Request, AT_FDCWD, AUDIT_ARCH_X86_64, SYS_MKNOD, SYS_MKNODAT, SYS_QUOTACTL};

fn notification(nr: i32, args: [u64; 6]) -> Notification {
    Notification { id: 7, pid: 4242, arch: AUDIT_ARCH_X86_64, nr, args, caps: 0 }
}

#[test]
fn decodes_mknod() {
    let n = notification(SYS_MKNOD, [0x1000, 0o20666, 0x103, 9, 9, 9]);
    assert_eq!(
        decode_request(&n),
        Ok(Request::Mknod { dirfd: AT_FDCWD, path_addr: 0x1000, mode: 0o20666, dev: 0x103 })
    );
}

#[test]
fn decodes_mknodat_and_truncates_words() {
    let n = notification(SYS_MKNODAT, [0xffff_ffff_ffff_ff9c, 0x2000, 0x1_0000_21b6, 0x805, 0, 0]);
    assert_eq!(
        decode_request(&n),
        Ok(Request::Mknod { dirfd: -100, path_addr: 0x2000, mode: 0o20666, dev: 0x805 })
    );
}

#[test]
fn decodes_quotactl() {
    let n = notification(SYS_QUOTACTL, [0x8000_0700, 0x3000, 1000, 0x4000, 0, 0]);
    assert_eq!(
        decode_request(&n),
        Ok(Request::Quotactl { cmd: 0x8000_0700, special_addr: 0x3000, id: 1000, addr: 0x4000 })
    );
}

#[test]
fn other_calls_are_not_implemented() {
    let n = notification(2, [0; 6]);
    assert_eq!(decode_request(&n), Err(SyscallError::NotImplemented));
    assert_eq!(SyscallError::NotImplemented.errno(), 38);
}

#[test]
fn error_codes() {
    assert_eq!(SyscallError::ProcessGone.errno(), 3);
    assert_eq!(SyscallError::InvalidArgument.errno(), 22);
    assert_eq!(SyscallError::PrivilegeDenied.errno(), 1);
    assert_eq!(SyscallError::ExecutorFault.errno(), 5);
    assert_eq!(SyscallError::Kernel(17).errno(), 17);
    assert_eq!(SyscallError::Kernel(0).errno(), 5);
    assert_eq!(SyscallError::Kernel(5000).errno(), 5);
}

#[test]
fn calls_of_another_architecture_are_not_implemented() {
    let n = Notification { arch: 0x4000_0003, ..notification(SYS_MKNOD, [0x1000, 0o20666, 0x103, 0, 0, 0]) };
    assert_eq!(decode_request(&n), Err(SyscallError::NotImplemented));
}
