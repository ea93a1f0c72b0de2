use syscalld::request::{Notification, SYS_MKNODAT};
use syscalld::session::Response;
use syscalld::wire::{encode_response, parse_hex_u64, parse_notification, NOTIF_LEN, RESP_LEN};

fn record(id: u64, pid: u32, nr: i32, args: [u64; 6]) -> Vec<u8> {
    let mut v = Vec::new();
    v.extend_from_slice(&id.to_le_bytes());
    v.extend_from_slice(&pid.to_le_bytes());
    v.extend_from_slice(&0u32.to_le_bytes());
    v.extend_from_slice(&nr.to_le_bytes());
    v.extend_from_slice(&0xc000_003eu32.to_le_bytes());
    v.extend_from_slice(&0x7f00_1234u64.to_le_bytes());
    for a in args {
        v.extend_from_slice(&a.to_le_bytes());
    }
    v
}

#[test]
fn notification_record_is_read_field_by_field() {
    let args = [0xffff_ffff_ffff_ff9c, 0x7ffd_0000_1000, 0o20666, 0x103, 5, 6];
    let bytes = record(0x1122_3344_5566_7788, 4242, SYS_MKNODAT, args);
    assert_eq!(bytes.len(), NOTIF_LEN);
    assert_eq!(
        parse_notification(&bytes, 1 << 27),
        Some(Notification { id: 0x1122_3344_5566_7788, pid: 4242, arch: 0xc000_003e, nr: SYS_MKNODAT, args, caps: 1 << 27 })
    );
}

#[test]
fn short_or_long_record_is_refused() {
    let bytes = record(1, 2, 3, [0; 6]);
    assert_eq!(parse_notification(&bytes[..79].to_vec(), 0), None);
    let mut long = bytes.clone();
    long.push(0);
    assert_eq!(parse_notification(&long, 0), None);
}

#[test]
fn response_record_layout() {
    let out = encode_response(&Response { id: 0x0102_0304_0506_0708, val: -1, error: -22 });
    assert_eq!(out.len(), RESP_LEN);
    let mut want = Vec::new();
    want.extend_from_slice(&0x0102_0304_0506_0708u64.to_le_bytes());
    want.extend_from_slice(&(-1i64).to_le_bytes());
    want.extend_from_slice(&(-22i32).to_le_bytes());
    want.extend_from_slice(&0u32.to_le_bytes());
    assert_eq!(out, want);
}

#[test]
fn hex_masks() {
    assert_eq!(parse_hex_u64(&b"0000003fffffffff".to_vec()), Some(0x3f_ffff_ffff));
    assert_eq!(parse_hex_u64(&b"08000000".to_vec()), Some(1 << 27));
    assert_eq!(parse_hex_u64(&b"FFFFFFFFFFFFFFFF".to_vec()), Some(u64::MAX));
    assert_eq!(parse_hex_u64(&b"aB".to_vec()), Some(0xab));
    assert_eq!(parse_hex_u64(&b"".to_vec()), None);
    assert_eq!(parse_hex_u64(&b"10000000000000000".to_vec()), None);
    assert_eq!(parse_hex_u64(&b"12g4".to_vec()), None);
}
