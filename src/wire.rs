//! The kernel's notification and response records, and the capability mask
//! of a process status file, as bytes.
use vstd::prelude::*;
use crate::request::Notification;
use crate::session::Response;
use crate::worker::{byte_of, le_word};

verus! {

/// The size of a notification record: id, pid, flags, then the call's number,
/// architecture, instruction pointer and six argument words.
pub const NOTIF_LEN: usize = 80;

/// The size of a response record: id, value, error and flags.
pub const RESP_LEN: usize = 24;

/// The four little-endian bytes of `s` from `at` on, as a word.
pub open spec fn le_half(s: Seq<u8>, at: int) -> u32 {
    (s[at] as u32) | ((s[at + 1] as u32) << 8u32) | ((s[at + 2] as u32) << 16u32)
        | ((s[at + 3] as u32) << 24u32)
}

/// The notification a record holds, with capability set `caps`.
pub open spec fn notif_of(s: Seq<u8>, caps: u64) -> Notification {
    Notification {
        id: le_word(s, 0),
        pid: le_half(s, 8),
        arch: le_half(s, 20),
        nr: le_half(s, 16) as i32,
        args: [le_word(s, 32), le_word(s, 40), le_word(s, 48), le_word(s, 56), le_word(s, 64), le_word(s, 72)],
        caps,
    }
}

/// The eight bytes of `w`, least significant first.
pub open spec fn word_bytes(w: u64) -> Seq<u8> {
    seq![byte_of(w, 0), byte_of(w, 8), byte_of(w, 16), byte_of(w, 24),
        byte_of(w, 32), byte_of(w, 40), byte_of(w, 48), byte_of(w, 56)]
}

/// The record that carries a response; its flags are zero.
pub open spec fn response_bytes(r: Response) -> Seq<u8> {
    word_bytes(r.id) + word_bytes(r.val as u64) + word_bytes((r.error as u32) as u64).take(4)
        + seq![0u8, 0u8, 0u8, 0u8]
}

fn read_u64(s: &Vec<u8>, at: usize) -> (r: u64)
    requires
        at + 8 <= s@.len(),
        at <= NOTIF_LEN,
    ensures
        r == le_word(s@, at as int),
{
    (s[at] as u64) | ((s[at + 1] as u64) << 8u64) | ((s[at + 2] as u64) << 16u64)
        | ((s[at + 3] as u64) << 24u64) | ((s[at + 4] as u64) << 32u64)
        | ((s[at + 5] as u64) << 40u64) | ((s[at + 6] as u64) << 48u64)
        | ((s[at + 7] as u64) << 56u64)
}

fn read_u32(s: &Vec<u8>, at: usize) -> (r: u32)
    requires
        at + 4 <= s@.len(),
        at <= NOTIF_LEN,
    ensures
        r == le_half(s@, at as int),
{
    (s[at] as u32) | ((s[at + 1] as u32) << 8u32) | ((s[at + 2] as u32) << 16u32)
        | ((s[at + 3] as u32) << 24u32)
}

fn push_word(out: &mut Vec<u8>, w: u64, n: usize)
    requires
        n <= 8,
    ensures
        final(out)@ == old(out)@ + word_bytes(w).take(n as int),
{
    let ghost o = out@;
    let mut i: usize = 0;
    while i < n
        invariant
            n <= 8,
            i <= n,
            out@ == o + word_bytes(w).take(i as int),
        decreases n - i,
    {
        let b = ((w >> (8 * i as u64)) & 0xffu64) as u8;
        assert(b == word_bytes(w)[i as int]);
        out.push(b);
        assert(word_bytes(w).take(i + 1) =~= word_bytes(w).take(i as int).push(b));
        assert(out@ =~= o + word_bytes(w).take(i + 1));
        i = i + 1;
    }
}

/// Reads a notification record; `caps` is the caller's capability set, read
/// elsewhere. A record of the wrong size gives `None`.
pub fn parse_notification(s: &Vec<u8>, caps: u64) -> (r: Option<Notification>)
    ensures
        r == (if s@.len() == NOTIF_LEN { Some(notif_of(s@, caps)) } else { None::<Notification> }),
{
    if s.len() != NOTIF_LEN {
        return None;
    }
    let args = [read_u64(s, 32), read_u64(s, 40), read_u64(s, 48), read_u64(s, 56), read_u64(s, 64), read_u64(s, 72)];
    let n = Notification { id: read_u64(s, 0), pid: read_u32(s, 8), arch: read_u32(s, 20), nr: read_u32(s, 16) as i32, args, caps };
    assert(n.args@ =~= notif_of(s@, caps).args@);
    Some(n)
}

/// The record that carries a response.
pub fn encode_response(r: &Response) -> (out: Vec<u8>)
    ensures
        out@ == response_bytes(*r),
        out@.len() == RESP_LEN,
{
    let mut out: Vec<u8> = Vec::new();
    push_word(&mut out, r.id, 8);
    push_word(&mut out, r.val as u64, 8);
    push_word(&mut out, (r.error as u32) as u64, 4);
    out.push(0);
    out.push(0);
    out.push(0);
    out.push(0);
    assert(word_bytes(r.id).take(8) =~= word_bytes(r.id));
    assert(word_bytes(r.val as u64).take(8) =~= word_bytes(r.val as u64));
    assert(out@ =~= response_bytes(*r));
    out
}

/// The value of a hexadecimal digit, of either case.
pub open spec fn hex_digit(c: u8) -> Option<u64> {
    if 48 <= c <= 57 {
        Some((c - 48) as u64)
    } else if 97 <= c <= 102 {
        Some((c - 87) as u64)
    } else if 65 <= c <= 70 {
        Some((c - 55) as u64)
    } else {
        None
    }
}

/// Whether every byte of `s` is a hexadecimal digit.
pub open spec fn all_hex(s: Seq<u8>) -> bool {
    forall|i: int| 0 <= i < s.len() ==> (#[trigger] hex_digit(s[i])).is_some()
}

/// The number the hexadecimal digits `s` spell, most significant first.
pub open spec fn hex_value(s: Seq<u8>) -> int
    decreases s.len(),
{
    if s.len() == 0 {
        0
    } else {
        hex_value(s.drop_last()) * 16 + hex_digit(s.last()).unwrap_or(0) as int
    }
}

/// Sixteen to the power `n`.
pub open spec fn pow16(n: nat) -> int
    decreases n,
{
    if n == 0 {
        1
    } else {
        16 * pow16((n - 1) as nat)
    }
}

proof fn lemma_pow16_mono(a: nat, b: nat)
    requires
        a <= b,
    ensures
        1 <= pow16(a) <= pow16(b),
    decreases b,
{
    if b > 0 {
        if a < b {
            lemma_pow16_mono(a, (b - 1) as nat);
        } else {
            lemma_pow16_mono((b - 1) as nat, (b - 1) as nat);
        }
    }
}

fn hex_digit_value(c: u8) -> (r: Option<u64>)
    ensures
        r == hex_digit(c),
{
    if 48 <= c && c <= 57 {
        Some((c - 48) as u64)
    } else if 97 <= c && c <= 102 {
        Some((c - 87) as u64)
    } else if 65 <= c && c <= 70 {
        Some((c - 55) as u64)
    } else {
        None
    }
}

/// Reads one to sixteen hexadecimal digits, as a capability mask is written
/// in a process status file.
pub fn parse_hex_u64(s: &Vec<u8>) -> (r: Option<u64>)
    ensures
        r.is_some() == (1 <= s@.len() <= 16 && all_hex(s@)),
        r matches Some(v) ==> v as int == hex_value(s@),
{
    if s.len() == 0 || s.len() > 16 {
        return None;
    }
    let mut acc: u64 = 0;
    let mut i: usize = 0;
    assert(s@.subrange(0, 0) =~= seq![]);
    while i < s.len()
        invariant
            s@.len() <= 16,
            i <= s@.len(),
            all_hex(s@.subrange(0, i as int)),
            acc as int == hex_value(s@.subrange(0, i as int)),
            acc < pow16(i as nat),
        decreases s@.len() - i,
    {
        let d = match hex_digit_value(s[i]) {
            Some(d) => d,
            None => {
                assert(!all_hex(s@));
                return None;
            },
        };
        let ghost p = s@.subrange(0, i + 1);
        assert(p.drop_last() =~= s@.subrange(0, i as int));
        assert(hex_value(p) == acc * 16 + d);
        proof {
            lemma_pow16_mono((i + 1) as nat, 16);
            assert(pow16(16) == 0x1_0000_0000_0000_0000) by {
                reveal_with_fuel(pow16, 17);
            }
            assert(acc * 16 + d < 16 * pow16(i as nat)) by (nonlinear_arith)
                requires
                    acc < pow16(i as nat),
                    d < 16,
            ;
        }
        acc = acc * 16 + d;
        assert forall|j: int| 0 <= j < p.len() implies (#[trigger] hex_digit(p[j])).is_some() by {
            if j < i {
                assert(p[j] == s@.subrange(0, i as int)[j]);
            }
        }
        i = i + 1;
    }
    assert(s@.subrange(0, i as int) =~= s@);
    Some(acc)
}

} // verus!
