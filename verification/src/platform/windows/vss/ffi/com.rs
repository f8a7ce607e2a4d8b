//! The values the VSS COM interface works with: GUIDs in their textual form, volume
//! names in the form the interface expects, wide strings and result codes.
use vstd::prelude::*;

use super::RawSnapshotSet;
use super::cli::{matches_volume, volume_matches};
use crate::error::{Error, Fault, Result, fault};
use crate::text::{
    chars_of, decimal, push_chars, push_decimal, split_char, split_char_exec, starts_with,
    starts_with_exec, string_of, trim, trim_char_bounds, trim_end_char, trim_start_char, trimmed,
    views,
};
use crate::platform::windows::{trim_volume_separators, without_volume_separators};
use crate::types::{SnapshotHandle, SnapshotInfo, SnapshotInfoView, VolumeRef};

verus! {

// ---------------------------------------------------------------------------
// Hexadecimal digits
// ---------------------------------------------------------------------------

/// The upper-case hexadecimal digit for `d < 16`.
pub open spec fn hex_char(d: nat) -> char {
    if d == 0 { '0' } else if d == 1 { '1' } else if d == 2 { '2' } else if d == 3 { '3' }
    else if d == 4 { '4' } else if d == 5 { '5' } else if d == 6 { '6' } else if d == 7 { '7' }
    else if d == 8 { '8' } else if d == 9 { '9' } else if d == 10 { 'A' } else if d == 11 { 'B' }
    else if d == 12 { 'C' } else if d == 13 { 'D' } else if d == 14 { 'E' } else { 'F' }
}

/// The last `w` upper-case hexadecimal digits of `n`, zeros in front (`{:0wX}` for
/// `n < 16^w`).
pub open spec fn hex_fixed(n: nat, w: nat) -> Seq<char>
    decreases w,
{
    if w == 0 {
        seq![]
    } else {
        hex_fixed(n / 16, (w - 1) as nat).push(hex_char(n % 16))
    }
}

fn hex_char_exec(d: u64) -> (c: char)
    requires
        d < 16,
    ensures
        c == hex_char(d as nat),
{
    if d == 0 { '0' } else if d == 1 { '1' } else if d == 2 { '2' } else if d == 3 { '3' }
    else if d == 4 { '4' } else if d == 5 { '5' } else if d == 6 { '6' } else if d == 7 { '7' }
    else if d == 8 { '8' } else if d == 9 { '9' } else if d == 10 { 'A' } else if d == 11 { 'B' }
    else if d == 12 { 'C' } else if d == 13 { 'D' } else if d == 14 { 'E' } else { 'F' }
}

/// Appends the last `w` hexadecimal digits of `n`.
fn push_hex(out: &mut Vec<char>, n: u64, w: u64)
    ensures
        final(out)@ == old(out)@ + hex_fixed(n as nat, w as nat),
    decreases w,
{
    if w == 0 {
        assert(old(out)@ + hex_fixed(n as nat, 0) =~= old(out)@);
    } else {
        push_hex(out, n / 16, w - 1);
        out.push(hex_char_exec(n % 16));
        assert(old(out)@ + hex_fixed((n / 16) as nat, (w - 1) as nat) + seq![hex_char((n % 16) as nat)]
            =~= old(out)@ + hex_fixed(n as nat, w as nat));
    }
}

// ---------------------------------------------------------------------------
// GUIDs
// ---------------------------------------------------------------------------

/// A VSS identifier (a GUID): its four fields as the interface lays them out.
#[derive(Debug, Clone, Copy)]
pub struct VssId {
    pub data1: u32,
    pub data2: u16,
    pub data3: u16,
    pub data4: [u8; 8],
}

/// The two hexadecimal digits of each byte.
pub open spec fn hex_bytes(b: Seq<u8>) -> Seq<char>
    decreases b.len(),
{
    if b.len() == 0 {
        seq![]
    } else {
        hex_bytes(b.drop_last()) + hex_fixed(b.last() as nat, 2)
    }
}

/// The registry form of a GUID, `{XXXXXXXX-XXXX-XXXX-XXXX-XXXXXXXXXXXX}`, in upper case.
pub open spec fn guid_text(d1: nat, d2: nat, d3: nat, d4: Seq<u8>) -> Seq<char> {
    seq!['{'] + hex_fixed(d1, 8) + seq!['-'] + hex_fixed(d2, 4) + seq!['-'] + hex_fixed(d3, 4)
        + seq!['-'] + hex_bytes(d4.subrange(0, 2)) + seq!['-'] + hex_bytes(d4.subrange(2, 8))
        + seq!['}']
}

/// The registry form of an identifier.
pub open spec fn id_text(id: VssId) -> Seq<char> {
    guid_text(id.data1 as nat, id.data2 as nat, id.data3 as nat, id.data4@)
}

fn push_hex_bytes(out: &mut Vec<char>, b: &[u8; 8], from: usize, to: usize)
    requires
        from <= to <= 8,
    ensures
        final(out)@ == old(out)@ + hex_bytes(b@.subrange(from as int, to as int)),
{
    let mut i: usize = from;
    assert(hex_bytes(b@.subrange(from as int, from as int)) =~= seq![]);
    assert(old(out)@ + seq![] =~= old(out)@);
    while i < to
        invariant
            from <= i <= to <= 8,
            b@.len() == 8,
            out@ == old(out)@ + hex_bytes(b@.subrange(from as int, i as int)),
        decreases to - i,
    {
        push_hex(out, b[i] as u64, 2);
        proof {
            let s = b@.subrange(from as int, i + 1);
            assert(s.drop_last() =~= b@.subrange(from as int, i as int));
            assert(s.last() == b@[i as int]);
        }
        i = i + 1;
    }
}

impl VssId {
    /// The all-zero identifier.
    pub fn zero() -> (r: Self)
        ensures
            r.data1 == 0,
            r.data2 == 0,
            r.data3 == 0,
            r.data4@ == seq![0u8, 0u8, 0u8, 0u8, 0u8, 0u8, 0u8, 0u8],
    {
        VssId { data1: 0, data2: 0, data3: 0, data4: [0u8, 0u8, 0u8, 0u8, 0u8, 0u8, 0u8, 0u8] }
    }

    /// The registry form of the identifier.
    pub fn to_guid_string(&self) -> (r: String)
        ensures
            r@ == id_text(*self),
    {
        let mut out: Vec<char> = Vec::new();
        out.push('{');
        push_hex(&mut out, self.data1 as u64, 8);
        out.push('-');
        push_hex(&mut out, self.data2 as u64, 4);
        out.push('-');
        push_hex(&mut out, self.data3 as u64, 4);
        out.push('-');
        push_hex_bytes(&mut out, &self.data4, 0, 2);
        out.push('-');
        push_hex_bytes(&mut out, &self.data4, 2, 8);
        out.push('}');
        assert(out@ =~= id_text(*self));
        string_of(out.as_slice())
    }
}

/// The registry form of an identifier.
pub fn guid_to_string(id: &VssId) -> (r: String)
    ensures
        r@ == id_text(*id),
{
    id.to_guid_string()
}

/// The snapshot set a device path belongs to: the snapshot's id names the set too.
pub fn snapshot_info_from_device(snapshot_id: &str, source_volume: &str, device_path: &str) -> (r:
    RawSnapshotSet)
    ensures
        r.snapshot_set_id@ == snapshot_id@,
        r.snapshot_id@ == snapshot_id@,
        r.device_path@ == device_path@,
{
    RawSnapshotSet {
        snapshot_set_id: String::from_str(snapshot_id),
        snapshot_id: String::from_str(snapshot_id),
        device_path: String::from_str(device_path),
    }
}


// ---------------------------------------------------------------------------
// Reading GUIDs
// ---------------------------------------------------------------------------

/// The value of a hexadecimal digit, either case.
pub open spec fn hex_digit_value(c: char) -> Option<nat> {
    let u = c as u32;
    if 48 <= u && u <= 57 {
        Some((u - 48) as nat)
    } else if 65 <= u && u <= 70 {
        Some((u - 55) as nat)
    } else if 97 <= u && u <= 102 {
        Some((u - 87) as nat)
    } else {
        None
    }
}

pub open spec fn all_hex(s: Seq<char>) -> bool {
    forall|i: int| 0 <= i < s.len() ==> (#[trigger] hex_digit_value(s[i])) is Some
}

/// The number that hexadecimal digits spell.
pub open spec fn hex_value(s: Seq<char>) -> nat
    decreases s.len(),
{
    if s.len() == 0 {
        0
    } else {
        hex_value(s.drop_last()) * 16 + match hex_digit_value(s.last()) {
            Some(d) => d,
            None => 0,
        }
    }
}

/// `from_str_radix(s, 16)` for an unsigned type whose largest value is `max`: an
/// optional `+`, then at least one hexadecimal digit, spelling at most `max`.
pub open spec fn radix16(s: Seq<char>, max: nat) -> Option<nat> {
    let d = if s.len() > 0 && s[0] == '+' {
        s.drop_first()
    } else {
        s
    };
    if d.len() > 0 && all_hex(d) && hex_value(d) <= max {
        Some(hex_value(d))
    } else {
        None
    }
}

fn hex_digit_exec(c: char) -> (r: Option<u64>)
    ensures
        match r {
            Some(d) => hex_digit_value(c) == Some(d as nat) && d < 16,
            None => hex_digit_value(c) is None,
        },
{
    let u = c as u32;
    if 48 <= u && u <= 57 {
        Some((u - 48) as u64)
    } else if 65 <= u && u <= 70 {
        Some((u - 55) as u64)
    } else if 97 <= u && u <= 102 {
        Some((u - 87) as u64)
    } else {
        None
    }
}

/// `from_str_radix(s, 16)` for an unsigned type of at most 32 bits.
fn radix16_exec(s: &[char], max: u64) -> (r: Option<u64>)
    requires
        max < 0x1_0000_0000,
    ensures
        match r {
            Some(v) => radix16(s@, max as nat) == Some(v as nat),
            None => radix16(s@, max as nat) is None,
        },
{
    let n = s.len();
    let start: usize = if n > 0 && s[0] == '+' {
        1
    } else {
        0
    };
    let ghost d = if s@.len() > 0 && s@[0] == '+' {
        s@.drop_first()
    } else {
        s@
    };
    assert(d =~= s@.subrange(start as int, n as int));
    if start == n {
        return None;
    }
    let mut acc: u64 = 0;
    let mut i: usize = start;
    assert(s@.subrange(start as int, start as int) =~= Seq::<char>::empty());
    while i < n
        invariant
            start <= i <= n,
            n == s@.len(),
            max < 0x1_0000_0000,
            d == s@.subrange(start as int, n as int),
            d == (if s@.len() > 0 && s@[0] == '+' {
                s@.drop_first()
            } else {
                s@
            }),
            all_hex(s@.subrange(start as int, i as int)),
            acc <= max ==> acc == hex_value(s@.subrange(start as int, i as int)),
            acc > max ==> hex_value(s@.subrange(start as int, i as int)) > max,
            acc <= max + 1,
        decreases n - i,
    {
        let ghost pre = s@.subrange(start as int, i as int);
        let ghost next = s@.subrange(start as int, i + 1);
        assert(next.drop_last() =~= pre);
        match hex_digit_exec(s[i]) {
            Some(v) => {
                if acc <= max {
                    let a = acc * 16 + v;
                    acc = if a > max {
                        max + 1
                    } else {
                        a
                    };
                }
                assert(forall|j: int| 0 <= j < next.len() ==> next[j] == s@[start + j]);
                assert(all_hex(next)) by {
                    assert forall|j: int| 0 <= j < next.len() implies (#[trigger] hex_digit_value(
                        next[j],
                    )) is Some by {
                        if j < pre.len() {
                            assert(next[j] == pre[j]);
                        }
                    }
                }
            },
            None => {
                proof {
                    assert(d[i - start] == s@[i as int]);
                    assert(hex_digit_value(d[i - start]) is None);
                    assert(!all_hex(d));
                }
                return None;
            },
        }
        i = i + 1;
    }
    assert(s@.subrange(start as int, i as int) == d);
    if acc <= max {
        Some(acc)
    } else {
        None
    }
}

/// The part of a GUID between the braces: trimmed, then without leading `{` and
/// trailing `}`.
pub open spec fn guid_body(s: Seq<char>) -> Seq<char> {
    trim_end_char(trim_start_char(trim(s), '{'), '}')
}

/// The bytes of the last two groups from the `i`th pair on, or the first pair that is
/// missing or no byte.
pub open spec fn pair_bytes(c: Seq<char>, i: nat) -> std::result::Result<Seq<nat>, nat>
    decreases 8 - i,
{
    if i >= 8 {
        Ok(seq![])
    } else if 2 * i + 2 > c.len() {
        Err(i)
    } else {
        match radix16(c.subrange(2 * i as int, 2 * i as int + 2), 0xff) {
            Some(v) => match pair_bytes(c, i + 1) {
                Ok(rest) => Ok(seq![v] + rest),
                Err(j) => Err(j),
            },
            None => Err(i),
        }
    }
}

/// What reading a GUID gives: its fields, or why it is refused.
pub open spec fn parsed_guid(s: Seq<char>) -> std::result::Result<(nat, nat, nat, Seq<nat>), Fault> {
    let b = guid_body(s);
    let parts = split_char(b, '-');
    if parts.len() != 5 {
        Err(Fault::InvalidArgument { message: "invalid GUID: `"@ + b + "`"@ })
    } else {
        match radix16(parts[0], 0xffff_ffff) {
            None => Err(Fault::InvalidArgument { message: "invalid GUID data1: `"@ + parts[0] + "`"@ }),
            Some(d1) => match radix16(parts[1], 0xffff) {
                None => Err(
                    Fault::InvalidArgument { message: "invalid GUID data2: `"@ + parts[1] + "`"@ },
                ),
                Some(d2) => match radix16(parts[2], 0xffff) {
                    None => Err(
                        Fault::InvalidArgument {
                            message: "invalid GUID data3: `"@ + parts[2] + "`"@,
                        },
                    ),
                    Some(d3) => match pair_bytes(parts[3] + parts[4], 0) {
                        Ok(d4) => Ok((d1, d2, d3, d4)),
                        Err(i) => Err(
                            Fault::InvalidArgument {
                                message: "invalid GUID data4 byte "@ + decimal(i),
                            },
                        ),
                    },
                },
            },
        }
    }
}

/// The numbers of a byte sequence.
pub open spec fn byte_values(v: Seq<u8>) -> Seq<nat> {
    v.map_values(|x: u8| x as nat)
}

/// A result of `pair_bytes` after the bytes `m` read before it.
spec fn after_bytes(m: Seq<nat>, r: std::result::Result<Seq<nat>, nat>) -> std::result::Result<Seq<nat>, nat> {
    match r {
        Ok(b) => Ok(m + b),
        Err(j) => Err(j),
    }
}

fn pair_bytes_exec(c: &[char]) -> (r: std::result::Result<Vec<u8>, usize>)
    ensures
        match pair_bytes(c@, 0) {
            Ok(b) => r matches Ok(v) && v@.len() == 8 && byte_values(v@) == b,
            Err(i) => r == Err::<Vec<u8>, usize>(i as usize),
        },
{
    let n = c.len();
    let mut out: Vec<u8> = Vec::new();
    let mut i: usize = 0;
    assert(byte_values(out@) + Seq::<nat>::empty() =~= Seq::<nat>::empty());
    proof {
        match pair_bytes(c@, 0) {
            Ok(b) => { assert(byte_values(out@) + b =~= b); },
            Err(_) => {},
        }
    }
    while i < 8
        invariant
            n == c@.len(),
            i <= 8,
            out@.len() == i,
            pair_bytes(c@, 0) == after_bytes(byte_values(out@), pair_bytes(c@, i as nat)),
        decreases 8 - i,
    {
        let k = 2 * i;
        if k + 2 > n {
            return Err(i);
        }
        let pair = crate::text::slice_chars(c, k, k + 2);
        match radix16_exec(pair.as_slice(), 0xff) {
            Some(v) => {
                proof {
                    let m = byte_values(out@);
                    let m2 = byte_values(out@.push(v as u8));
                    assert(m2 =~= m.push(v as nat));
                    match pair_bytes(c@, (i + 1) as nat) {
                        Ok(rest) => {
                            assert(m + (seq![v as nat] + rest) =~= m2 + rest);
                        },
                        Err(_) => {},
                    }
                }
                out.push(v as u8);
            },
            None => {
                return Err(i);
            },
        }
        i = i + 1;
    }
    proof {
        assert(pair_bytes(c@, 8) == Ok::<Seq<nat>, nat>(seq![]));
        assert(byte_values(out@) + seq![] =~= byte_values(out@));
    }
    Ok(out)
}

proof fn lemma_pair_bytes_err_bound(c: Seq<char>, i: nat)
    ensures
        pair_bytes(c, i) matches Err(j) ==> i <= j < 8,
    decreases 8 - i,
{
    if i < 8 {
        lemma_pair_bytes_err_bound(c, i + 1);
    }
}

/// The part of a GUID between the braces.
fn guid_body_exec(s: &str) -> (r: Vec<char>)
    ensures
        r@ == guid_body(s@),
{
    let v = chars_of(s);
    let t = trimmed(v.as_slice());
    let (a, _b) = trim_char_bounds(t.as_slice(), '{');
    let open_trimmed = crate::text::slice_chars(t.as_slice(), a, t.len());
    let e = crate::text::trim_end_char_bound(open_trimmed.as_slice(), '}');
    crate::text::slice_chars(open_trimmed.as_slice(), 0, e)
}

/// The refusal of a GUID: `prefix`, the offending text, and a closing back-quote.
fn refusal(prefix: &str, text: &[char]) -> (e: Error)
    ensures
        fault(e) == (Fault::InvalidArgument { message: prefix@ + text@ + "`"@ }),
{
    let mut m = chars_of(prefix);
    push_chars(&mut m, text);
    crate::text::push_str(&mut m, "`");
    Error::InvalidArgument { message: string_of(m.as_slice()) }
}

/// Read a GUID, with or without braces, in either case.
#[verifier::rlimit(40)]
pub fn parse_guid(s: &str) -> (r: Result<VssId>)
    ensures
        match parsed_guid(s@) {
            Ok((d1, d2, d3, d4)) => r matches Ok(id) && id.data1 == d1 && id.data2 == d2 && id.data3
                == d3 && byte_values(id.data4@) == d4,
            Err(f) => r matches Err(e) && fault(e) == f,
        },
{
    let body = guid_body_exec(s);
    let parts = split_char_exec(body.as_slice(), '-');
    if parts.len() != 5 {
        return Err(refusal("invalid GUID: `", body.as_slice()));
    }
    let ghost ps = split_char(guid_body(s@), '-');
    assert(parts@[0]@ == ps[0] && parts@[1]@ == ps[1] && parts@[2]@ == ps[2] && parts@[3]@
        == ps[3] && parts@[4]@ == ps[4]) by {
        assert(views(parts@)[0] == parts@[0]@);
        assert(views(parts@)[1] == parts@[1]@);
        assert(views(parts@)[2] == parts@[2]@);
        assert(views(parts@)[3] == parts@[3]@);
        assert(views(parts@)[4] == parts@[4]@);
    }
    let d1 = match radix16_exec(parts[0].as_slice(), 0xffff_ffff) {
        Some(d) => d,
        None => {
            return Err(refusal("invalid GUID data1: `", parts[0].as_slice()));
        },
    };
    let d2 = match radix16_exec(parts[1].as_slice(), 0xffff) {
        Some(d) => d,
        None => {
            return Err(refusal("invalid GUID data2: `", parts[1].as_slice()));
        },
    };
    let d3 = match radix16_exec(parts[2].as_slice(), 0xffff) {
        Some(d) => d,
        None => {
            return Err(refusal("invalid GUID data3: `", parts[2].as_slice()));
        },
    };
    let mut last = crate::text::slice_chars(parts[3].as_slice(), 0, parts[3].len());
    push_chars(&mut last, parts[4].as_slice());
    assert(last@ == ps[3] + ps[4]);
    let d4 = match pair_bytes_exec(last.as_slice()) {
        Ok(d4) => d4,
        Err(i) => {
            proof {
                lemma_pair_bytes_err_bound(last@, 0);
            }
            let mut m = chars_of("invalid GUID data4 byte ");
            push_decimal(&mut m, i as u64);
            return Err(Error::InvalidArgument { message: string_of(m.as_slice()) });
        },
    };
    let data4: [u8; 8] = [d4[0], d4[1], d4[2], d4[3], d4[4], d4[5], d4[6], d4[7]];
    assert(data4@ =~= d4@);
    Ok(VssId { data1: d1 as u32, data2: d2 as u16, data3: d3 as u16, data4 })
}


// ---------------------------------------------------------------------------
// Volume names, wide strings and result codes
// ---------------------------------------------------------------------------

/// The volume name the interface expects: volume GUID paths as they are, a drive
/// (`X:` with anything after it) without trailing separators and with one backslash,
/// anything else as it is.
pub open spec fn normalized_volume(p: Seq<char>) -> Seq<char> {
    if starts_with(p, "\\\\?\\Volume{"@) || starts_with(p, "\\\\.\\Volume{"@) {
        p
    } else if p.len() >= 2 && (p[0] as u32) < 128 && p[1] == ':' {
        trim_volume_separators(p) + seq!['\\']
    } else {
        p
    }
}

/// The volume name the interface expects for `path`.
pub fn normalize_volume_path(path: &str) -> (r: String)
    ensures
        r@ == normalized_volume(path@),
{
    let v = chars_of(path);
    if starts_with_exec(v.as_slice(), chars_of("\\\\?\\Volume{").as_slice())
        || starts_with_exec(v.as_slice(), chars_of("\\\\.\\Volume{").as_slice()) {
        return String::from_str(path);
    }
    if v.len() >= 2 && (v[0] as u32) < 128 && v[1] == ':' {
        let mut t = without_volume_separators(path);
        t.push('\\');
        return string_of(t.as_slice());
    }
    String::from_str(path)
}

/// The UTF-16 code units of a character.
pub open spec fn utf16_units(c: char) -> Seq<u16> {
    let u = c as u32;
    if u < 0x10000 {
        seq![u as u16]
    } else {
        seq![(0xD800 + (u - 0x10000) / 1024) as u16, (0xDC00 + (u - 0x10000) % 1024) as u16]
    }
}

/// The UTF-16 encoding of a string (`str::encode_utf16`).
pub open spec fn utf16(s: Seq<char>) -> Seq<u16>
    decreases s.len(),
{
    if s.len() == 0 {
        seq![]
    } else {
        utf16(s.drop_last()) + utf16_units(s.last())
    }
}

/// A NUL-terminated UTF-16 string, as the interface takes strings.
pub fn wide_string(s: &str) -> (r: Vec<u16>)
    ensures
        r@ == utf16(s@).push(0u16),
{
    let v = chars_of(s);
    let mut out: Vec<u16> = Vec::new();
    let mut i: usize = 0;
    assert(v@.subrange(0, 0) =~= Seq::<char>::empty());
    while i < v.len()
        invariant
            i <= v@.len(),
            out@ == utf16(v@.subrange(0, i as int)),
        decreases v@.len() - i,
    {
        let u = v[i] as u32;
        if u < 0x10000 {
            out.push(u as u16);
        } else {
            let w = u - 0x10000;
            out.push((0xD800 + w / 1024) as u16);
            out.push((0xDC00 + w % 1024) as u16);
        }
        proof {
            let next = v@.subrange(0, i + 1);
            assert(next.drop_last() =~= v@.subrange(0, i as int));
            assert(next.last() == v@[i as int]);
        }
        i = i + 1;
    }
    assert(v@.subrange(0, v@.len() as int) =~= v@);
    out.push(0u16);
    out
}

/// An HRESULT read as the unsigned number it is printed as.
pub open spec fn hresult_bits(hr: i32) -> nat {
    if hr >= 0 {
        hr as nat
    } else {
        (hr + 0x1_0000_0000) as nat
    }
}

/// A COM result code as a result: success codes are not negative; a failure names the
/// operation and the code in hexadecimal.
pub fn hr_ok(hr: i32, operation: &'static str) -> (r: Result<()>)
    ensures
        hr >= 0 ==> r is Ok,
        hr < 0 ==> (r matches Err(e) && fault(e) == (Fault::Message {
            message: "VSS COM error in `"@ + operation@ + "`: HRESULT 0x"@ + hex_fixed(
                hresult_bits(hr),
                8,
            ),
        })),
{
    if hr >= 0 {
        return Ok(());
    }
    let bits: u64 = (hr as i64 + 0x1_0000_0000i64) as u64;
    let mut m = chars_of("VSS COM error in `");
    crate::text::push_str(&mut m, operation);
    crate::text::push_str(&mut m, "`: HRESULT 0x");
    push_hex(&mut m, bits, 8);
    Err(Error::Message { message: string_of(m.as_slice()) })
}


// ---------------------------------------------------------------------------
// Reading back what was written
// ---------------------------------------------------------------------------

/// `16^w`.
pub open spec fn pow16(w: nat) -> nat
    decreases w,
{
    if w == 0 {
        1
    } else {
        16 * pow16((w - 1) as nat)
    }
}

proof fn lemma_pow16_2()
    ensures
        pow16(2) == 256,
{
    reveal_with_fuel(pow16, 3);
}

proof fn lemma_hex_char(d: nat)
    requires
        d < 16,
    ensures
        hex_digit_value(hex_char(d)) == Some(d),
        (hex_char(d) as u32) < 0x80,
        hex_char(d) != '-' && hex_char(d) != '+' && hex_char(d) != '{' && hex_char(d) != '}',
        !crate::text::is_ws(hex_char(d)),
{
}

/// The digits of a number below `16^w`: `w` ASCII hexadecimal digits, none of them `-`,
/// that spell the number.
proof fn lemma_hex_fixed(n: nat, w: nat)
    requires
        n < pow16(w),
    ensures
        hex_fixed(n, w).len() == w,
        all_hex(hex_fixed(n, w)),
        hex_value(hex_fixed(n, w)) == n,
        forall|i: int|
            0 <= i < w ==> (#[trigger] hex_fixed(n, w)[i] as u32) < 0x80 && hex_fixed(n, w)[i]
                != '-' && hex_fixed(n, w)[i] != '+' && hex_fixed(n, w)[i] != '{' && hex_fixed(
                n,
                w,
            )[i] != '}' && !crate::text::is_ws(hex_fixed(n, w)[i]),
    decreases w,
{
    if w > 0 {
        let p = pow16((w - 1) as nat);
        assert(n / 16 < p) by (nonlinear_arith)
            requires
                n < 16 * p,
        ;
        lemma_hex_fixed(n / 16, (w - 1) as nat);
        lemma_hex_char(n % 16);
        let s = hex_fixed(n, w);
        let pre = hex_fixed(n / 16, (w - 1) as nat);
        assert(s.drop_last() =~= pre);
        assert(n == (n / 16) * 16 + n % 16) by (nonlinear_arith);
        assert forall|i: int| 0 <= i < s.len() implies (#[trigger] hex_digit_value(s[i])) is Some by {
            if i < pre.len() {
                assert(s[i] == pre[i]);
            }
        }
        assert forall|i: int| 0 <= i < w implies (#[trigger] s[i] as u32) < 0x80 && s[i] != '-'
            && s[i] != '+' && s[i] != '{' && s[i] != '}' && !crate::text::is_ws(s[i]) by {
            if i < pre.len() {
                assert(s[i] == pre[i]);
            }
        }
    }
}

proof fn lemma_radix16_fixed(n: nat, w: nat, max: nat)
    requires
        n < pow16(w),
        w > 0,
        n <= max,
    ensures
        radix16(hex_fixed(n, w), max) == Some(n),
{
    lemma_hex_fixed(n, w);
    assert(hex_fixed(n, w)[0] != '+');
}

proof fn lemma_hex_bytes_len(b: Seq<u8>)
    ensures
        hex_bytes(b).len() == 2 * b.len(),
        forall|i: int|
            0 <= i < 2 * b.len() ==> (#[trigger] hex_bytes(b)[i] as u32) < 0x80 && hex_bytes(b)[i]
                != '-' && hex_bytes(b)[i] != '{' && hex_bytes(b)[i] != '}'
                && !crate::text::is_ws(hex_bytes(b)[i]),
    decreases b.len(),
{
    if b.len() > 0 {
        lemma_hex_bytes_len(b.drop_last());
        lemma_pow16_2();
        lemma_hex_fixed(b.last() as nat, 2);
        let pre = hex_bytes(b.drop_last());
        let last = hex_fixed(b.last() as nat, 2);
        assert forall|i: int| 0 <= i < 2 * b.len() implies (#[trigger] hex_bytes(b)[i] as u32) < 0x80
            && hex_bytes(b)[i] != '-' && hex_bytes(b)[i] != '{' && hex_bytes(b)[i] != '}'
            && !crate::text::is_ws(hex_bytes(b)[i]) by {
            if i < pre.len() {
                assert(hex_bytes(b)[i] == pre[i]);
            } else {
                assert(hex_bytes(b)[i] == last[i - pre.len()]);
            }
        }
    }
}

/// The `i`th pair of the digits of bytes is the pair of the `i`th byte.
proof fn lemma_hex_bytes_pair(b: Seq<u8>, i: int)
    requires
        0 <= i < b.len(),
    ensures
        hex_bytes(b).subrange(2 * i, 2 * i + 2) == hex_fixed(b[i] as nat, 2),
    decreases b.len(),
{
    lemma_hex_bytes_len(b.drop_last());
    lemma_pow16_2();
    lemma_hex_fixed(b.last() as nat, 2);
    if i < b.len() - 1 {
        lemma_hex_bytes_pair(b.drop_last(), i);
        assert(hex_bytes(b).subrange(2 * i, 2 * i + 2) =~= hex_bytes(b.drop_last()).subrange(
            2 * i,
            2 * i + 2,
        ));
    } else {
        assert(hex_bytes(b).subrange(2 * i, 2 * i + 2) =~= hex_fixed(b[i] as nat, 2));
    }
}

proof fn lemma_hex_bytes_append(a: Seq<u8>, b: Seq<u8>)
    ensures
        hex_bytes(a + b) == hex_bytes(a) + hex_bytes(b),
    decreases b.len(),
{
    if b.len() == 0 {
        assert(a + b =~= a);
        assert(hex_bytes(a) + hex_bytes(b) =~= hex_bytes(a));
    } else {
        lemma_hex_bytes_append(a, b.drop_last());
        assert((a + b).drop_last() =~= a + b.drop_last());
        assert(hex_bytes(a) + hex_bytes(b) =~= hex_bytes(a) + hex_bytes(b.drop_last())
            + hex_fixed(b.last() as nat, 2));
    }
}

/// The byte pairs of the digits of eight bytes read back as the bytes, from any pair on.
proof fn lemma_pairs_read_back(b: Seq<u8>, i: nat)
    requires
        b.len() == 8,
        i <= 8,
    ensures
        pair_bytes(hex_bytes(b), i) == Ok::<Seq<nat>, nat>(byte_values(b.subrange(i as int, 8))),
    decreases 8 - i,
{
    lemma_hex_bytes_len(b);
    let c = hex_bytes(b);
    if i < 8 {
        lemma_pairs_read_back(b, i + 1);
        lemma_hex_bytes_pair(b, i as int);
        lemma_pow16_2();
        lemma_hex_fixed(b[i as int] as nat, 2);
        lemma_radix16_fixed(b[i as int] as nat, 2, 0xff);
        assert(byte_values(b.subrange(i as int, 8)) =~= seq![b[i as int] as nat] + byte_values(
            b.subrange(i as int + 1, 8),
        ));
        assert(c[2 * i as int] == hex_fixed(b[i as int] as nat, 2)[0]);
        assert(c[2 * i as int + 1] == hex_fixed(b[i as int] as nat, 2)[1]);
    } else {
        assert(byte_values(b.subrange(8, 8)) =~= Seq::<nat>::empty());
    }
}

proof fn lemma_split_piece(a: Seq<char>, rest: Seq<char>)
    requires
        forall|i: int| 0 <= i < a.len() ==> a[i] != '-',
    ensures
        split_char(a + seq!['-'] + rest, '-') == seq![a] + split_char(rest, '-'),
{
    let s = a + seq!['-'] + rest;
    assert forall|j: int| 0 <= j < a.len() implies s[j] != '-' by {
        assert(s[j] == a[j]);
    }
    crate::text::lemma_find_char_is(s, '-', a.len() as int);
    assert(s.subrange(0, a.len() as int) =~= a);
    assert(s.subrange(a.len() as int + 1, s.len() as int) =~= rest);
}

proof fn lemma_split_whole(a: Seq<char>)
    requires
        forall|i: int| 0 <= i < a.len() ==> a[i] != '-',
    ensures
        split_char(a, '-') == seq![a],
{
    crate::text::lemma_find_char(a, '-');
}

/// Reading back the registry form of an identifier gives the identifier.
pub proof fn lemma_guid_round_trip(id: VssId)
    ensures
        parsed_guid(id_text(id)) == Ok::<(nat, nat, nat, Seq<nat>), Fault>(
            (id.data1 as nat, id.data2 as nat, id.data3 as nat, byte_values(id.data4@)),
        ),
{
    let d4 = id.data4@;
    assert(d4.len() == 8);
    let h1 = hex_fixed(id.data1 as nat, 8);
    let h2 = hex_fixed(id.data2 as nat, 4);
    let h3 = hex_fixed(id.data3 as nat, 4);
    let b2 = hex_bytes(d4.subrange(0, 2));
    let b6 = hex_bytes(d4.subrange(2, 8));
    assert(pow16(8) == 0x1_0000_0000) by {
        reveal_with_fuel(pow16, 9);
    }
    assert(pow16(4) == 0x10000) by {
        reveal_with_fuel(pow16, 5);
    }
    assert(pow16(2) == 0x100) by {
        reveal_with_fuel(pow16, 3);
    }
    lemma_hex_fixed(id.data1 as nat, 8);
    lemma_hex_fixed(id.data2 as nat, 4);
    lemma_hex_fixed(id.data3 as nat, 4);
    lemma_hex_bytes_len(d4.subrange(0, 2));
    lemma_hex_bytes_len(d4.subrange(2, 8));
    let body = h1 + seq!['-'] + h2 + seq!['-'] + h3 + seq!['-'] + b2 + seq!['-'] + b6;
    let text = id_text(id);
    assert(text =~= seq!['{'] + body + seq!['}']);
    // `trim` keeps the text; the braces go.
    assert(trim(text) == text) by {
        assert(crate::text::trim_start_by(text, crate::text::ws_pred()) == text);
        assert(crate::text::trim_end_by(text, crate::text::ws_pred()) == text);
    }
    assert(trim_start_char(text, '{') == body + seq!['}']) by {
        assert(text.drop_first() =~= body + seq!['}']);
        assert((body + seq!['}'])[0] == h1[0]);
        assert(crate::text::trim_start_by(body + seq!['}'], crate::text::char_pred('{')) == body
            + seq!['}']);
    }
    assert(trim_end_char(body + seq!['}'], '}') == body) by {
        assert((body + seq!['}']).drop_last() =~= body);
        assert(body.last() == b6.last());
        assert(crate::text::trim_end_by(body, crate::text::char_pred('}')) == body);
    }
    assert(guid_body(text) == body);
    // The five groups.
    assert forall|i: int| 0 <= i < h1.len() implies h1[i] != '-' by {}
    assert forall|i: int| 0 <= i < h2.len() implies h2[i] != '-' by {}
    assert forall|i: int| 0 <= i < h3.len() implies h3[i] != '-' by {}
    assert forall|i: int| 0 <= i < b2.len() implies b2[i] != '-' by {}
    assert forall|i: int| 0 <= i < b6.len() implies b6[i] != '-' by {}
    let r4 = b2 + seq!['-'] + b6;
    let r3 = h3 + seq!['-'] + r4;
    let r2 = h2 + seq!['-'] + r3;
    assert(body =~= h1 + seq!['-'] + r2);
    lemma_split_piece(h1, r2);
    assert(r2 =~= h2 + seq!['-'] + r3);
    lemma_split_piece(h2, r3);
    lemma_split_piece(h3, r4);
    lemma_split_piece(b2, b6);
    lemma_split_whole(b6);
    let parts = split_char(body, '-');
    assert(parts =~= seq![h1, h2, h3, b2, b6]);
    lemma_radix16_fixed(id.data1 as nat, 8, 0xffff_ffff);
    lemma_radix16_fixed(id.data2 as nat, 4, 0xffff);
    lemma_radix16_fixed(id.data3 as nat, 4, 0xffff);
    lemma_hex_bytes_append(d4.subrange(0, 2), d4.subrange(2, 8));
    assert(d4.subrange(0, 2) + d4.subrange(2, 8) =~= d4);
    lemma_pairs_read_back(d4, 0);
    assert(d4.subrange(0, 8) =~= d4);
}


// ---------------------------------------------------------------------------
// Snapshot records of a query
// ---------------------------------------------------------------------------

/// The object type of a snapshot record in a query's answer.
pub const VSS_OBJECT_SNAPSHOT: u32 = 3;

/// The path a snapshot record offers: its exposed name when it has one, else its device
/// object when it has one.
pub open spec fn record_path_hint(device: Seq<char>, exposed: Seq<char>) -> Option<Seq<char>> {
    if exposed.len() > 0 {
        Some(exposed)
    } else if device.len() > 0 {
        Some(device)
    } else {
        None
    }
}

/// The snapshot a record of a query lists for `volume_path`: records of snapshots whose
/// original volume is that volume (ignoring trailing `\` and ASCII case), with the
/// snapshot's id in registry form, the volume as source, and read only.
pub open spec fn com_snapshot_record(
    object_type: u32,
    original_volume: Seq<char>,
    device: Seq<char>,
    exposed: Seq<char>,
    id: VssId,
    volume_path: Seq<char>,
    backend: Seq<char>,
) -> Option<SnapshotInfoView> {
    if object_type != VSS_OBJECT_SNAPSHOT || !volume_matches(Some(original_volume), volume_path) {
        None
    } else {
        Some(
            SnapshotInfoView {
                id: id_text(id),
                source: Some(volume_path),
                backend,
                path_hint: record_path_hint(device, exposed),
                read_only: true,
            },
        )
    }
}

/// The snapshot one record of a query lists for `volume_path`, if any.
pub fn snapshot_record(
    object_type: u32,
    original_volume: &str,
    device: &str,
    exposed: &str,
    id: &VssId,
    volume_path: &str,
    backend: &'static str,
) -> (r: Option<SnapshotInfo>)
    ensures
        match com_snapshot_record(object_type, original_volume@, device@, exposed@, *id, volume_path@, backend@) {
            None => r is None,
            Some(v) => r matches Some(info) && info@ == v,
        },
{
    if object_type != VSS_OBJECT_SNAPSHOT {
        return None;
    }
    if !matches_volume(&Some(String::from_str(original_volume)), volume_path) {
        return None;
    }
    let exposed_chars = chars_of(exposed);
    let device_chars = chars_of(device);
    let path_hint = if exposed_chars.len() > 0 {
        Some(String::from_str(exposed))
    } else if device_chars.len() > 0 {
        Some(String::from_str(device))
    } else {
        None
    };
    Some(
        SnapshotInfo {
            handle: SnapshotHandle {
                id: guid_to_string(id),
                source: Some(VolumeRef::new(volume_path)),
            },
            backend,
            path_hint,
            read_only: true,
        },
    )
}

} // verus!
