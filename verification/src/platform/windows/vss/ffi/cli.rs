//! What the VSS command-line tools are asked and what their answers mean: `wmic shadowcopy`
//! creates snapshots and reports device objects, `vssadmin` lists and deletes them. The
//! tools themselves are run by the caller; the parsing here does not depend on the
//! locale of their output.
use vstd::prelude::*;

use super::RawSnapshotSet;
use super::com::snapshot_info_from_device;
use crate::error::{Error, Fault, Result, fault, outcome};
use crate::platform::windows::{trim_volume_separators, without_volume_separators};
use crate::text::{
    chars_of, concat2, contains_str, find_char, find_char_exec, find_char_from, find_exec,
    find_seq, is_ws, lemma_find_char, lemma_find_seq_bounds, lemma_rfind_seq_from,
    lemma_trim_plain_start, lines, lines_exec, opt_str, push_str, rfind_exec, rfind_seq,
    slice_chars, split_char, split_char_exec, starts_with, starts_with_exec, string_of,
    string_of_range, trim, trim_char, trim_char_bounds, trim_end_by, trim_end_char,
    trim_end_char_bound, trimmed, views, ws_pred,
};
use crate::types::{SnapshotHandle, SnapshotInfo, SnapshotInfoView, VolumeRef};

verus! {

/// The command-line tools need no set-up.
pub fn initialize() -> (r: Result<()>)
    ensures
        r is Ok,
{
    Ok(())
}

// ---------------------------------------------------------------------------
// Markers in the tools' output
// ---------------------------------------------------------------------------

/// The prefix of a snapshot's device object, `\\?\GLOBALROOT\Device\`.
pub open spec fn device_marker() -> Seq<char> {
    "\\\\?\\GLOBALROOT\\Device\\"@
}

/// The prefix of a volume GUID path, `\\?\Volume{`.
pub open spec fn volume_marker() -> Seq<char> {
    "\\\\?\\Volume{"@
}

/// The prefix of any object under the global root, `\\?\GLOBALROOT\`.
pub open spec fn globalroot_marker() -> Seq<char> {
    "\\\\?\\GLOBALROOT\\"@
}

// ---------------------------------------------------------------------------
// Arguments handed to the tools
// ---------------------------------------------------------------------------

/// The volume argument of `wmic shadowcopy call create`: the volume without trailing
/// separators, then two backslashes.
pub fn wmic_volume(volume_path: &str) -> (r: String)
    ensures
        r@ == trim_volume_separators(volume_path@) + "\\\\"@,
{
    let mut v = without_volume_separators(volume_path);
    push_str(&mut v, "\\\\");
    string_of(v.as_slice())
}

/// The volume argument of `vssadmin list shadows /for=`: the volume without trailing
/// separators, then one backslash.
pub fn vssadmin_volume(volume_path: &str) -> (r: String)
    ensures
        r@ == trim_volume_separators(volume_path@) + "\\"@,
{
    let mut v = without_volume_separators(volume_path);
    push_str(&mut v, "\\");
    string_of(v.as_slice())
}

// ---------------------------------------------------------------------------
// GUIDs
// ---------------------------------------------------------------------------

/// The first `{...}` group of a line, when what it encloses has five `-`separated parts.
pub open spec fn guid_in(t: Seq<char>) -> Option<Seq<char>> {
    match find_char(t, '{') {
        Some(a) => match find_char(t.subrange(a, t.len() as int), '}') {
            Some(e) => if split_char(t.subrange(a + 1, a + e), '-').len() == 5 {
                Some(t.subrange(a, a + e + 1))
            } else {
                None
            },
            None => None,
        },
        None => None,
    }
}

fn guid_in_chars(t: &[char]) -> (r: Option<String>)
    ensures
        opt_str(r) == guid_in(t@),
{
    let n = t.len();
    match find_char_exec(t, '{') {
        Some(a) => {
            proof {
                lemma_find_char(t@, '{');
            }
            match find_char_from(t, '}', a) {
                Some(i) => {
                    proof {
                        let sub = t@.subrange(a as int, t@.len() as int);
                        lemma_find_char(sub, '}');
                        assert(sub[0] == '{');
                    }
                    let inner = slice_chars(t, a + 1, i);
                    let parts = split_char_exec(inner.as_slice(), '-');
                    if parts.len() == 5 {
                        Some(string_of_range(t, a, i + 1))
                    } else {
                        None
                    }
                },
                None => None,
            }
        },
        None => None,
    }
}

/// The first GUID in braces on a line, as `{xxxxxxxx-xxxx-xxxx-xxxx-xxxxxxxxxxxx}`.
pub fn extract_guid(line: &str) -> (r: Option<String>)
    ensures
        opt_str(r) == guid_in(line@),
{
    let v = chars_of(line);
    guid_in_chars(v.as_slice())
}

// ---------------------------------------------------------------------------
// `wmic` output
// ---------------------------------------------------------------------------

/// The value of `field` on one line of `wmic` output, `field = value;`, without the
/// separator, the semicolon and surrounding quotes.
pub open spec fn wmic_value(line: Seq<char>, field: Seq<char>) -> Option<Seq<char>> {
    let t = trim(line);
    if starts_with(t, field) {
        let rest = trim(t.subrange(field.len() as int, t.len() as int));
        if rest.len() > 0 && rest[0] == '=' {
            Some(
                trim_char(
                    trim(trim_end_char(trim(rest.subrange(1, rest.len() as int)), ';')),
                    '"',
                ),
            )
        } else {
            None
        }
    } else {
        None
    }
}

/// The value of `field` on the first line that has one.
pub open spec fn first_wmic_value(ls: Seq<Seq<char>>, field: Seq<char>) -> Option<Seq<char>>
    decreases ls.len(),
{
    if ls.len() == 0 {
        None
    } else {
        match wmic_value(ls[0], field) {
            Some(v) => Some(v),
            None => first_wmic_value(ls.drop_first(), field),
        }
    }
}

fn wmic_value_exec(line: &[char], field: &[char]) -> (r: Option<String>)
    ensures
        opt_str(r) == wmic_value(line@, field@),
{
    let t = trimmed(line);
    if !starts_with_exec(t.as_slice(), field) {
        return None;
    }
    let after = slice_chars(t.as_slice(), field.len(), t.len());
    let rest = trimmed(after.as_slice());
    if rest.len() == 0 || rest[0] != '=' {
        return None;
    }
    let value = slice_chars(rest.as_slice(), 1, rest.len());
    let v1 = trimmed(value.as_slice());
    let b = trim_end_char_bound(v1.as_slice(), ';');
    let v2 = slice_chars(v1.as_slice(), 0, b);
    let v3 = trimmed(v2.as_slice());
    let (p, q) = trim_char_bounds(v3.as_slice(), '"');
    Some(string_of_range(v3.as_slice(), p, q))
}

proof fn lemma_first_wmic_value_step(ls: Seq<Seq<char>>, field: Seq<char>, i: int)
    requires
        0 <= i < ls.len(),
        wmic_value(ls[i], field) is None,
    ensures
        first_wmic_value(ls.subrange(i, ls.len() as int), field) == first_wmic_value(
            ls.subrange(i + 1, ls.len() as int),
            field,
        ),
{
    assert(ls.subrange(i, ls.len() as int).drop_first() =~= ls.subrange(i + 1, ls.len() as int));
}

/// The value of `field` in `wmic` output: from the first line `field = value;`.
pub fn parse_wmic_field(output: &str, field_name: &str) -> (r: Option<String>)
    ensures
        opt_str(r) == first_wmic_value(lines(output@), field_name@),
{
    let v = chars_of(output);
    let field = chars_of(field_name);
    let ls = lines_exec(v.as_slice());
    let ghost all = lines(output@);
    let mut i: usize = 0;
    assert(all.subrange(0, all.len() as int) =~= all);
    while i < ls.len()
        invariant
            views(ls@) == all,
            all == lines(output@),
            field@ == field_name@,
            i <= ls@.len(),
            first_wmic_value(all, field_name@) == first_wmic_value(
                all.subrange(i as int, all.len() as int),
                field_name@,
            ),
        decreases ls@.len() - i,
    {
        assert(ls@[i as int]@ == all[i as int]);
        let found = wmic_value_exec(ls[i].as_slice(), field.as_slice());
        if found.is_some() {
            assert(all.subrange(i as int, all.len() as int)[0] == all[i as int]);
            return found;
        }
        proof {
            lemma_first_wmic_value_step(all, field_name@, i as int);
        }
        i = i + 1;
    }
    assert(all.subrange(i as int, all.len() as int) =~= Seq::<Seq<char>>::empty());
    None
}

/// What `wmic shadowcopy call create` answered: the id of the new snapshot, when the
/// tool succeeded, reported `ReturnValue = 0` and named a `ShadowID`.
pub open spec fn created_shadow(succeeded: bool, stdout: Seq<char>) -> std::result::Result<
    Seq<char>,
    Fault,
> {
    if !succeeded || !crate::text::contains_seq(stdout, "ReturnValue = 0"@) {
        Err(Fault::Message { message: "wmic shadowcopy create failed: "@ + trim(stdout) })
    } else {
        match first_wmic_value(lines(stdout), "ShadowID"@) {
            Some(id) => Ok(id),
            None => Err(
                Fault::Message {
                    message: "could not parse ShadowID from wmic output:\n"@ + stdout,
                },
            ),
        }
    }
}

/// The id of the snapshot that `wmic shadowcopy call create` made, from whether the tool
/// succeeded and what it printed.
pub fn created_shadow_id(succeeded: bool, stdout: &str) -> (r: Result<String>)
    ensures
        outcome(r) == created_shadow(succeeded, stdout@),
{
    let v = chars_of(stdout);
    if !succeeded || !contains_str(v.as_slice(), "ReturnValue = 0") {
        let t = trimmed(v.as_slice());
        let mut m = chars_of("wmic shadowcopy create failed: ");
        crate::text::push_chars(&mut m, t.as_slice());
        return Err(Error::Message { message: string_of(m.as_slice()) });
    }
    match parse_wmic_field(stdout, "ShadowID") {
        Some(id) => Ok(id),
        None => Err(
            Error::Message {
                message: concat2("could not parse ShadowID from wmic output:\n", stdout),
            },
        ),
    }
}

/// The snapshot set `wmic` created: the snapshot's id names the set too.
pub fn created_snapshot_set(snapshot_id: &str, device_path: &str) -> (r: RawSnapshotSet)
    ensures
        r.snapshot_set_id@ == snapshot_id@,
        r.snapshot_id@ == snapshot_id@,
        r.device_path@ == device_path@,
{
    snapshot_info_from_device(snapshot_id, "", device_path)
}

/// The first line of `wmic ... get DeviceObject` output that names an object under the
/// global root, trimmed.
pub open spec fn first_globalroot_line(ls: Seq<Seq<char>>) -> Option<Seq<char>>
    decreases ls.len(),
{
    if ls.len() == 0 {
        None
    } else if starts_with(trim(ls[0]), globalroot_marker()) {
        Some(trim(ls[0]))
    } else {
        first_globalroot_line(ls.drop_first())
    }
}

/// The device object `wmic shadowcopy ... get DeviceObject` printed, if any.
pub fn wmic_device_object(stdout: &str) -> (r: Option<String>)
    ensures
        opt_str(r) == first_globalroot_line(lines(stdout@)),
{
    let v = chars_of(stdout);
    let marker = chars_of("\\\\?\\GLOBALROOT\\");
    let ls = lines_exec(v.as_slice());
    let ghost all = lines(stdout@);
    let mut i: usize = 0;
    assert(all.subrange(0, all.len() as int) =~= all);
    while i < ls.len()
        invariant
            views(ls@) == all,
            all == lines(stdout@),
            marker@ == globalroot_marker(),
            i <= ls@.len(),
            first_globalroot_line(all) == first_globalroot_line(
                all.subrange(i as int, all.len() as int),
            ),
        decreases ls@.len() - i,
    {
        assert(ls@[i as int]@ == all[i as int]);
        let t = trimmed(ls[i].as_slice());
        assert(all.subrange(i as int, all.len() as int)[0] == all[i as int]);
        if starts_with_exec(t.as_slice(), marker.as_slice()) {
            return Some(string_of(t.as_slice()));
        }
        assert(all.subrange(i as int, all.len() as int).drop_first() =~= all.subrange(
            i + 1,
            all.len() as int,
        ));
        i = i + 1;
    }
    assert(all.subrange(i as int, all.len() as int) =~= Seq::<Seq<char>>::empty());
    None
}

// ---------------------------------------------------------------------------
// Device paths in `vssadmin` output
// ---------------------------------------------------------------------------

/// The device path a line names: from the last device marker on, without trailing white
/// space.
pub open spec fn device_in_line(t: Seq<char>) -> Option<Seq<char>> {
    match rfind_seq(t, device_marker()) {
        Some(p) => Some(trim_end_by(t.subrange(p, t.len() as int), ws_pred())),
        None => None,
    }
}

fn device_in_line_exec(t: &[char]) -> (r: Option<Vec<char>>)
    ensures
        match r {
            Some(d) => device_in_line(t@) == Some(d@) && d@.len() > 0,
            None => device_in_line(t@) is None,
        },
{
    let marker = chars_of("\\\\?\\GLOBALROOT\\Device\\");
    match rfind_exec(t, marker.as_slice()) {
        Some(p) => {
            proof {
                lemma_rfind_seq_from(t@, marker@, t@.len() as int);
                reveal_strlit("\\\\?\\GLOBALROOT\\Device\\");
                let tail = t@.subrange(p as int, t@.len() as int);
                assert(tail[0] == marker@[0]);
                assert(!is_ws(tail[0]));
                lemma_trim_plain_start(tail);
            }
            let tail = slice_chars(t, p, t.len());
            let d = trimmed(tail.as_slice());
            proof {
                crate::text::lemma_trim_end_nonempty(tail@, ws_pred());
            }
            Some(d)
        },
        None => None,
    }
}

/// The device path of the first line that names one.
pub open spec fn first_device_path(ls: Seq<Seq<char>>) -> Option<Seq<char>>
    decreases ls.len(),
{
    if ls.len() == 0 {
        None
    } else {
        match device_in_line(trim(ls[0])) {
            Some(d) => if d.len() > 0 {
                Some(d)
            } else {
                first_device_path(ls.drop_first())
            },
            None => first_device_path(ls.drop_first()),
        }
    }
}

/// The snapshot device path (`\\?\GLOBALROOT\Device\...`) that `vssadmin` output names.
pub fn find_device_path(output: &str) -> (r: Option<String>)
    ensures
        opt_str(r) == first_device_path(lines(output@)),
{
    let v = chars_of(output);
    let ls = lines_exec(v.as_slice());
    let ghost all = lines(output@);
    let mut i: usize = 0;
    assert(all.subrange(0, all.len() as int) =~= all);
    while i < ls.len()
        invariant
            views(ls@) == all,
            all == lines(output@),
            i <= ls@.len(),
            first_device_path(all) == first_device_path(all.subrange(i as int, all.len() as int)),
        decreases ls@.len() - i,
    {
        assert(ls@[i as int]@ == all[i as int]);
        let t = trimmed(ls[i].as_slice());
        assert(all.subrange(i as int, all.len() as int)[0] == all[i as int]);
        if let Some(d) = device_in_line_exec(t.as_slice()) {
            return Some(string_of(d.as_slice()));
        }
        assert(all.subrange(i as int, all.len() as int).drop_first() =~= all.subrange(
            i + 1,
            all.len() as int,
        ));
        i = i + 1;
    }
    assert(all.subrange(i as int, all.len() as int) =~= Seq::<Seq<char>>::empty());
    None
}

/// The device path of a snapshot, from what `vssadmin list shadows /shadow=` printed.
pub fn device_path_from_listing(snapshot_id: &str, output: &str) -> (r: Result<String>)
    ensures
        outcome(r) == match first_device_path(lines(output@)) {
            Some(d) => Ok(d),
            None => Err(
                Fault::Message { message: "could not find device path for snapshot "@ + snapshot_id@ },
            ),
        },
{
    match find_device_path(output) {
        Some(d) => Ok(d),
        None => Err(
            Error::Message {
                message: concat2("could not find device path for snapshot ", snapshot_id),
            },
        ),
    }
}

/// The result of deleting a snapshot once `wmic` failed: whether the `vssadmin` fallback
/// succeeded, else the failure with what `wmic` reported.
pub fn fallback_deletion(vssadmin_succeeded: bool, wmic_stderr: &str) -> (r: Result<()>)
    ensures
        vssadmin_succeeded ==> r is Ok,
        !vssadmin_succeeded ==> (r matches Err(e) && fault(e) == (Fault::Message {
            message: "snapshot delete failed: "@ + trim(wmic_stderr@),
        })),
{
    if vssadmin_succeeded {
        return Ok(());
    }
    let v = chars_of(wmic_stderr);
    let t = trimmed(v.as_slice());
    let mut m = chars_of("snapshot delete failed: ");
    crate::text::push_chars(&mut m, t.as_slice());
    Err(Error::Message { message: string_of(m.as_slice()) })
}

// ---------------------------------------------------------------------------
// Volume names
// ---------------------------------------------------------------------------

/// A character compared without regard to ASCII case.
pub open spec fn ascii_folded(c: char) -> u32 {
    let u = c as u32;
    if 65 <= u && u <= 90 {
        (u + 32) as u32
    } else {
        u
    }
}

/// `str::eq_ignore_ascii_case`.
pub open spec fn eq_ignore_ascii_case(a: Seq<char>, b: Seq<char>) -> bool {
    a.len() == b.len() && forall|i: int| 0 <= i < a.len() ==> ascii_folded(a[i]) == ascii_folded(b[i])
}

/// Two volume names are the same once trailing backslashes go and ASCII case is ignored;
/// no volume matches an unknown one.
pub open spec fn volume_matches(original: Option<Seq<char>>, target: Seq<char>) -> bool {
    match original {
        Some(v) => eq_ignore_ascii_case(trim_end_char(v, '\\'), trim_end_char(target, '\\')),
        None => false,
    }
}

fn fold_exec(c: char) -> (r: u32)
    ensures
        r == ascii_folded(c),
{
    let u = c as u32;
    if 65 <= u && u <= 90 {
        u + 32
    } else {
        u
    }
}

fn eq_ignore_ascii_case_exec(a: &[char], b: &[char]) -> (r: bool)
    ensures
        r == eq_ignore_ascii_case(a@, b@),
{
    if a.len() != b.len() {
        return false;
    }
    let mut i: usize = 0;
    while i < a.len()
        invariant
            a@.len() == b@.len(),
            i <= a@.len(),
            forall|j: int| 0 <= j < i ==> ascii_folded(a@[j]) == ascii_folded(b@[j]),
        decreases a@.len() - i,
    {
        if fold_exec(a[i]) != fold_exec(b[i]) {
            return false;
        }
        i = i + 1;
    }
    true
}

fn volume_matches_exec(original: &Option<String>, target: &[char]) -> (r: bool)
    ensures
        r == volume_matches(opt_str(*original), target@),
{
    match original {
        Some(v) => {
            let vv = chars_of(v.as_str());
            let a = trim_end_char_bound(vv.as_slice(), '\\');
            let b = trim_end_char_bound(target, '\\');
            let x = slice_chars(vv.as_slice(), 0, a);
            let y = slice_chars(target, 0, b);
            eq_ignore_ascii_case_exec(x.as_slice(), y.as_slice())
        },
        None => false,
    }
}

/// Whether a snapshot's original volume is the target volume.
pub fn matches_volume(original: &Option<String>, target: &str) -> (r: bool)
    ensures
        r == volume_matches(opt_str(*original), target@),
{
    let t = chars_of(target);
    volume_matches_exec(original, t.as_slice())
}


// ---------------------------------------------------------------------------
// `vssadmin list shadows` output
// ---------------------------------------------------------------------------

/// What has been read of `vssadmin list shadows` output: the snapshots taken so far
/// (id and device path), and the id, original volume and device path of the record
/// being read.
pub struct VssScan {
    pub found: Seq<(Seq<char>, Option<Seq<char>>)>,
    pub id: Option<Seq<char>>,
    pub original: Option<Seq<char>>,
    pub device: Option<Seq<char>>,
}

/// The snapshots taken so far, with the record being read when it belongs to `target`.
pub open spec fn scan_flushed(st: VssScan, target: Seq<char>) -> Seq<(Seq<char>, Option<Seq<char>>)> {
    match st.id {
        Some(id) => if volume_matches(st.original, target) {
            st.found.push((id, st.device))
        } else {
            st.found
        },
        None => st.found,
    }
}

/// Reading one trimmed line. A device line sets the record's device path; a line with a
/// volume GUID path sets its original volume from the drive in parentheses before it;
/// any other line with a GUID starts a new record, after keeping the one before when it
/// belongs to `target`.
pub open spec fn scan_step(st: VssScan, t: Seq<char>, target: Seq<char>) -> VssScan {
    match rfind_seq(t, device_marker()) {
        Some(p) => VssScan {
            found: st.found,
            id: st.id,
            original: st.original,
            device: Some(trim_end_by(t.subrange(p, t.len() as int), ws_pred())),
        },
        None => match find_seq(t, volume_marker()) {
            Some(p) => match rfind_seq(t.subrange(0, p), seq!['(']) {
                Some(q) => VssScan {
                    found: st.found,
                    id: st.id,
                    original: Some(trim_end_char(t.subrange(q + 1, p - 1), '\\').push('\\')),
                    device: st.device,
                },
                None => st,
            },
            None => match guid_in(t) {
                Some(g) => VssScan {
                    found: scan_flushed(st, target),
                    id: Some(g),
                    original: None,
                    device: None,
                },
                None => st,
            },
        },
    }
}

/// Reading the trimmed lines in order, from nothing read.
pub open spec fn scan_lines(ls: Seq<Seq<char>>, target: Seq<char>) -> VssScan
    decreases ls.len(),
{
    if ls.len() == 0 {
        VssScan { found: seq![], id: None, original: None, device: None }
    } else {
        scan_step(scan_lines(ls.drop_last(), target), trim(ls.last()), target)
    }
}

/// The snapshots of `target` in `vssadmin list shadows` output: id and device path.
pub open spec fn vssadmin_snapshots(output: Seq<char>, target: Seq<char>) -> Seq<
    (Seq<char>, Option<Seq<char>>),
> {
    scan_flushed(scan_lines(lines(output), target), target)
}

/// `a` is a prefix of `b`.
pub open spec fn is_prefix(a: Seq<(Seq<char>, Option<Seq<char>>)>, b: Seq<(Seq<char>, Option<Seq<char>>)>) -> bool {
    a.len() <= b.len() && forall|i: int| 0 <= i < a.len() ==> #[trigger] b[i] == a[i]
}

/// Closing a record keeps every snapshot found before it, in order, and adds at most
/// one: the record's own, exactly when it has an id and belongs to `target`.
pub proof fn lemma_flush_extends(st: VssScan, target: Seq<char>)
    ensures
        is_prefix(st.found, scan_flushed(st, target)),
        scan_flushed(st, target).len() <= st.found.len() + 1,
        (st.id matches Some(id) && volume_matches(st.original, target)) ==> ({
            &&& scan_flushed(st, target).len() == st.found.len() + 1
            &&& scan_flushed(st, target).last() == (st.id->0, st.device)
        }),
        !(st.id is Some && volume_matches(st.original, target)) ==> scan_flushed(st, target)
            == st.found,
{
}

/// Reading one more line keeps every snapshot found so far, in order, and adds at most
/// one.
pub proof fn lemma_scan_step_extends(st: VssScan, t: Seq<char>, target: Seq<char>)
    ensures
        is_prefix(st.found, scan_step(st, t, target).found),
        scan_step(st, t, target).found.len() <= st.found.len() + 1,
{
    lemma_flush_extends(st, target);
}

/// Reading more output never loses a snapshot already found: what the first lines give
/// is a prefix of what they give with more lines after them, and of the final list.
pub proof fn lemma_scan_lines_extend(ls: Seq<Seq<char>>, more: Seq<Seq<char>>, target: Seq<char>)
    ensures
        is_prefix(scan_lines(ls, target).found, scan_lines(ls + more, target).found),
        is_prefix(
            scan_lines(ls, target).found,
            scan_flushed(scan_lines(ls + more, target), target),
        ),
    decreases more.len(),
{
    if more.len() == 0 {
        assert(ls + more =~= ls);
    } else {
        let shorter = more.drop_last();
        lemma_scan_lines_extend(ls, shorter, target);
        assert((ls + more).drop_last() =~= ls + shorter);
        let prev = scan_lines(ls + shorter, target);
        lemma_scan_step_extends(prev, trim((ls + more).last()), target);
    }
    lemma_flush_extends(scan_lines(ls + more, target), target);
}

/// Each record of `target` that `vssadmin` lists is kept: when a new record starts after
/// one of `target` that has an id, the snapshots found grow by exactly that record, after
/// all those found before it.
pub proof fn lemma_record_of_target_is_kept(st: VssScan, t: Seq<char>, target: Seq<char>)
    requires
        st.id is Some,
        volume_matches(st.original, target),
        rfind_seq(t, device_marker()) is None,
        find_seq(t, volume_marker()) is None,
        guid_in(t) is Some,
    ensures
        scan_step(st, t, target).found == st.found.push((st.id->0, st.device)),
{
}

/// A trimmed line whose original volume can be read: the `(` before a volume GUID path
/// comes before the character that precedes the path, and that character is ASCII.
pub open spec fn line_is_readable(t: Seq<char>) -> bool {
    rfind_seq(t, device_marker()) is None ==> match find_seq(t, volume_marker()) {
        Some(p) => match rfind_seq(t.subrange(0, p), seq!['(']) {
            Some(q) => q + 1 < p && (t[p - 1] as u32) < 128,
            None => true,
        },
        None => true,
    }
}

/// Every line of the output can be read.
pub open spec fn vssadmin_output_is_readable(output: Seq<char>) -> bool {
    forall|k: int| 0 <= k < lines(output).len() ==> line_is_readable(#[trigger] trim(lines(output)[k]))
}

/// The record of a snapshot of `volume` found in `vssadmin` output.
pub open spec fn vss_record(
    e: (Seq<char>, Option<Seq<char>>),
    volume: Seq<char>,
    backend: Seq<char>,
) -> SnapshotInfoView {
    SnapshotInfoView { id: e.0, source: Some(volume), backend, path_hint: e.1, read_only: true }
}

struct ScanCursor {
    found: Vec<(String, Option<String>)>,
    id: Option<String>,
    original: Option<String>,
    device: Option<String>,
}

spec fn found_view(v: Seq<(String, Option<String>)>) -> Seq<(Seq<char>, Option<Seq<char>>)> {
    v.map_values(|e: (String, Option<String>)| (e.0@, opt_str(e.1)))
}

proof fn lemma_found_view_push(v: Seq<(String, Option<String>)>, e: (String, Option<String>))
    ensures
        found_view(v.push(e)) == found_view(v).push((e.0@, opt_str(e.1))),
{
    assert(found_view(v.push(e)) =~= found_view(v).push((e.0@, opt_str(e.1))));
}

impl ScanCursor {
    spec fn view(&self) -> VssScan {
        VssScan {
            found: found_view(self.found@),
            id: opt_str(self.id),
            original: opt_str(self.original),
            device: opt_str(self.device),
        }
    }

    fn flushed(self, target: &[char]) -> (r: Vec<(String, Option<String>)>)
        ensures
            found_view(r@) == scan_flushed(self.view(), target@),
    {
        let ScanCursor { mut found, id, original, device } = self;
        match id {
            Some(i) => {
                if volume_matches_exec(&original, target) {
                    proof {
                        lemma_found_view_push(found@, (i, device));
                    }
                    found.push((i, device));
                }
                found
            },
            None => found,
        }
    }

    fn step(self, t: &[char], target: &[char]) -> (r: Self)
        requires
            line_is_readable(t@),
        ensures
            r.view() == scan_step(self.view(), t@, target@),
    {
        let n = t.len();
        let dm = chars_of("\\\\?\\GLOBALROOT\\Device\\");
        if let Some(_) = rfind_exec(t, dm.as_slice()) {
            let d = device_in_line_exec(t);
            let ScanCursor { found, id, original, device } = self;
            let d = match d {
                Some(d) => d,
                None => { return ScanCursor { found, id, original, device } },
            };
            return ScanCursor { found, id, original, device: Some(string_of(d.as_slice())) };
        }
        let vm = chars_of("\\\\?\\Volume{");
        if let Some(p) = find_exec(t, vm.as_slice()) {
            proof {
                lemma_find_seq_bounds(t@, vm@);
            }
            let head = slice_chars(t, 0, p);
            let mut paren: Vec<char> = Vec::new();
            paren.push('(');
            assert(paren@ =~= seq!['(']);
            match rfind_exec(head.as_slice(), paren.as_slice()) {
                Some(q) => {
                    proof {
                        lemma_rfind_seq_from(head@, paren@, head@.len() as int);
                    }
                    let drive = slice_chars(t, q + 1, p - 1);
                    let b = trim_end_char_bound(drive.as_slice(), '\\');
                    let mut o = slice_chars(drive.as_slice(), 0, b);
                    o.push('\\');
                    let ScanCursor { found, id, original, device } = self;
                    return ScanCursor { found, id, original: Some(string_of(o.as_slice())), device };
                },
                None => {
                    return self;
                },
            }
        }
        match guid_in_chars(t) {
            Some(g) => {
                let found = self.flushed(target);
                ScanCursor { found, id: Some(g), original: None, device: None }
            },
            None => self,
        }
    }
}

/// The snapshots of `volume_path` listed in `vssadmin list shadows` output. The
/// parsing looks only at GUIDs, volume GUID paths and device paths, so it does not
/// depend on the language of the output.
pub fn parse_vssadmin_list_output(output: &str, volume_path: &str, backend: &'static str) -> (r:
    Vec<SnapshotInfo>)
    requires
        vssadmin_output_is_readable(output@),
    ensures
        r@.len() == vssadmin_snapshots(output@, volume_path@).len(),
        forall|i: int|
            0 <= i < r@.len() ==> #[trigger] r@[i]@ == vss_record(
                vssadmin_snapshots(output@, volume_path@)[i],
                volume_path@,
                backend@,
            ),
{
    let v = chars_of(output);
    let target = chars_of(volume_path);
    let ls = lines_exec(v.as_slice());
    let ghost all = lines(output@);
    let mut c = ScanCursor { found: Vec::new(), id: None, original: None, device: None };
    let mut i: usize = 0;
    assert(all.subrange(0, 0) =~= Seq::<Seq<char>>::empty());
    assert(found_view(c.found@) =~= Seq::<(Seq<char>, Option<Seq<char>>)>::empty());
    while i < ls.len()
        invariant
            views(ls@) == all,
            all == lines(output@),
            target@ == volume_path@,
            vssadmin_output_is_readable(output@),
            i <= ls@.len(),
            c.view() == scan_lines(all.subrange(0, i as int), volume_path@),
        decreases ls@.len() - i,
    {
        assert(ls@[i as int]@ == all[i as int]);
        let t = trimmed(ls[i].as_slice());
        assert(line_is_readable(trim(all[i as int])));
        c = c.step(t.as_slice(), target.as_slice());
        assert(all.subrange(0, i + 1).drop_last() =~= all.subrange(0, i as int));
        i = i + 1;
    }
    assert(all.subrange(0, i as int) =~= all);
    let entries = c.flushed(target.as_slice());
    let ghost res = vssadmin_snapshots(output@, volume_path@);
    let mut out: Vec<SnapshotInfo> = Vec::new();
    let mut j: usize = 0;
    while j < entries.len()
        invariant
            found_view(entries@) == res,
            res == vssadmin_snapshots(output@, volume_path@),
            j <= entries@.len(),
            out@.len() == j,
            forall|k: int|
                0 <= k < j ==> #[trigger] out@[k]@ == vss_record(res[k], volume_path@, backend@),
        decreases entries@.len() - j,
    {
        let e = &entries[j];
        let info = SnapshotInfo {
            handle: SnapshotHandle {
                id: e.0.clone(),
                source: Some(VolumeRef::new(volume_path)),
            },
            backend,
            path_hint: crate::types::copy_opt_string(&e.1),
            read_only: true,
        };
        assert(res[j as int] == (entries@[j as int].0@, opt_str(entries@[j as int].1)));
        out.push(info);
        j = j + 1;
    }
    out
}


fn line_readable_exec(t: &[char]) -> (r: bool)
    ensures
        r == line_is_readable(t@),
{
    let dm = chars_of("\\\\?\\GLOBALROOT\\Device\\");
    if rfind_exec(t, dm.as_slice()).is_some() {
        return true;
    }
    let vm = chars_of("\\\\?\\Volume{");
    match find_exec(t, vm.as_slice()) {
        None => true,
        Some(p) => {
            proof {
                lemma_find_seq_bounds(t@, vm@);
            }
            let head = slice_chars(t, 0, p);
            let mut paren: Vec<char> = Vec::new();
            paren.push('(');
            assert(paren@ =~= seq!['(']);
            match rfind_exec(head.as_slice(), paren.as_slice()) {
                None => true,
                Some(q) => {
                    proof {
                        lemma_rfind_seq_from(head@, paren@, head@.len() as int);
                    }
                    q + 1 < p && (t[p - 1] as u32) < 128
                },
            }
        },
    }
}

/// Whether `parse_vssadmin_list_output` can read the output: the original volume of
/// every record can be cut out of its line.
pub fn vssadmin_output_readable(output: &str) -> (r: bool)
    ensures
        r == vssadmin_output_is_readable(output@),
{
    let v = chars_of(output);
    let ls = lines_exec(v.as_slice());
    let ghost all = lines(output@);
    let mut i: usize = 0;
    while i < ls.len()
        invariant
            views(ls@) == all,
            all == lines(output@),
            i <= ls@.len(),
            forall|k: int| 0 <= k < i ==> line_is_readable(#[trigger] trim(all[k])),
        decreases ls@.len() - i,
    {
        assert(ls@[i as int]@ == all[i as int]);
        let t = trimmed(ls[i].as_slice());
        if !line_readable_exec(t.as_slice()) {
            return false;
        }
        i = i + 1;
    }
    true
}

} // verus!
