//! The command line: block sizes with unit suffixes, and the options, switches and
//! positional arguments of each command.
use vstd::prelude::*;

use crate::copy_mount::CopyMountRequest;
use crate::error::{Error, Fault, Result, fault};
use crate::text::{
    chars_eq_str, chars_of, opt_str, parse_unsigned, parsed_unsigned, strs, trim, trimmed,
    slice_chars, string_of, all_decimal, decimal_digit_value, decimal_value, is_ws,
    lemma_trim_plain,
};
use crate::types::{
    BackupSource, MountMode, SnapshotKind, SnapshotPolicy, SnapshotRef, SnapshotRequest, VolumeRef,
    snapshot_kind_of, unknown_kind_message,
};

verus! {

// ---------------------------------------------------------------------------
// Block sizes
// ---------------------------------------------------------------------------

/// The factor of a unit suffix: `K`, `M` or `G`, either case.
pub open spec fn suffix_factor(c: char) -> Option<nat> {
    if c == 'K' || c == 'k' {
        Some(1024)
    } else if c == 'M' || c == 'm' {
        Some(1048576)
    } else if c == 'G' || c == 'g' {
        Some(1073741824)
    } else {
        None
    }
}

/// A block size as the command line gives it: a number of bytes, with an optional unit
/// suffix, greater than zero and within `usize`.
pub open spec fn parsed_block_size(value: Seq<char>) -> std::result::Result<nat, Fault> {
    let v = trim(value);
    if v.len() == 0 {
        Err(Fault::InvalidArgument { message: "block size must not be empty"@ })
    } else {
        let (digits, factor) = match suffix_factor(v.last()) {
            Some(f) => (v.drop_last(), f),
            None => (v, 1nat),
        };
        match parsed_unsigned(digits, usize::MAX as nat) {
            None => Err(
                Fault::InvalidArgument {
                    message: "invalid block size `"@ + v
                        + "`; expected a number with optional K/M/G suffix"@,
                },
            ),
            Some(n) => if n * factor > usize::MAX {
                Err(Fault::InvalidArgument { message: "block size `"@ + v + "` overflows"@ })
            } else if n * factor == 0 {
                Err(Fault::InvalidArgument { message: "block size must be greater than zero"@ })
            } else {
                Ok(n * factor)
            },
        }
    }
}

fn suffix_factor_exec(c: char) -> (r: usize)
    ensures
        match suffix_factor(c) {
            Some(f) => r == f,
            None => r == 1,
        },
{
    if c == 'K' || c == 'k' {
        1024
    } else if c == 'M' || c == 'm' {
        1048576
    } else if c == 'G' || c == 'g' {
        1073741824
    } else {
        1
    }
}

/// A number of bytes in decimal digits, with a unit letter `c` after it, reads back as the
/// number times `factor`, when that product is greater than zero and within `usize`.
proof fn lemma_suffixed_block_size(n: Seq<char>, c: char, factor: nat)
    requires
        n.len() > 0,
        all_decimal(n),
        !is_ws(c),
        decimal_digit_value(c) is None,
        c != '+',
        suffix_factor(c) == Some(factor),
        0 < decimal_value(n) * factor <= usize::MAX,
    ensures
        parsed_block_size(n.push(c)) == Ok::<nat, Fault>(decimal_value(n) * factor),
{
    let v = n.push(c);
    assert(decimal_digit_value(n[0]) is Some);
    lemma_trim_plain(v);
    assert(v.drop_last() =~= n);
    assert(decimal_value(n) <= decimal_value(n) * factor) by (nonlinear_arith)
        requires
            factor >= 1,
    ;
}

/// Block sizes: a plain number of bytes reads as itself; a `K`, `M` or `G` suffix, in
/// either case, multiplies it by 1024, 1048576 or 1073741824; and the lower-case suffix
/// reads exactly as the upper-case one, whatever the digits.
pub proof fn lemma_block_size_units(n: Seq<char>)
    requires
        n.len() > 0,
        all_decimal(n),
    ensures
        0 < decimal_value(n) <= usize::MAX ==> parsed_block_size(n) == Ok::<nat, Fault>(
            decimal_value(n),
        ),
        0 < decimal_value(n) * 1024 <= usize::MAX ==> {
            &&& parsed_block_size(n.push('k')) == Ok::<nat, Fault>(decimal_value(n) * 1024)
            &&& parsed_block_size(n.push('K')) == Ok::<nat, Fault>(decimal_value(n) * 1024)
        },
        0 < decimal_value(n) * 1048576 <= usize::MAX ==> {
            &&& parsed_block_size(n.push('m')) == Ok::<nat, Fault>(decimal_value(n) * 1048576)
            &&& parsed_block_size(n.push('M')) == Ok::<nat, Fault>(decimal_value(n) * 1048576)
        },
        0 < decimal_value(n) * 1073741824 <= usize::MAX ==> {
            &&& parsed_block_size(n.push('g')) == Ok::<nat, Fault>(decimal_value(n) * 1073741824)
            &&& parsed_block_size(n.push('G')) == Ok::<nat, Fault>(decimal_value(n) * 1073741824)
        },
        parsed_block_size(n.push('k')) is Ok <==> parsed_block_size(n.push('K')) is Ok,
        parsed_block_size(n.push('k')) is Ok ==> parsed_block_size(n.push('k')) == parsed_block_size(n.push('K')),
        parsed_block_size(n.push('m')) is Ok <==> parsed_block_size(n.push('M')) is Ok,
        parsed_block_size(n.push('m')) is Ok ==> parsed_block_size(n.push('m')) == parsed_block_size(n.push('M')),
        parsed_block_size(n.push('g')) is Ok <==> parsed_block_size(n.push('G')) is Ok,
        parsed_block_size(n.push('g')) is Ok ==> parsed_block_size(n.push('g')) == parsed_block_size(n.push('G')),
{
    assert(decimal_digit_value(n[0]) is Some);
    assert(decimal_digit_value(n.last()) is Some);
    if 0 < decimal_value(n) <= usize::MAX {
        lemma_trim_plain(n);
        let u = n.last() as u32;
        assert(48 <= u <= 57);
        assert(suffix_factor(n.last()) is None);
        assert(n[0] != '+');
        assert(trim(n) == n);
        assert(parsed_unsigned(n, usize::MAX as nat) == Some(decimal_value(n)));
        assert(decimal_value(n) * 1nat == decimal_value(n));
    }
    let letters = seq!['k', 'K', 'm', 'M', 'g', 'G'];
    let factors = seq![1024nat, 1024nat, 1048576nat, 1048576nat, 1073741824nat, 1073741824nat];
    assert forall|j: int| 0 <= j < 6 && 0 < decimal_value(n) * factors[j] <= usize::MAX implies
        parsed_block_size(#[trigger] n.push(letters[j])) == Ok::<nat, Fault>(decimal_value(n) * factors[j]) by {
        lemma_suffixed_block_size(n, letters[j], factors[j]);
    }
    lemma_same_unit(n, 'k', 'K');
    lemma_same_unit(n, 'm', 'M');
    lemma_same_unit(n, 'g', 'G');
}

/// Two unit letters of the same factor give the same reading after the same digits.
proof fn lemma_same_unit(n: Seq<char>, a: char, b: char)
    requires
        n.len() > 0,
        all_decimal(n),
        !is_ws(a),
        !is_ws(b),
        suffix_factor(a) is Some,
        suffix_factor(a) == suffix_factor(b),
    ensures
        parsed_block_size(n.push(a)) is Ok <==> parsed_block_size(n.push(b)) is Ok,
        parsed_block_size(n.push(a)) is Ok ==> parsed_block_size(n.push(a)) == parsed_block_size(n.push(b)),
{
    assert(decimal_digit_value(n[0]) is Some);
    lemma_trim_plain(n.push(a));
    lemma_trim_plain(n.push(b));
    assert(n.push(a).drop_last() =~= n);
    assert(n.push(b).drop_last() =~= n);
}

/// A block size given as a number of bytes with an optional `K`, `M` or `G` suffix.
pub fn parse_block_size(value: &str) -> (r: Result<usize>)
    ensures
        match parsed_block_size(value@) {
            Ok(n) => r == Ok::<usize, Error>(n as usize),
            Err(f) => r matches Err(e) && fault(e) == f,
        },
{
    let v = trimmed(chars_of(value).as_slice());
    let n = v.len();
    if n == 0 {
        return Err(
            Error::InvalidArgument { message: String::from_str("block size must not be empty") },
        );
    }
    let factor = suffix_factor_exec(v[n - 1]);
    let digits = if factor > 1 {
        slice_chars(v.as_slice(), 0, n - 1)
    } else {
        slice_chars(v.as_slice(), 0, n)
    };
    assert(v@.subrange(0, n as int) =~= v@);
    assert(v@.subrange(0, n - 1) =~= v@.drop_last());
    let number = match parse_unsigned(digits.as_slice(), usize::MAX as u64) {
        Some(x) => x as usize,
        None => {
            let mut m = chars_of("invalid block size `");
            crate::text::push_chars(&mut m, v.as_slice());
            crate::text::push_str(&mut m, "`; expected a number with optional K/M/G suffix");
            return Err(Error::InvalidArgument { message: string_of(m.as_slice()) });
        },
    };
    let size = match number.checked_mul(factor) {
        Some(s) => s,
        None => {
            let mut m = chars_of("block size `");
            crate::text::push_chars(&mut m, v.as_slice());
            crate::text::push_str(&mut m, "` overflows");
            return Err(Error::InvalidArgument { message: string_of(m.as_slice()) });
        },
    };
    if size == 0 {
        return Err(
            Error::InvalidArgument {
                message: String::from_str("block size must be greater than zero"),
            },
        );
    }
    Ok(size)
}


// ---------------------------------------------------------------------------
// Options, switches and positional arguments
// ---------------------------------------------------------------------------

/// What a command-line option takes.
#[derive(Debug, Clone, Copy, PartialEq, Eq, Structural)]
pub enum OptionKind {
    /// A switch: present or not.
    Switch,
    /// Any following argument.
    Text,
    /// A following snapshot kind, checked when it is read.
    Kind,
    /// A following block size, checked when it is read.
    BlockSize,
}

/// An option a command accepts.
#[derive(Debug, Clone, Copy)]
pub struct OptionDef {
    pub name: &'static str,
    pub kind: OptionKind,
}

/// What has been read of a command's arguments: the last value of each option (by its
/// place in the table), whether each switch was given, and the positional arguments.
pub struct ArgScan {
    pub values: Seq<Option<Seq<char>>>,
    pub switches: Seq<bool>,
    pub positionals: Seq<Seq<char>>,
}

/// How reading a command's arguments ends.
pub enum ScanEnd {
    Done(ArgScan),
    /// Usage was asked for.
    Usage,
    Refused(Fault),
}

/// The place of the first option named `a`, from place `k` on.
pub open spec fn option_index_from(table: Seq<OptionDef>, a: Seq<char>, k: int) -> Option<int>
    decreases table.len() - k,
{
    if k < 0 || k >= table.len() {
        None
    } else if table[k].name@ == a {
        Some(k)
    } else {
        option_index_from(table, a, k + 1)
    }
}

pub open spec fn help_word(a: Seq<char>) -> bool {
    a == "--help"@ || a == "-h"@ || a == "help"@
}

/// Why a value is refused for an option of `kind`, if it is.
pub open spec fn value_refusal(kind: OptionKind, v: Seq<char>) -> Option<Fault> {
    match kind {
        OptionKind::Kind => match snapshot_kind_of(v) {
            Some(_) => None,
            None => Some(Fault::InvalidArgument { message: unknown_kind_message(v) }),
        },
        OptionKind::BlockSize => match parsed_block_size(v) {
            Ok(_) => None,
            Err(f) => Some(f),
        },
        _ => None,
    }
}

pub open spec fn missing_value(flag: Seq<char>) -> Fault {
    Fault::InvalidArgument { message: "missing value after `"@ + flag + "`"@ }
}

pub open spec fn unexpected_argument(a: Seq<char>) -> Fault {
    Fault::InvalidArgument { message: "unexpected argument `"@ + a + "`"@ }
}

/// Reading the arguments from the `i`th on. An option takes the next argument as its
/// value (checked for snapshot kinds and block sizes); a switch is set; with `help`, a
/// help word asks for usage; anything else is the next positional argument while fewer
/// than `max_pos` were given, and refused after that.
pub open spec fn scan_from(
    table: Seq<OptionDef>,
    max_pos: nat,
    help: bool,
    args: Seq<Seq<char>>,
    st: ArgScan,
    i: int,
) -> ScanEnd
    decreases args.len() - i,
{
    if i < 0 || i >= args.len() {
        ScanEnd::Done(st)
    } else {
        let a = args[i];
        match option_index_from(table, a, 0) {
            Some(k) => if table[k].kind == OptionKind::Switch {
                scan_from(
                    table,
                    max_pos,
                    help,
                    args,
                    ArgScan {
                        values: st.values,
                        switches: st.switches.update(k, true),
                        positionals: st.positionals,
                    },
                    i + 1,
                )
            } else if i + 1 >= args.len() {
                ScanEnd::Refused(missing_value(a))
            } else {
                match value_refusal(table[k].kind, args[i + 1]) {
                    Some(f) => ScanEnd::Refused(f),
                    None => scan_from(
                        table,
                        max_pos,
                        help,
                        args,
                        ArgScan {
                            values: st.values.update(k, Some(args[i + 1])),
                            switches: st.switches,
                            positionals: st.positionals,
                        },
                        i + 2,
                    ),
                }
            },
            None => if help && help_word(a) {
                ScanEnd::Usage
            } else if st.positionals.len() < max_pos {
                scan_from(
                    table,
                    max_pos,
                    help,
                    args,
                    ArgScan {
                        values: st.values,
                        switches: st.switches,
                        positionals: st.positionals.push(a),
                    },
                    i + 1,
                )
            } else {
                ScanEnd::Refused(unexpected_argument(a))
            },
        }
    }
}

/// Nothing read yet.
pub open spec fn empty_scan(n: nat) -> ArgScan {
    ArgScan {
        values: Seq::new(n, |k: int| None::<Seq<char>>),
        switches: Seq::new(n, |k: int| false),
        positionals: seq![],
    }
}

/// Reading all arguments of a command with options `table`.
pub open spec fn scan_args(table: Seq<OptionDef>, max_pos: nat, help: bool, args: Seq<Seq<char>>) -> ScanEnd {
    scan_from(table, max_pos, help, args, empty_scan(table.len()), 0)
}

/// The values of the options that are checked when read all pass their check.
pub open spec fn values_checked(table: Seq<OptionDef>, st: ArgScan) -> bool {
    forall|k: int|
        0 <= k < table.len() && k < st.values.len() && #[trigger] st.values[k] is Some
            ==> value_refusal(table[k].kind, st.values[k]->0) is None
}

/// What was read keeps its checks.
pub proof fn lemma_scan_checked(
    table: Seq<OptionDef>,
    max_pos: nat,
    help: bool,
    args: Seq<Seq<char>>,
    st: ArgScan,
    i: int,
)
    requires
        values_checked(table, st),
        st.values.len() == table.len(),
    ensures
        scan_from(table, max_pos, help, args, st, i) matches ScanEnd::Done(s) ==> values_checked(
            table,
            s,
        ),
    decreases args.len() - i,
{
    if 0 <= i < args.len() {
        let a = args[i];
        match option_index_from(table, a, 0) {
            Some(k) => if table[k].kind == OptionKind::Switch {
                lemma_scan_checked(
                    table,
                    max_pos,
                    help,
                    args,
                    ArgScan {
                        values: st.values,
                        switches: st.switches.update(k, true),
                        positionals: st.positionals,
                    },
                    i + 1,
                );
            } else if i + 1 < args.len() {
                if value_refusal(table[k].kind, args[i + 1]) is None {
                    let s2 = ArgScan {
                        values: st.values.update(k, Some(args[i + 1])),
                        switches: st.switches,
                        positionals: st.positionals,
                    };
                    lemma_option_index(table, a, 0);
                    assert forall|j: int|
                        0 <= j < table.len() && j < s2.values.len()
                            && #[trigger] s2.values[j] is Some implies value_refusal(
                        table[j].kind,
                        s2.values[j]->0,
                    ) is None by {
                        if j != k {
                            assert(s2.values[j] == st.values[j]);
                        }
                    }
                    lemma_scan_checked(table, max_pos, help, args, s2, i + 2);
                }
            },
            None => if !(help && help_word(a)) && st.positionals.len() < max_pos {
                lemma_scan_checked(
                    table,
                    max_pos,
                    help,
                    args,
                    ArgScan {
                        values: st.values,
                        switches: st.switches,
                        positionals: st.positionals.push(a),
                    },
                    i + 1,
                );
            },
        }
    }
}

/// Where an option is found, it is in the table and has that name.
pub proof fn lemma_option_index(table: Seq<OptionDef>, a: Seq<char>, k: int)
    requires
        0 <= k,
    ensures
        option_index_from(table, a, k) matches Some(j) ==> k <= j < table.len() && table[j].name@
            == a,
    decreases table.len() - k,
{
    if k < table.len() && table[k].name@ != a {
        lemma_option_index(table, a, k + 1);
    }
}

/// Without help words, reading never asks for usage.
pub proof fn lemma_scan_no_usage(
    table: Seq<OptionDef>,
    max_pos: nat,
    args: Seq<Seq<char>>,
    st: ArgScan,
    i: int,
)
    ensures
        !(scan_from(table, max_pos, false, args, st, i) is Usage),
    decreases args.len() - i,
{
    if 0 <= i < args.len() {
        let a = args[i];
        match option_index_from(table, a, 0) {
            Some(k) => if table[k].kind == OptionKind::Switch {
                lemma_scan_no_usage(
                    table,
                    max_pos,
                    args,
                    ArgScan {
                        values: st.values,
                        switches: st.switches.update(k, true),
                        positionals: st.positionals,
                    },
                    i + 1,
                );
            } else if i + 1 < args.len() {
                lemma_scan_no_usage(
                    table,
                    max_pos,
                    args,
                    ArgScan {
                        values: st.values.update(k, Some(args[i + 1])),
                        switches: st.switches,
                        positionals: st.positionals,
                    },
                    i + 2,
                );
            },
            None => if st.positionals.len() < max_pos {
                lemma_scan_no_usage(
                    table,
                    max_pos,
                    args,
                    ArgScan {
                        values: st.values,
                        switches: st.switches,
                        positionals: st.positionals.push(a),
                    },
                    i + 1,
                );
            },
        }
    }
}

/// The arguments of a command as read: the last value of each option, whether each
/// switch was given, and the positional arguments.
#[derive(Debug)]
pub struct ArgValues {
    pub values: Vec<Option<String>>,
    pub switches: Vec<bool>,
    pub positionals: Vec<String>,
}

pub open spec fn opt_strs(v: Seq<Option<String>>) -> Seq<Option<Seq<char>>> {
    v.map_values(|o: Option<String>| opt_str(o))
}

impl ArgValues {
    pub open spec fn scan(&self) -> ArgScan {
        ArgScan {
            values: opt_strs(self.values@),
            switches: self.switches@,
            positionals: strs(self.positionals@),
        }
    }
}

/// How reading a command's arguments ended, when it was not refused.
#[derive(Debug)]
pub enum Scanned {
    Done(ArgValues),
    Usage,
}

/// Whether `s` is the word `w`.
fn is_word(s: &str, w: &str) -> (r: bool)
    ensures
        r == (s@ == w@),
{
    chars_eq_str(chars_of(s).as_slice(), w)
}

fn option_index_exec(table: &[OptionDef], a: &str) -> (r: Option<usize>)
    ensures
        match r {
            Some(k) => option_index_from(table@, a@, 0) == Some(k as int),
            None => option_index_from(table@, a@, 0) is None,
        },
{
    let mut k: usize = 0;
    while k < table.len()
        invariant
            k <= table@.len(),
            option_index_from(table@, a@, 0) == option_index_from(table@, a@, k as int),
        decreases table@.len() - k,
    {
        if is_word(table[k].name, a) {
            return Some(k);
        }
        k = k + 1;
    }
    None
}

fn value_refusal_exec(kind: OptionKind, v: &str) -> (r: Option<Error>)
    ensures
        match value_refusal(kind, v@) {
            Some(f) => r matches Some(e) && fault(e) == f,
            None => r is None,
        },
{
    match kind {
        OptionKind::Kind => match SnapshotKind::parse(v) {
            Ok(_) => None,
            Err(e) => Some(e),
        },
        OptionKind::BlockSize => match parse_block_size(v) {
            Ok(_) => None,
            Err(e) => Some(e),
        },
        _ => None,
    }
}

/// Read the arguments of a command with options `table`, at most `max_pos` positional
/// arguments, and, with `help`, help words.
pub fn scan_arguments(args: &[String], table: &[OptionDef], max_pos: usize, help: bool) -> (r:
    Result<Scanned>)
    ensures
        match scan_args(table@, max_pos as nat, help, strs(args@)) {
            ScanEnd::Done(st) => r matches Ok(Scanned::Done(v)) && v.scan() == st
                && v.values@.len() == table@.len() && v.switches@.len() == table@.len(),
            ScanEnd::Usage => r matches Ok(Scanned::Usage),
            ScanEnd::Refused(f) => r matches Err(e) && fault(e) == f,
        },
{
    let n = args.len();
    let ghost all = strs(args@);
    let mut values: Vec<Option<String>> = Vec::new();
    let mut switches: Vec<bool> = Vec::new();
    let mut k: usize = 0;
    while k < table.len()
        invariant
            k <= table@.len(),
            values@.len() == k,
            switches@.len() == k,
            forall|j: int| 0 <= j < k ==> #[trigger] values@[j] is None,
            forall|j: int| 0 <= j < k ==> !#[trigger] switches@[j],
        decreases table@.len() - k,
    {
        values.push(None);
        switches.push(false);
        k = k + 1;
    }
    let mut cur = ArgValues { values, switches, positionals: Vec::new() };
    assert(cur.scan().values =~= empty_scan(table@.len()).values);
    assert(cur.scan().switches =~= empty_scan(table@.len()).switches);
    assert(cur.scan().positionals =~= empty_scan(table@.len()).positionals);
    let mut i: usize = 0;
    while i < n
        invariant
            n == args@.len(),
            all == strs(args@),
            i <= n,
            cur.values@.len() == table@.len(),
            cur.switches@.len() == table@.len(),
            scan_args(table@, max_pos as nat, help, all) == scan_from(
                table@,
                max_pos as nat,
                help,
                all,
                cur.scan(),
                i as int,
            ),
        decreases n - i,
    {
        let a = args[i].as_str();
        assert(all[i as int] == a@);
        let found = option_index_exec(table, a);
        match found {
            Some(k) => {
                proof {
                    lemma_option_index(table@, a@, 0);
                }
                if table[k].kind == OptionKind::Switch {
                    let ghost before = cur.scan();
                    cur.switches.set(k, true);
                    assert(cur.scan().switches =~= before.switches.update(k as int, true));
                    i = i + 1;
                } else if i + 1 >= n {
                    let mut m = chars_of("missing value after `");
                    crate::text::push_str(&mut m, a);
                    crate::text::push_str(&mut m, "`");
                    return Err(Error::InvalidArgument { message: string_of(m.as_slice()) });
                } else {
                    let v = args[i + 1].as_str();
                    assert(all[i + 1] == v@);
                    match value_refusal_exec(table[k].kind, v) {
                        Some(e) => {
                            return Err(e);
                        },
                        None => {
                            let ghost before = cur.scan();
                            cur.values.set(k, Some(args[i + 1].clone()));
                            assert(cur.scan().values =~= before.values.update(
                                k as int,
                                Some(v@),
                            ));
                            i = i + 2;
                        },
                    }
                }
            },
            None => {
                if help && (is_word(a, "--help") || is_word(a, "-h") || is_word(a, "help")) {
                    return Ok(Scanned::Usage);
                } else if cur.positionals.len() < max_pos {
                    let ghost before = cur.scan();
                    cur.positionals.push(args[i].clone());
                    assert(cur.scan().positionals =~= before.positionals.push(a@));
                    i = i + 1;
                } else {
                    let mut m = chars_of("unexpected argument `");
                    crate::text::push_str(&mut m, a);
                    crate::text::push_str(&mut m, "`");
                    return Err(Error::InvalidArgument { message: string_of(m.as_slice()) });
                }
            },
        }
    }
    Ok(Scanned::Done(cur))
}


// ---------------------------------------------------------------------------
// Reading the values of a scan
// ---------------------------------------------------------------------------

/// A command, or a request for its usage.
#[derive(Debug)]
pub enum Invocation<T> {
    Run(T),
    Usage,
}

/// The snapshot kind an option's last value names; crash-consistent when it was not given.
pub open spec fn kind_value(v: Option<Seq<char>>) -> SnapshotKind {
    match v {
        Some(s) => match snapshot_kind_of(s) {
            Some(k) => k,
            None => SnapshotKind::CrashConsistent,
        },
        None => SnapshotKind::CrashConsistent,
    }
}

/// The block size an option's last value gives, when it was given.
pub open spec fn block_size_value(v: Option<Seq<char>>) -> Option<nat> {
    match v {
        Some(s) => match parsed_block_size(s) {
            Ok(n) => Some(n),
            Err(_) => None,
        },
        None => None,
    }
}

fn value_at(v: &ArgValues, k: usize) -> (r: Option<String>)
    requires
        k < v.values@.len(),
    ensures
        opt_str(r) == v.scan().values[k as int],
{
    match &v.values[k] {
        Some(s) => Some(s.clone()),
        None => None,
    }
}

fn kind_at(v: &ArgValues, table: &[OptionDef], k: usize) -> (r: SnapshotKind)
    requires
        k < v.values@.len(),
        k < table@.len(),
        table@[k as int].kind == OptionKind::Kind,
        values_checked(table@, v.scan()),
    ensures
        r == kind_value(v.scan().values[k as int]),
{
    match &v.values[k] {
        Some(s) => {
            assert(v.scan().values[k as int] is Some);
            match SnapshotKind::parse(s.as_str()) {
                Ok(kind) => kind,
                Err(_) => {
                    proof {
                        assert(false);
                    }
                    SnapshotKind::CrashConsistent
                },
            }
        },
        None => SnapshotKind::CrashConsistent,
    }
}

fn block_size_at(v: &ArgValues, table: &[OptionDef], k: usize) -> (r: Option<usize>)
    requires
        k < v.values@.len(),
        k < table@.len(),
        table@[k as int].kind == OptionKind::BlockSize,
        values_checked(table@, v.scan()),
    ensures
        match block_size_value(v.scan().values[k as int]) {
            Some(n) => r == Some(n as usize),
            None => r is None,
        },
{
    match &v.values[k] {
        Some(s) => {
            assert(v.scan().values[k as int] is Some);
            match parse_block_size(s.as_str()) {
                Ok(n) => Some(n),
                Err(_) => {
                    proof {
                        assert(false);
                    }
                    None
                },
            }
        },
        None => None,
    }
}

proof fn lemma_scanned(table: Seq<OptionDef>, max_pos: nat, help: bool, args: Seq<Seq<char>>)
    ensures
        scan_args(table, max_pos, help, args) matches ScanEnd::Done(s) ==> values_checked(table, s),
        !help ==> !(scan_args(table, max_pos, help, args) is Usage),
{
    let e = empty_scan(table.len());
    assert(values_checked(table, e));
    lemma_scan_checked(table, max_pos, help, args, e, 0);
    if !help {
        lemma_scan_no_usage(table, max_pos, args, e, 0);
    }
}

/// An `InvalidArgument` error with a fixed message.
fn refused(message: &str) -> (e: Error)
    ensures
        fault(e) == (Fault::InvalidArgument { message: message@ }),
{
    Error::InvalidArgument { message: String::from_str(message) }
}

// ---------------------------------------------------------------------------
// Snapshot commands
// ---------------------------------------------------------------------------

/// The options of `snapshot capabilities`, `snapshot list` and `snapshot delete`.
pub open spec fn provider_options() -> Seq<OptionDef> {
    seq![OptionDef { name: "--provider", kind: OptionKind::Text }]
}

fn provider_table() -> (r: [OptionDef; 1])
    ensures
        r@ == provider_options(),
{
    let t = [OptionDef { name: "--provider", kind: OptionKind::Text }];
    assert(t@ =~= provider_options());
    t
}

/// The `--provider` option, the only argument `snapshot capabilities` takes.
pub fn parse_provider_flag(args: Vec<String>) -> (r: Result<Option<String>>)
    ensures
        match scan_args(provider_options(), 0, false, strs(args@)) {
            ScanEnd::Done(st) => r matches Ok(p) && opt_str(p) == st.values[0],
            ScanEnd::Refused(f) => r matches Err(e) && fault(e) == f,
            ScanEnd::Usage => false,
        },
{
    let table = provider_table();
    proof {
        lemma_scanned(provider_options(), 0, false, strs(args@));
    }
    match scan_arguments(args.as_slice(), &table, 0, false) {
        Ok(Scanned::Done(v)) => Ok(value_at(&v, 0)),
        Ok(Scanned::Usage) => {
            proof {
                assert(false);
            }
            Ok(None)
        },
        Err(e) => Err(e),
    }
}

/// The arguments of `snapshot list`: the provider, if named, and the volume.
pub fn parse_list_arguments(args: Vec<String>) -> (r: Result<(Option<String>, String)>)
    ensures
        match scan_args(provider_options(), 1, false, strs(args@)) {
            ScanEnd::Done(st) => if st.positionals.len() == 0 {
                r matches Err(e) && fault(e) == (Fault::InvalidArgument {
                    message: "missing volume id for `list`"@,
                })
            } else {
                r matches Ok((p, volume)) && opt_str(p) == st.values[0] && volume@
                    == st.positionals[0]
            },
            ScanEnd::Refused(f) => r matches Err(e) && fault(e) == f,
            ScanEnd::Usage => false,
        },
{
    let table = provider_table();
    proof {
        lemma_scanned(provider_options(), 1, false, strs(args@));
    }
    match scan_arguments(args.as_slice(), &table, 1, false) {
        Ok(Scanned::Done(v)) => {
            if v.positionals.len() == 0 {
                return Err(refused("missing volume id for `list`"));
            }
            assert(v.scan().positionals[0] == v.positionals@[0]@);
            Ok((value_at(&v, 0), v.positionals[0].clone()))
        },
        Ok(Scanned::Usage) => {
            proof {
                assert(false);
            }
            Err(refused("missing volume id for `list`"))
        },
        Err(e) => Err(e),
    }
}

/// The arguments of `snapshot delete`: the provider, if named, and the snapshot id.
pub fn parse_delete_arguments(args: Vec<String>) -> (r: Result<(Option<String>, String)>)
    ensures
        match scan_args(provider_options(), 1, false, strs(args@)) {
            ScanEnd::Done(st) => if st.positionals.len() == 0 {
                r matches Err(e) && fault(e) == (Fault::InvalidArgument {
                    message: "missing snapshot id for `delete`"@,
                })
            } else {
                r matches Ok((p, id)) && opt_str(p) == st.values[0] && id@ == st.positionals[0]
            },
            ScanEnd::Refused(f) => r matches Err(e) && fault(e) == f,
            ScanEnd::Usage => false,
        },
{
    let table = provider_table();
    proof {
        lemma_scanned(provider_options(), 1, false, strs(args@));
    }
    match scan_arguments(args.as_slice(), &table, 1, false) {
        Ok(Scanned::Done(v)) => {
            if v.positionals.len() == 0 {
                return Err(refused("missing snapshot id for `delete`"));
            }
            assert(v.scan().positionals[0] == v.positionals@[0]@);
            Ok((value_at(&v, 0), v.positionals[0].clone()))
        },
        Ok(Scanned::Usage) => {
            proof {
                assert(false);
            }
            Err(refused("missing snapshot id for `delete`"))
        },
        Err(e) => Err(e),
    }
}


/// The options of `snapshot create`.
pub open spec fn create_options() -> Seq<OptionDef> {
    seq![
        OptionDef { name: "--provider", kind: OptionKind::Text },
        OptionDef { name: "--kind", kind: OptionKind::Kind },
        OptionDef { name: "--label", kind: OptionKind::Text },
        OptionDef { name: "--read-write", kind: OptionKind::Switch },
    ]
}

/// The arguments of `snapshot create`: the provider, if named, and the request: of the
/// volume given, of the kind given (crash-consistent if none), with the label given,
/// read-only unless `--read-write` was given.
pub fn parse_create_request(args: Vec<String>) -> (r: Result<(Option<String>, SnapshotRequest)>)
    ensures
        match scan_args(create_options(), 1, false, strs(args@)) {
            ScanEnd::Done(st) => if st.positionals.len() == 0 {
                r matches Err(e) && fault(e) == (Fault::InvalidArgument {
                    message: "missing source volume for `create`"@,
                })
            } else {
                r matches Ok((p, q)) && opt_str(p) == st.values[0] && q.source.id@
                    == st.positionals[0] && q.kind == kind_value(st.values[1]) && opt_str(q.label)
                    == st.values[2] && q.read_only == !st.switches[3]
            },
            ScanEnd::Refused(f) => r matches Err(e) && fault(e) == f,
            ScanEnd::Usage => false,
        },
{
    let table = [
        OptionDef { name: "--provider", kind: OptionKind::Text },
        OptionDef { name: "--kind", kind: OptionKind::Kind },
        OptionDef { name: "--label", kind: OptionKind::Text },
        OptionDef { name: "--read-write", kind: OptionKind::Switch },
    ];
    assert(table@ =~= create_options());
    proof {
        lemma_scanned(create_options(), 1, false, strs(args@));
    }
    match scan_arguments(args.as_slice(), &table, 1, false) {
        Ok(Scanned::Done(v)) => {
            if v.positionals.len() == 0 {
                return Err(refused("missing source volume for `create`"));
            }
            assert(v.scan().positionals[0] == v.positionals@[0]@);
            let request = SnapshotRequest {
                source: VolumeRef::new(v.positionals[0].as_str()),
                kind: kind_at(&v, &table, 1),
                label: value_at(&v, 2),
                read_only: !v.switches[3],
            };
            Ok((value_at(&v, 0), request))
        },
        Ok(Scanned::Usage) => {
            proof {
                assert(false);
            }
            Err(refused("missing source volume for `create`"))
        },
        Err(e) => Err(e),
    }
}

// ---------------------------------------------------------------------------
// Backup and restore
// ---------------------------------------------------------------------------

/// The arguments of `backup`.
#[derive(Debug)]
pub struct BackupArgs {
    pub provider: Option<String>,
    pub source: BackupSource,
    pub output: String,
    pub snapshot_policy: SnapshotPolicy,
    pub parent_snapshot: Option<SnapshotRef>,
    pub block_size: Option<usize>,
}

/// The options of `backup`.
pub open spec fn backup_options() -> Seq<OptionDef> {
    seq![
        OptionDef { name: "--provider", kind: OptionKind::Text },
        OptionDef { name: "--output", kind: OptionKind::Text },
        OptionDef { name: "--snapshot-source", kind: OptionKind::Switch },
        OptionDef { name: "--parent-snapshot", kind: OptionKind::Text },
        OptionDef { name: "--snapshot-label", kind: OptionKind::Text },
        OptionDef { name: "--snapshot-kind", kind: OptionKind::Kind },
        OptionDef { name: "--snapshot-read-write", kind: OptionKind::Switch },
        OptionDef { name: "--block-size", kind: OptionKind::BlockSize },
        OptionDef { name: "--no-snapshot", kind: OptionKind::Switch },
    ]
}

/// The backup a complete reading of `backup` arguments describes: the source volume, as
/// an existing snapshot of itself with `--snapshot-source`; a temporary snapshot of the
/// kind, label and writability given unless `--no-snapshot`; the parent snapshot and
/// block size given.
pub open spec fn is_backup_args(b: BackupArgs, st: ArgScan) -> bool {
    let volume = st.positionals[0];
    &&& opt_str(b.provider) == st.values[0]
    &&& b.output@ == st.values[1]->0
    &&& if st.switches[2] {
        b.source matches BackupSource::Snapshot(s) && s.id@ == volume && (s.origin matches Some(
            o,
        ) && o.id@ == volume)
    } else {
        b.source matches BackupSource::Volume(v) && v.id@ == volume
    }
    &&& if st.switches[8] {
        b.snapshot_policy is Disabled
    } else {
        b.snapshot_policy matches SnapshotPolicy::Temporary { kind, label, read_only } && kind
            == kind_value(st.values[5]) && opt_str(label) == st.values[4] && read_only
            == !st.switches[6]
    }
    &&& match st.values[3] {
        Some(p) => b.parent_snapshot matches Some(s) && s.id@ == p && s.origin is None,
        None => b.parent_snapshot is None,
    }
    &&& match block_size_value(st.values[7]) {
        Some(n) => b.block_size == Some(n as usize),
        None => b.block_size is None,
    }
}

/// Reading arguments keeps one value and one switch per option.
proof fn lemma_scan_sizes(
    table: Seq<OptionDef>,
    max_pos: nat,
    help: bool,
    args: Seq<Seq<char>>,
    st: ArgScan,
    i: int,
)
    requires
        st.values.len() == table.len(),
        st.switches.len() == table.len(),
    ensures
        scan_from(table, max_pos, help, args, st, i) matches ScanEnd::Done(s) ==> s.values.len()
            == table.len() && s.switches.len() == table.len(),
    decreases args.len() - i,
{
    if 0 <= i < args.len() {
        let a = args[i];
        match option_index_from(table, a, 0) {
            Some(k) => {
                lemma_option_index(table, a, 0);
                if table[k].kind == OptionKind::Switch {
                    lemma_scan_sizes(
                        table,
                        max_pos,
                        help,
                        args,
                        ArgScan {
                            values: st.values,
                            switches: st.switches.update(k, true),
                            positionals: st.positionals,
                        },
                        i + 1,
                    );
                } else if i + 1 < args.len() {
                    lemma_scan_sizes(
                        table,
                        max_pos,
                        help,
                        args,
                        ArgScan {
                            values: st.values.update(k, Some(args[i + 1])),
                            switches: st.switches,
                            positionals: st.positionals,
                        },
                        i + 2,
                    );
                }
            },
            None => {
                if st.positionals.len() < max_pos {
                    lemma_scan_sizes(
                        table,
                        max_pos,
                        help,
                        args,
                        ArgScan {
                            values: st.values,
                            switches: st.switches,
                            positionals: st.positionals.push(a),
                        },
                        i + 1,
                    );
                }
            },
        }
    }
}

/// The temporary snapshot of a backup is of the kind that `--snapshot-kind` names, its
/// last value counting; crash-consistent when the option is not given. With
/// `--no-snapshot` there is no temporary snapshot.
pub proof fn lemma_backup_snapshot_kind(args: Seq<Seq<char>>, b: BackupArgs)
    requires
        scan_args(backup_options(), 1, false, args) matches ScanEnd::Done(st) && is_backup_args(
            b,
            st,
        ),
    ensures
        scan_args(backup_options(), 1, false, args) matches ScanEnd::Done(st) && (if st.switches[8] {
            b.snapshot_policy is Disabled
        } else {
            b.snapshot_policy matches SnapshotPolicy::Temporary { kind, .. } && match st.values[5] {
                Some(w) => snapshot_kind_of(w) == Some(kind),
                None => kind == SnapshotKind::CrashConsistent,
            }
        }),
{
    let table = backup_options();
    lemma_scanned(table, 1, false, args);
    lemma_scan_sizes(table, 1, false, args, empty_scan(table.len()), 0);
    let st = scan_args(table, 1, false, args)->Done_0;
    if st.values[5] is Some {
        assert(value_refusal(table[5].kind, st.values[5]->0) is None);
    }
}

/// `backup <volume> --output <file> --snapshot-kind <kind>`, for any volume that is not an
/// option, any file and any kind name, backs the volume up through a temporary, read-only
/// snapshot of exactly the kind named: `application` gives an application-consistent one.
pub proof fn lemma_backup_requested_kind(
    volume: Seq<char>,
    output: Seq<char>,
    word: Seq<char>,
    b: BackupArgs,
)
    requires
        volume.len() > 0,
        volume[0] != '-',
        snapshot_kind_of(word) is Some,
        scan_args(backup_options(), 1, false, seq![volume, "--output"@, output, "--snapshot-kind"@, word])
            matches ScanEnd::Done(st) && is_backup_args(b, st),
    ensures
        b.snapshot_policy matches SnapshotPolicy::Temporary { kind, read_only, .. } && Some(kind)
            == snapshot_kind_of(word) && read_only,
        b.source matches BackupSource::Volume(v) && v.id@ == volume,
        b.output@ == output,
{
    let table = backup_options();
    let args = seq![volume, "--output"@, output, "--snapshot-kind"@, word];
    reveal_strlit("--provider");
    reveal_strlit("--output");
    reveal_strlit("--snapshot-source");
    reveal_strlit("--parent-snapshot");
    reveal_strlit("--snapshot-label");
    reveal_strlit("--snapshot-kind");
    reveal_strlit("--snapshot-read-write");
    reveal_strlit("--block-size");
    reveal_strlit("--no-snapshot");
    reveal_with_fuel(option_index_from, 10);
    assert(option_index_from(table, volume, 0) is None);
    assert(option_index_from(table, "--output"@, 0) == Some(1int));
    assert(option_index_from(table, "--snapshot-kind"@, 0) == Some(5int));
    let s0 = empty_scan(table.len());
    let s1 = ArgScan { values: s0.values, switches: s0.switches, positionals: s0.positionals.push(volume) };
    let s2 = ArgScan { values: s1.values.update(1, Some(output)), switches: s1.switches, positionals: s1.positionals };
    let s3 = ArgScan { values: s2.values.update(5, Some(word)), switches: s2.switches, positionals: s2.positionals };
    assert(scan_from(table, 1, false, args, s3, 5) == ScanEnd::Done(s3));
    assert(scan_from(table, 1, false, args, s2, 3) == ScanEnd::Done(s3));
    assert(scan_from(table, 1, false, args, s1, 1) == ScanEnd::Done(s3));
    assert(scan_from(table, 1, false, args, s0, 0) == ScanEnd::Done(s3));
    assert(s3.values[5] == Some(word));
    assert(!s3.switches[8]);
    assert(s3.positionals[0] == volume);
}

/// The arguments of `backup`: a source volume and `--output` are required.
pub fn parse_backup_request(args: Vec<String>) -> (r: Result<BackupArgs>)
    ensures
        match scan_args(backup_options(), 1, false, strs(args@)) {
            ScanEnd::Done(st) => if st.positionals.len() == 0 {
                r matches Err(e) && fault(e) == (Fault::InvalidArgument {
                    message: "missing source volume"@,
                })
            } else if st.values[1] is None {
                r matches Err(e) && fault(e) == (Fault::InvalidArgument {
                    message: "missing `--output <path>`"@,
                })
            } else {
                r matches Ok(b) && is_backup_args(b, st)
            },
            ScanEnd::Refused(f) => r matches Err(e) && fault(e) == f,
            ScanEnd::Usage => false,
        },
{
    let table = [
        OptionDef { name: "--provider", kind: OptionKind::Text },
        OptionDef { name: "--output", kind: OptionKind::Text },
        OptionDef { name: "--snapshot-source", kind: OptionKind::Switch },
        OptionDef { name: "--parent-snapshot", kind: OptionKind::Text },
        OptionDef { name: "--snapshot-label", kind: OptionKind::Text },
        OptionDef { name: "--snapshot-kind", kind: OptionKind::Kind },
        OptionDef { name: "--snapshot-read-write", kind: OptionKind::Switch },
        OptionDef { name: "--block-size", kind: OptionKind::BlockSize },
        OptionDef { name: "--no-snapshot", kind: OptionKind::Switch },
    ];
    assert(table@ =~= backup_options());
    proof {
        lemma_scanned(backup_options(), 1, false, strs(args@));
    }
    let v = match scan_arguments(args.as_slice(), &table, 1, false) {
        Ok(Scanned::Done(v)) => v,
        Ok(Scanned::Usage) => {
            proof {
                assert(false);
            }
            return Err(refused("missing source volume"));
        },
        Err(e) => {
            return Err(e);
        },
    };
    if v.positionals.len() == 0 {
        return Err(refused("missing source volume"));
    }
    assert(v.scan().positionals[0] == v.positionals@[0]@);
    let output = match value_at(&v, 1) {
        Some(o) => o,
        None => {
            return Err(refused("missing `--output <path>`"));
        },
    };
    let volume = VolumeRef::new(v.positionals[0].as_str());
    let source = if v.switches[2] {
        let id = volume.id.clone();
        BackupSource::Snapshot(SnapshotRef::new(id.as_str()).with_origin(volume))
    } else {
        BackupSource::Volume(volume)
    };
    let snapshot_policy = if v.switches[8] {
        SnapshotPolicy::disabled()
    } else {
        SnapshotPolicy::temporary(kind_at(&v, &table, 5), value_at(&v, 4), !v.switches[6])
    };
    let parent_snapshot = match value_at(&v, 3) {
        Some(p) => Some(SnapshotRef::new(p.as_str())),
        None => None,
    };
    let block_size = block_size_at(&v, &table, 7);
    Ok(
        BackupArgs {
            provider: value_at(&v, 0),
            source,
            output,
            snapshot_policy,
            parent_snapshot,
            block_size,
        },
    )
}

/// The arguments of `restore`.
#[derive(Debug)]
pub struct RestoreArgs {
    pub provider: Option<String>,
    pub input: String,
    pub destination: VolumeRef,
    pub force: bool,
    pub base_snapshot: Option<SnapshotRef>,
    pub block_size: Option<usize>,
}

/// The options of `restore`.
pub open spec fn restore_options() -> Seq<OptionDef> {
    seq![
        OptionDef { name: "--provider", kind: OptionKind::Text },
        OptionDef { name: "--input", kind: OptionKind::Text },
        OptionDef { name: "--force", kind: OptionKind::Switch },
        OptionDef { name: "--base-snapshot", kind: OptionKind::Text },
        OptionDef { name: "--block-size", kind: OptionKind::BlockSize },
    ]
}

/// The arguments of `restore`: `--input` and a destination are required.
pub fn parse_restore_request(args: Vec<String>) -> (r: Result<RestoreArgs>)
    ensures
        match scan_args(restore_options(), 1, false, strs(args@)) {
            ScanEnd::Done(st) => if st.values[1] is None {
                r matches Err(e) && fault(e) == (Fault::InvalidArgument {
                    message: "missing `--input <path>`"@,
                })
            } else if st.positionals.len() == 0 {
                r matches Err(e) && fault(e) == (Fault::InvalidArgument {
                    message: "missing destination volume/directory"@,
                })
            } else {
                r matches Ok(a) && opt_str(a.provider) == st.values[0] && a.input@
                    == st.values[1]->0 && a.destination.id@ == st.positionals[0] && a.force
                    == st.switches[2] && match st.values[3] {
                    Some(p) => a.base_snapshot matches Some(s) && s.id@ == p && s.origin is None,
                    None => a.base_snapshot is None,
                } && match block_size_value(st.values[4]) {
                    Some(n) => a.block_size == Some(n as usize),
                    None => a.block_size is None,
                }
            },
            ScanEnd::Refused(f) => r matches Err(e) && fault(e) == f,
            ScanEnd::Usage => false,
        },
{
    let table = [
        OptionDef { name: "--provider", kind: OptionKind::Text },
        OptionDef { name: "--input", kind: OptionKind::Text },
        OptionDef { name: "--force", kind: OptionKind::Switch },
        OptionDef { name: "--base-snapshot", kind: OptionKind::Text },
        OptionDef { name: "--block-size", kind: OptionKind::BlockSize },
    ];
    assert(table@ =~= restore_options());
    proof {
        lemma_scanned(restore_options(), 1, false, strs(args@));
    }
    let v = match scan_arguments(args.as_slice(), &table, 1, false) {
        Ok(Scanned::Done(v)) => v,
        Ok(Scanned::Usage) => {
            proof {
                assert(false);
            }
            return Err(refused("missing `--input <path>`"));
        },
        Err(e) => {
            return Err(e);
        },
    };
    let input = match value_at(&v, 1) {
        Some(i) => i,
        None => {
            return Err(refused("missing `--input <path>`"));
        },
    };
    if v.positionals.len() == 0 {
        return Err(refused("missing destination volume/directory"));
    }
    assert(v.scan().positionals[0] == v.positionals@[0]@);
    let base_snapshot = match value_at(&v, 3) {
        Some(p) => Some(SnapshotRef::new(p.as_str())),
        None => None,
    };
    Ok(
        RestoreArgs {
            provider: value_at(&v, 0),
            input,
            destination: VolumeRef::new(v.positionals[0].as_str()),
            force: v.switches[2],
            base_snapshot,
            block_size: block_size_at(&v, &table, 4),
        },
    )
}


// ---------------------------------------------------------------------------
// Copy-mount and mount commands
// ---------------------------------------------------------------------------

/// The options of `open` (copy-mount).
pub open spec fn open_options() -> Seq<OptionDef> {
    seq![
        OptionDef { name: "--provider", kind: OptionKind::Text },
        OptionDef { name: "--kind", kind: OptionKind::Kind },
        OptionDef { name: "--label", kind: OptionKind::Text },
        OptionDef { name: "--read-write", kind: OptionKind::Switch },
        OptionDef { name: "--target", kind: OptionKind::Text },
    ]
}

/// The mode a `--read-write` switch selects.
pub open spec fn mode_of(read_write: bool) -> MountMode {
    if read_write {
        MountMode::ReadWrite
    } else {
        MountMode::ReadOnly
    }
}

fn mode_exec(read_write: bool) -> (r: MountMode)
    ensures
        r == mode_of(read_write),
{
    if read_write {
        MountMode::ReadWrite
    } else {
        MountMode::ReadOnly
    }
}

/// The arguments of `open`: the provider, if named, and the copy-mount request: of the
/// source given, of the kind given (crash-consistent if none), with the label and target
/// given, read-only unless `--read-write` was given.
pub fn parse_open_request(args: Vec<String>) -> (r: Result<Invocation<(Option<String>, CopyMountRequest)>>)
    ensures
        match scan_args(open_options(), 1, true, strs(args@)) {
            ScanEnd::Done(st) => if st.positionals.len() == 0 {
                r matches Err(e) && fault(e) == (Fault::InvalidArgument {
                    message: "missing source volume for `open`"@,
                })
            } else {
                r matches Ok(Invocation::Run((p, q))) && opt_str(p) == st.values[0] && q.source.id@
                    == st.positionals[0] && q.kind == kind_value(st.values[1]) && opt_str(q.label)
                    == st.values[2] && q.mode == mode_of(st.switches[3]) && opt_str(q.target)
                    == st.values[4]
            },
            ScanEnd::Usage => r matches Ok(Invocation::Usage),
            ScanEnd::Refused(f) => r matches Err(e) && fault(e) == f,
        },
{
    let table = [
        OptionDef { name: "--provider", kind: OptionKind::Text },
        OptionDef { name: "--kind", kind: OptionKind::Kind },
        OptionDef { name: "--label", kind: OptionKind::Text },
        OptionDef { name: "--read-write", kind: OptionKind::Switch },
        OptionDef { name: "--target", kind: OptionKind::Text },
    ];
    assert(table@ =~= open_options());
    proof {
        lemma_scanned(open_options(), 1, true, strs(args@));
    }
    let v = match scan_arguments(args.as_slice(), &table, 1, true) {
        Ok(Scanned::Done(v)) => v,
        Ok(Scanned::Usage) => {
            return Ok(Invocation::Usage);
        },
        Err(e) => {
            return Err(e);
        },
    };
    if v.positionals.len() == 0 {
        return Err(refused("missing source volume for `open`"));
    }
    assert(v.scan().positionals[0] == v.positionals@[0]@);
    let request = CopyMountRequest {
        source: VolumeRef::new(v.positionals[0].as_str()),
        kind: kind_at(&v, &table, 1),
        label: value_at(&v, 2),
        mode: mode_exec(v.switches[3]),
        target: value_at(&v, 4),
    };
    Ok(Invocation::Run((value_at(&v, 0), request)))
}

/// The arguments of `close` (copy-mount).
#[derive(Debug)]
pub struct CloseArgs {
    pub provider: Option<String>,
    pub snapshot_id: String,
    pub mount_point: String,
}

/// The arguments of `close`: the provider, if named, the snapshot id and the mount point.
pub fn parse_close_request(args: Vec<String>) -> (r: Result<Invocation<CloseArgs>>)
    ensures
        match scan_args(provider_options(), 2, true, strs(args@)) {
            ScanEnd::Done(st) => if st.positionals.len() == 0 {
                r matches Err(e) && fault(e) == (Fault::InvalidArgument {
                    message: "missing snapshot id for `close`"@,
                })
            } else if st.positionals.len() == 1 {
                r matches Err(e) && fault(e) == (Fault::InvalidArgument {
                    message: "missing mount point for `close`"@,
                })
            } else {
                r matches Ok(Invocation::Run(a)) && opt_str(a.provider) == st.values[0]
                    && a.snapshot_id@ == st.positionals[0] && a.mount_point@ == st.positionals[1]
            },
            ScanEnd::Usage => r matches Ok(Invocation::Usage),
            ScanEnd::Refused(f) => r matches Err(e) && fault(e) == f,
        },
{
    let table = provider_table();
    let v = match scan_arguments(args.as_slice(), &table, 2, true) {
        Ok(Scanned::Done(v)) => v,
        Ok(Scanned::Usage) => {
            return Ok(Invocation::Usage);
        },
        Err(e) => {
            return Err(e);
        },
    };
    if v.positionals.len() == 0 {
        return Err(refused("missing snapshot id for `close`"));
    }
    if v.positionals.len() == 1 {
        return Err(refused("missing mount point for `close`"));
    }
    assert(v.scan().positionals[0] == v.positionals@[0]@);
    assert(v.scan().positionals[1] == v.positionals@[1]@);
    Ok(
        Invocation::Run(
            CloseArgs {
                provider: value_at(&v, 0),
                snapshot_id: v.positionals[0].clone(),
                mount_point: v.positionals[1].clone(),
            },
        ),
    )
}

/// The arguments of `mount`.
#[derive(Debug)]
pub struct MountArgs {
    pub provider: Option<String>,
    pub snapshot_id: String,
    pub mode: MountMode,
    pub target: Option<String>,
}

/// The options of `mount`.
pub open spec fn mount_options() -> Seq<OptionDef> {
    seq![
        OptionDef { name: "--provider", kind: OptionKind::Text },
        OptionDef { name: "--target", kind: OptionKind::Text },
        OptionDef { name: "--read-write", kind: OptionKind::Switch },
    ]
}

/// The arguments of `mount`: the provider, if named, the snapshot id, the target given,
/// read-only unless `--read-write` was given.
pub fn parse_mount_request(args: Vec<String>) -> (r: Result<Invocation<MountArgs>>)
    ensures
        match scan_args(mount_options(), 1, true, strs(args@)) {
            ScanEnd::Done(st) => if st.positionals.len() == 0 {
                r matches Err(e) && fault(e) == (Fault::InvalidArgument {
                    message: "missing snapshot id for `mount`"@,
                })
            } else {
                r matches Ok(Invocation::Run(a)) && opt_str(a.provider) == st.values[0]
                    && a.snapshot_id@ == st.positionals[0] && a.mode == mode_of(st.switches[2])
                    && opt_str(a.target) == st.values[1]
            },
            ScanEnd::Usage => r matches Ok(Invocation::Usage),
            ScanEnd::Refused(f) => r matches Err(e) && fault(e) == f,
        },
{
    let table = [
        OptionDef { name: "--provider", kind: OptionKind::Text },
        OptionDef { name: "--target", kind: OptionKind::Text },
        OptionDef { name: "--read-write", kind: OptionKind::Switch },
    ];
    assert(table@ =~= mount_options());
    let v = match scan_arguments(args.as_slice(), &table, 1, true) {
        Ok(Scanned::Done(v)) => v,
        Ok(Scanned::Usage) => {
            return Ok(Invocation::Usage);
        },
        Err(e) => {
            return Err(e);
        },
    };
    if v.positionals.len() == 0 {
        return Err(refused("missing snapshot id for `mount`"));
    }
    assert(v.scan().positionals[0] == v.positionals@[0]@);
    Ok(
        Invocation::Run(
            MountArgs {
                provider: value_at(&v, 0),
                snapshot_id: v.positionals[0].clone(),
                mode: mode_exec(v.switches[2]),
                target: value_at(&v, 1),
            },
        ),
    )
}

/// The arguments of `unmount`: the provider, if named, and the mount point.
pub fn parse_unmount_request(args: Vec<String>) -> (r: Result<Invocation<(Option<String>, String)>>)
    ensures
        match scan_args(provider_options(), 1, true, strs(args@)) {
            ScanEnd::Done(st) => if st.positionals.len() == 0 {
                r matches Err(e) && fault(e) == (Fault::InvalidArgument {
                    message: "missing mount point for `unmount`"@,
                })
            } else {
                r matches Ok(Invocation::Run((p, m))) && opt_str(p) == st.values[0] && m@
                    == st.positionals[0]
            },
            ScanEnd::Usage => r matches Ok(Invocation::Usage),
            ScanEnd::Refused(f) => r matches Err(e) && fault(e) == f,
        },
{
    let table = provider_table();
    let v = match scan_arguments(args.as_slice(), &table, 1, true) {
        Ok(Scanned::Done(v)) => v,
        Ok(Scanned::Usage) => {
            return Ok(Invocation::Usage);
        },
        Err(e) => {
            return Err(e);
        },
    };
    if v.positionals.len() == 0 {
        return Err(refused("missing mount point for `unmount`"));
    }
    assert(v.scan().positionals[0] == v.positionals@[0]@);
    Ok(Invocation::Run((value_at(&v, 0), v.positionals[0].clone())))
}


/// Whether a command's arguments ask for its usage: none given, or a help word among them.
pub open spec fn asks_usage(args: Seq<Seq<char>>) -> bool {
    args.len() == 0 || exists|i: int| 0 <= i < args.len() && help_word(#[trigger] args[i])
}

/// Whether `backup` or `restore` is to print its usage instead of running.
pub fn asks_for_usage(args: &[String]) -> (r: bool)
    ensures
        r == asks_usage(strs(args@)),
{
    if args.len() == 0 {
        return true;
    }
    let mut i: usize = 0;
    while i < args.len()
        invariant
            i <= args@.len(),
            forall|j: int| 0 <= j < i ==> !help_word(#[trigger] strs(args@)[j]),
        decreases args@.len() - i,
    {
        let a = args[i].as_str();
        assert(strs(args@)[i as int] == a@);
        if is_word(a, "--help") || is_word(a, "-h") || is_word(a, "help") {
            return true;
        }
        i = i + 1;
    }
    false
}

} // verus!
