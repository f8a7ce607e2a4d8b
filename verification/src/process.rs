//! External commands: how a command line is shown, how long a command may run, and what
//! a failed command is reported as. Running the command is the caller's part.
use vstd::prelude::*;

use crate::error::{Error, Fault, fault};
use crate::host::{decode_utf8_lossy, utf8_lossy};
use crate::text::{chars_of, parse_unsigned, parsed_unsigned, push_str, string_of, strs, trim, trimmed};

verus! {

/// How long a command may run when nothing else is configured.
pub const DEFAULT_TIMEOUT_SECS: u64 = 30;

/// Where a command reads its standard input from and writes its standard output to;
/// `None` keeps the pipe.
#[derive(Debug, Clone)]
pub struct CommandIo {
    pub stdin_file: Option<String>,
    pub stdout_file: Option<String>,
}

impl Default for CommandIo {
    fn default() -> (r: Self)
        ensures
            r.stdin_file is None,
            r.stdout_file is None,
    {
        CommandIo { stdin_file: None, stdout_file: None }
    }
}

/// The arguments joined by single spaces.
pub open spec fn joined(args: Seq<Seq<char>>) -> Seq<char>
    decreases args.len(),
{
    if args.len() == 0 {
        seq![]
    } else if args.len() == 1 {
        args[0]
    } else {
        joined(args.drop_last()) + seq![' '] + args.last()
    }
}

/// A command line as it is shown: the program, then the arguments, separated by spaces.
pub open spec fn command_line(program: Seq<char>, args: Seq<Seq<char>>) -> Seq<char> {
    if args.len() == 0 {
        program
    } else {
        program + seq![' '] + joined(args)
    }
}

/// The command line of `program` with `args`, for messages.
pub fn display_command(program: &str, args: &[String]) -> (r: String)
    ensures
        r@ == command_line(program@, strs(args@)),
{
    let mut out = chars_of(program);
    let mut i: usize = 0;
    while i < args.len()
        invariant
            i <= args@.len(),
            out@ == command_line(program@, strs(args@.subrange(0, i as int))),
        decreases args@.len() - i,
    {
        proof {
            let a = strs(args@.subrange(0, i + 1));
            assert(a.drop_last() =~= strs(args@.subrange(0, i as int)));
            assert(a.last() == args@[i as int]@);
        }
        out.push(' ');
        push_str(&mut out, args[i].as_str());
        proof {
            let a = strs(args@.subrange(0, i + 1));
            if i == 0 {
                assert(a =~= seq![args@[0]@]);
            }
        }
        i = i + 1;
    }
    assert(args@.subrange(0, args@.len() as int) =~= args@);
    string_of(out.as_slice())
}

/// The timeout, in seconds, that a configured value gives: a positive whole number of
/// seconds, or else the default.
pub open spec fn timeout_from(value: Option<Seq<char>>) -> nat {
    match value {
        Some(v) => match parsed_unsigned(v, u64::MAX as nat) {
            Some(n) => if n > 0 {
                n
            } else {
                DEFAULT_TIMEOUT_SECS as nat
            },
            None => DEFAULT_TIMEOUT_SECS as nat,
        },
        None => DEFAULT_TIMEOUT_SECS as nat,
    }
}

/// The timeout of external commands from the configured value (the
/// `VPT_COMMAND_TIMEOUT_SECS` setting), if there is one.
pub fn command_timeout_secs(value: Option<&str>) -> (r: u64)
    ensures
        r == timeout_from(
            match value {
                Some(v) => Some(v@),
                None => None,
            },
        ),
{
    match value {
        Some(v) => {
            let c = chars_of(v);
            match parse_unsigned(c.as_slice(), u64::MAX) {
                Some(n) => if n > 0 {
                    n
                } else {
                    DEFAULT_TIMEOUT_SECS
                },
                None => DEFAULT_TIMEOUT_SECS,
            }
        },
        None => DEFAULT_TIMEOUT_SECS,
    }
}

/// The report of a command that exited unsuccessfully: its command line, its exit code
/// (-1 when it was ended by a signal) and its standard error, decoded and trimmed.
pub fn command_failure(command: String, code: Option<i32>, stderr: &[u8]) -> (e: Error)
    ensures
        fault(e) == (Fault::CommandFailed {
            command: command@,
            status: match code {
                Some(c) => c,
                None => -1i32,
            },
            stderr: trim(utf8_lossy(stderr@)),
        }),
{
    let text = decode_utf8_lossy(stderr);
    let t = trimmed(chars_of(text.as_str()).as_slice());
    Error::CommandFailed {
        command,
        status: match code {
            Some(c) => c,
            None => -1,
        },
        stderr: string_of(t.as_slice()),
    }
}

/// The next wait between polls of a running command: twice the last one, at most 200 ms.
pub fn next_poll_interval_ms(ms: u64) -> (r: u64)
    requires
        ms <= u64::MAX / 2,
    ensures
        r == if 2 * ms < 200 {
            2 * ms
        } else {
            200
        },
{
    let doubled = ms * 2;
    if doubled < 200 {
        doubled
    } else {
        200
    }
}

} // verus!
