use vstd::prelude::*;
use vstd::string::StrSliceExecFns;

verus! {

/// Settings of one run.
#[derive(Clone, Copy, Debug, PartialEq, Eq, Structural)]
pub struct Config {
    /// Number of pipes.
    pub pipe_count: u64,
    /// Milliseconds to wait between frames.
    pub update_speed: u64,
    /// Ticks after which the simulation starts over.
    pub reset_cycles: u64,
    /// Whether the header shows the cycle count.
    pub show_cycles: bool,
    /// Whether to print the usage text instead of running.
    pub help: bool,
}

/// Why the command line was refused.
#[derive(Clone, Copy, Debug, PartialEq, Eq, Structural)]
pub enum ArgError {
    /// A flag that takes a number was followed by something else.
    NotANumber,
}

/// Which setting, if any, the next argument gives a value for.
#[derive(Clone, Copy, Debug, PartialEq, Eq, Structural)]
pub enum Pending {
    Nothing,
    Pipes,
    Speed,
    Reset,
}

pub open spec fn spec_default_config() -> Config {
    Config { pipe_count: 4, update_speed: 10, reset_cycles: 1000, show_cycles: false, help: false }
}

pub open spec fn is_digit(c: char) -> bool {
    '0' <= c && c <= '9'
}

/// The value of a string of decimal digits.
pub open spec fn digits_value(s: Seq<char>) -> nat
    decreases s.len(),
{
    if s.len() == 0 {
        0
    } else {
        digits_value(s.drop_last()) * 10 + ((s.last() as u32) - ('0' as u32)) as nat
    }
}

/// An unsigned integer as `u64` reads it: an optional `+`, then one or more
/// ASCII digits, with a value that fits.
pub open spec fn spec_parse_u64(s: Seq<char>) -> Option<u64> {
    let t = if s.len() > 0 && s[0] == '+' {
        s.drop_first()
    } else {
        s
    };
    if t.len() > 0 && (forall|i: int| 0 <= i < t.len() ==> is_digit(#[trigger] t[i]))
        && digits_value(t) <= u64::MAX {
        Some(digits_value(t) as u64)
    } else {
        None
    }
}

/// Relies on `u64`'s `FromStr`: an optional `+` followed by ASCII digits,
/// refused when empty, when any other character occurs, or on overflow.
#[verifier::external_body]
fn parse_number(s: &str) -> (r: Option<u64>)
    ensures
        r == spec_parse_u64(s@),
{
    s.parse::<u64>().ok()
}

/// The settings after a flag: `-p`, `-s` and `-r` wait for a value, `-c`
/// turns on the cycle counter, `-h` and `--help` ask for the usage text, and
/// anything else is ignored.
pub open spec fn spec_flag(c: Config, arg: Seq<char>) -> (Config, Pending) {
    if arg == "-p"@ {
        (c, Pending::Pipes)
    } else if arg == "-s"@ {
        (c, Pending::Speed)
    } else if arg == "-r"@ {
        (c, Pending::Reset)
    } else if arg == "-c"@ {
        (Config { show_cycles: true, ..c }, Pending::Nothing)
    } else if arg == "-h"@ || arg == "--help"@ {
        (Config { help: true, ..c }, Pending::Nothing)
    } else {
        (c, Pending::Nothing)
    }
}

/// One argument: first, if a value is pending, the argument is that value;
/// then, whether or not it was, it is also read as a flag.
pub open spec fn spec_take(c: Config, p: Pending, arg: Seq<char>) -> Result<
    (Config, Pending),
    ArgError,
> {
    let valued = match p {
        Pending::Nothing => Some(c),
        Pending::Pipes => match spec_parse_u64(arg) {
            Some(v) => Some(Config { pipe_count: v, ..c }),
            None => None,
        },
        Pending::Speed => match spec_parse_u64(arg) {
            Some(v) => Some(Config { update_speed: v, ..c }),
            None => None,
        },
        Pending::Reset => match spec_parse_u64(arg) {
            Some(v) => Some(Config { reset_cycles: v, ..c }),
            None => None,
        },
    };
    match valued {
        Some(c1) => Ok(spec_flag(c1, arg)),
        None => Err(ArgError::NotANumber),
    }
}

/// The state after the first `n` arguments, starting from the defaults.
pub open spec fn spec_scan(args: Seq<Seq<char>>, n: nat) -> Result<(Config, Pending), ArgError>
    decreases n,
{
    if n == 0 {
        Ok((spec_default_config(), Pending::Nothing))
    } else {
        match spec_scan(args, (n - 1) as nat) {
            Ok((c, p)) => spec_take(c, p, args[n - 1]),
            Err(e) => Err(e),
        }
    }
}

pub open spec fn spec_parse_args(args: Seq<Seq<char>>) -> Result<Config, ArgError> {
    match spec_scan(args, args.len()) {
        Ok((c, _)) => Ok(c),
        Err(e) => Err(e),
    }
}

pub open spec fn views(args: Seq<String>) -> Seq<Seq<char>> {
    args.map_values(|a: String| a@)
}

/// Whether two strings hold the same characters.
fn same_text(a: &str, b: &str) -> (r: bool)
    ensures
        r == (a@ == b@),
{
    let n = a.unicode_len();
    let m = b.unicode_len();
    if n != m {
        return false;
    }
    let mut i: usize = 0;
    while i < n
        invariant
            i <= n,
            n == a@.len(),
            m == b@.len(),
            n == m,
            forall|j: int| 0 <= j < i ==> a@[j] == b@[j],
        decreases n - i,
    {
        if a.get_char(i) != b.get_char(i) {
            return false;
        }
        i = i + 1;
    }
    assert(a@ =~= b@);
    true
}

fn flag(c: Config, arg: &str) -> (r: (Config, Pending))
    ensures
        r == spec_flag(c, arg@),
{
    if same_text(arg, "-p") {
        (c, Pending::Pipes)
    } else if same_text(arg, "-s") {
        (c, Pending::Speed)
    } else if same_text(arg, "-r") {
        (c, Pending::Reset)
    } else if same_text(arg, "-c") {
        (Config { show_cycles: true, ..c }, Pending::Nothing)
    } else if same_text(arg, "-h") || same_text(arg, "--help") {
        (Config { help: true, ..c }, Pending::Nothing)
    } else {
        (c, Pending::Nothing)
    }
}

/// Reads one argument in the state `(c, p)`.
pub fn take_arg(c: Config, p: Pending, arg: &str) -> (r: Result<(Config, Pending), ArgError>)
    ensures
        r == spec_take(c, p, arg@),
{
    let valued = match p {
        Pending::Nothing => Some(c),
        Pending::Pipes => match parse_number(arg) {
            Some(v) => Some(Config { pipe_count: v, ..c }),
            None => None,
        },
        Pending::Speed => match parse_number(arg) {
            Some(v) => Some(Config { update_speed: v, ..c }),
            None => None,
        },
        Pending::Reset => match parse_number(arg) {
            Some(v) => Some(Config { reset_cycles: v, ..c }),
            None => None,
        },
    };
    match valued {
        Some(c1) => Ok(flag(c1, arg)),
        None => Err(ArgError::NotANumber),
    }
}

/// The settings given by a command line, read left to right from the
/// defaults (4 pipes, 10 ms, 1000 cycles, no counter, no help). Fails exactly
/// when a flag that takes a number is followed by something that is not one.
pub fn parse_args(args: &Vec<String>) -> (r: Result<Config, ArgError>)
    ensures
        r == spec_parse_args(views(args@)),
{
    let ghost vs = views(args@);
    let mut c = Config {
        pipe_count: 4,
        update_speed: 10,
        reset_cycles: 1000,
        show_cycles: false,
        help: false,
    };
    let mut p = Pending::Nothing;
    let mut i: usize = 0;
    while i < args.len()
        invariant
            i <= args@.len(),
            vs == views(args@),
            vs.len() == args@.len(),
            spec_scan(vs, i as nat) == Ok::<(Config, Pending), ArgError>((c, p)),
        decreases args@.len() - i,
    {
        assert(vs[i as int] == args@[i as int]@);
        match take_arg(c, p, args[i].as_str()) {
            Ok((c1, p1)) => {
                c = c1;
                p = p1;
            },
            Err(e) => {
                proof {
                    lemma_scan_stays_failed(vs, (i + 1) as nat, vs.len());
                }
                return Err(e);
            },
        }
        i = i + 1;
    }
    Ok(c)
}

proof fn lemma_scan_stays_failed(args: Seq<Seq<char>>, m: nat, n: nat)
    requires
        m <= n,
        spec_scan(args, m) is Err,
    ensures
        spec_scan(args, n) == spec_scan(args, m),
    decreases n - m,
{
    if m < n {
        lemma_scan_stays_failed(args, m, (n - 1) as nat);
    }
}

} // verus!
