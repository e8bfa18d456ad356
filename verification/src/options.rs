//! Parsing the command line arguments.
//!
//! The program recognizes exactly one flag, `--benchmark`, with its
//! letters in either case, and it may be supplied at most once. The
//! scan reports the first offending token; nothing after it matters.

use vstd::prelude::*;

verus! {

/// Whether the characters spell `--benchmark`, each letter in either
/// case.
pub open spec fn is_benchmark_flag(s: Seq<char>) -> bool {
    s.len() == 11 && s[0] == '-' && s[1] == '-' && (s[2] == 'b' || s[2] == 'B') && (s[3] == 'e'
        || s[3] == 'E') && (s[4] == 'n' || s[4] == 'N') && (s[5] == 'c' || s[5] == 'C') && (s[6]
        == 'h' || s[6] == 'H') && (s[7] == 'm' || s[7] == 'M') && (s[8] == 'a' || s[8] == 'A') && (
    s[9] == 'r' || s[9] == 'R') && (s[10] == 'k' || s[10] == 'K')
}

/// Does the argument spell `--benchmark`, letters compared in either
/// case?
pub fn arg_is_benchmark_flag(arg: &str) -> (r: bool)
    ensures
        r == is_benchmark_flag(arg@),
{
    if arg.unicode_len() != 11 {
        return false;
    }
    let c0 = arg.get_char(0);
    let c1 = arg.get_char(1);
    let c2 = arg.get_char(2);
    let c3 = arg.get_char(3);
    let c4 = arg.get_char(4);
    let c5 = arg.get_char(5);
    let c6 = arg.get_char(6);
    let c7 = arg.get_char(7);
    let c8 = arg.get_char(8);
    let c9 = arg.get_char(9);
    let c10 = arg.get_char(10);
    c0 == '-' && c1 == '-' && (c2 == 'b' || c2 == 'B') && (c3 == 'e' || c3 == 'E') && (c4 == 'n'
        || c4 == 'N') && (c5 == 'c' || c5 == 'C') && (c6 == 'h' || c6 == 'H') && (c7 == 'm' || c7
        == 'M') && (c8 == 'a' || c8 == 'A') && (c9 == 'r' || c9 == 'R') && (c10 == 'k' || c10
        == 'K')
}

/// An option represented by occurrence.
/// This option cannot appear more than once.
struct BooleanOption {
    value: bool,
    is_provided: bool,
}

impl BooleanOption {
    fn new(value: bool) -> (o: Self)
        ensures
            o.value == value,
            !o.is_provided,
    {
        Self { value, is_provided: false }
    }
}

/// A struct containing program execution options.
pub struct Options {
    do_benchmark: BooleanOption,
}

impl Options {
    /// Whether benchmark mode was requested.
    pub closed spec fn spec_benchmark(&self) -> bool {
        self.do_benchmark.value
    }

    /// Whether benchmark mode was requested; default `false`.
    pub fn is_benchmark(&self) -> (r: bool)
        ensures
            r == self.spec_benchmark(),
    {
        self.do_benchmark.value
    }
}

impl Default for Options {
    /// Create a new `Options` with the default values.
    fn default() -> (o: Self)
        ensures
            !o.spec_benchmark(),
    {
        Self { do_benchmark: BooleanOption::new(false) }
    }
}

/// Why an argument list was rejected. Either way the program terminates
/// with the invalid-arguments exit code.
pub enum OptionsError {
    /// The benchmark flag was supplied more than once.
    DuplicateBenchmark,
    /// A token that is not a recognized flag, carried for the report.
    UnexpectedArgument(String),
}

impl OptionsError {
    /// The line the program reports for this rejection.
    pub fn message(&self) -> (msg: String)
        ensures
            self matches OptionsError::DuplicateBenchmark ==> msg@ == "flag `--benchmark` supplied twice"@,
            self matches OptionsError::UnexpectedArgument(t) ==> msg@ == "unexpected argument: "@ + t@,
    {
        match self {
            OptionsError::DuplicateBenchmark => String::from_str("flag `--benchmark` supplied twice"),
            OptionsError::UnexpectedArgument(token) => String::from_str("unexpected argument: ").concat(token.as_str()),
        }
    }
}

/// Parses the command line arguments (the program name excluded) into
/// an [`Options`].
///
/// The scan walks the list in order. A first `--benchmark` turns
/// benchmark mode on; a second one is a fatal duplicate; any other
/// token is a fatal unexpected argument. The first offending token
/// decides the error, and the error carries what the report needs.
pub fn parse_from_args(args: &Vec<String>) -> (r: Result<Options, OptionsError>)
    ensures
        r is Ok <==> args@.len() <= 1 && (forall|i: int|
            0 <= i < args@.len() ==> is_benchmark_flag(args@[i]@)),
        r matches Ok(o) ==> (o.spec_benchmark() <==> args@.len() == 1),
        args@.len() >= 1 && !is_benchmark_flag(args@[0]@) ==> (r matches Err(e) && e matches
            OptionsError::UnexpectedArgument(t) && t@ == args@[0]@),
        args@.len() >= 2 && is_benchmark_flag(args@[0]@) && is_benchmark_flag(args@[1]@)
            ==> (r matches Err(e) && e matches OptionsError::DuplicateBenchmark),
        args@.len() >= 2 && is_benchmark_flag(args@[0]@) && !is_benchmark_flag(args@[1]@)
            ==> (r matches Err(e) && e matches OptionsError::UnexpectedArgument(t) && t@ == args@[1]@),
{
    let mut options = Options { do_benchmark: BooleanOption::new(false) };
    let mut idx: usize = 0;
    while idx < args.len()
        invariant
            idx <= args@.len(),
            idx <= 1,
            forall|i: int| 0 <= i < idx ==> is_benchmark_flag(args@[i]@),
            options.spec_benchmark() <==> idx == 1,
            options.do_benchmark.is_provided <==> idx == 1,
        decreases args@.len() - idx,
    {
        let flag = &args[idx];
        if arg_is_benchmark_flag(flag.as_str()) {
            if options.do_benchmark.is_provided {
                return Err(OptionsError::DuplicateBenchmark);
            }
            options.do_benchmark.value = true;
            options.do_benchmark.is_provided = true;
        } else {
            return Err(OptionsError::UnexpectedArgument(flag.clone()));
        }
        idx = idx + 1;
    }
    Ok(options)
}

} // verus!
