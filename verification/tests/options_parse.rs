use hello_world::exit_code;
use hello_world::options::{arg_is_benchmark_flag, parse_from_args, OptionsError};

#[test]
fn empty_argument_list_yields_no_benchmark() {
    let args: Vec<String> = vec![];
    let opts = parse_from_args(&args).ok().unwrap();
    assert!(!opts.is_benchmark());
}

#[test]
fn benchmark_flag_turns_benchmark_on() {
    let args = vec!["--benchmark".to_string()];
    let opts = parse_from_args(&args).ok().unwrap();
    assert!(opts.is_benchmark());
}

#[test]
fn benchmark_flag_matches_case_insensitively() {
    let args = vec!["--BENCHMARK".to_string()];
    assert!(parse_from_args(&args).ok().unwrap().is_benchmark());
    let args = vec!["--BenchMark".to_string()];
    assert!(parse_from_args(&args).ok().unwrap().is_benchmark());
}

#[test]
fn duplicate_benchmark_flag_is_rejected() {
    let args = vec!["--benchmark".to_string(), "--benchmark".to_string()];
    let err = parse_from_args(&args).err().unwrap();
    assert!(matches!(err, OptionsError::DuplicateBenchmark));
    assert_eq!(err.message(), "flag `--benchmark` supplied twice");
    assert_eq!(exit_code::INVALID_ARGUMENTS_ERROR, 1);
}

#[test]
fn unknown_argument_is_rejected() {
    let args = vec!["--foo".to_string()];
    let err = parse_from_args(&args).err().unwrap();
    assert_eq!(err.message(), "unexpected argument: --foo");
    assert!(matches!(err, OptionsError::UnexpectedArgument(t) if t == "--foo"));
}

#[test]
fn first_offending_token_decides_the_report() {
    let args = vec!["--benchmark".to_string(), "--foo".to_string()];
    let err = parse_from_args(&args).err().unwrap();
    assert_eq!(err.message(), "unexpected argument: --foo");
    let args = vec!["--foo".to_string(), "--benchmark".to_string()];
    let err = parse_from_args(&args).err().unwrap();
    assert_eq!(err.message(), "unexpected argument: --foo");
}

#[test]
fn default_options_have_benchmark_off() {
    let opts = hello_world::options::Options::default();
    assert!(!opts.is_benchmark());
}

#[test]
fn flag_helper_matches_exactly_one_token() {
    assert!(arg_is_benchmark_flag("--benchmark"));
    assert!(arg_is_benchmark_flag("--BENCHMARK"));
    assert!(arg_is_benchmark_flag("--Benchmark"));
    assert!(!arg_is_benchmark_flag("--benchmarks"));
    assert!(!arg_is_benchmark_flag("benchmark"));
    assert!(!arg_is_benchmark_flag("--benchmar"));
    assert!(!arg_is_benchmark_flag(""));
}
