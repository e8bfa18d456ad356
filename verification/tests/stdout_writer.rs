use hello_world::err::PrintErrorKind;
use hello_world::exit_code::{self, exit_code_for};
use hello_world::print_hello_world;
use hello_world::stdout::{ByteSink, StdoutWriter};

#[test]
fn print_writes_and_flushes() {
    let mut w = StdoutWriter::new(ByteSink::new());
    assert!(w.print(b"abc").is_ok());
    assert_eq!(w.sink().flushed_bytes().as_slice(), b"abc");
    assert!(w.sink().buffered_bytes().is_empty());
}

#[test]
fn print_equals_write_all_then_flush() {
    let mut a = StdoutWriter::new(ByteSink::new());
    assert!(a.write_all(b"hello").is_ok());
    assert!(a.flush().is_ok());
    let mut b = StdoutWriter::new(ByteSink::new());
    assert!(b.print(b"hello").is_ok());
    assert_eq!(a.sink().flushed_bytes(), b.sink().flushed_bytes());
    assert_eq!(a.sink().buffered_bytes(), b.sink().buffered_bytes());
}

#[test]
fn println_appends_exactly_one_newline() {
    let mut w = StdoutWriter::new(ByteSink::new());
    assert!(w.println(b"abc").is_ok());
    assert_eq!(w.sink().flushed_bytes().as_slice(), b"abc\n");
}

#[test]
fn write_all_buffers_until_flush() {
    let mut w = StdoutWriter::new(ByteSink::new());
    assert!(w.write_all(b"abc").is_ok());
    assert_eq!(w.sink().buffered_bytes().as_slice(), b"abc");
    assert!(w.sink().flushed_bytes().is_empty());
    assert!(w.flush().is_ok());
    assert!(w.sink().buffered_bytes().is_empty());
    assert_eq!(w.sink().flushed_bytes().as_slice(), b"abc");
}

#[test]
fn write_failure_is_tagged_write() {
    let mut w = StdoutWriter::new(ByteSink::failing_write());
    let err = w.print(b"abc").err().unwrap();
    assert_eq!(*err.kind(), PrintErrorKind::Write);
    assert!(w.sink().flushed_bytes().is_empty());
}

#[test]
fn flush_failure_is_tagged_flush() {
    let mut w = StdoutWriter::new(ByteSink::failing_flush());
    let err = w.print(b"abc").err().unwrap();
    assert_eq!(*err.kind(), PrintErrorKind::Flush);
    assert_eq!(w.sink().buffered_bytes().as_slice(), b"abc");
    assert!(w.sink().flushed_bytes().is_empty());
}

#[test]
fn free_helpers_drive_the_given_writer() {
    let mut w = StdoutWriter::default();
    assert!(hello_world::stdout::print(&mut w, b"a").is_ok());
    assert!(hello_world::stdout::println(&mut w, b"b").is_ok());
    assert_eq!(w.sink().flushed_bytes().as_slice(), b"ab\n");
}

#[test]
fn hello_world_emits_exact_line_and_okay_code() {
    let mut w = StdoutWriter::new(ByteSink::new());
    let outcome = print_hello_world(&mut w);
    assert!(outcome.is_ok());
    assert_eq!(exit_code_for(&outcome), exit_code::OKAY);
    assert_eq!(exit_code_for(&outcome), 0);
    assert_eq!(w.sink().flushed_bytes().as_slice(), b"Hello, world!\n");
}

#[test]
fn simulated_write_failure_reports_writing_phrase() {
    let mut w = StdoutWriter::new(ByteSink::failing_write());
    let outcome = print_hello_world(&mut w);
    assert_eq!(exit_code_for(&outcome), exit_code::OPERATION_ERROR);
    assert_eq!(exit_code_for(&outcome), -1);
    let err = outcome.err().unwrap();
    let report = format!(
        "an error occurred while {}: {}",
        err.kind().action_phrase(),
        err.error()
    );
    assert!(report.contains("writing to the standard output"));
}

#[test]
fn simulated_flush_failure_reports_flushing_phrase() {
    let mut w = StdoutWriter::new(ByteSink::failing_flush());
    let outcome = print_hello_world(&mut w);
    assert_eq!(exit_code_for(&outcome), exit_code::OPERATION_ERROR);
    let err = outcome.err().unwrap();
    assert_eq!(*err.kind(), PrintErrorKind::Flush);
    assert_eq!(err.kind().action_phrase(), "flushing the standard output buffer");
}
