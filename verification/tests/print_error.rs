use std::io;

use hello_world::err::{PrintError, PrintErrorKind};

#[test]
fn print_error_exposes_kind_and_error() {
    let inner = io::Error::new(io::ErrorKind::Other, "boom");
    let err = PrintError::new(inner, PrintErrorKind::Write);
    assert_eq!(*err.kind(), PrintErrorKind::Write);
    assert_eq!(err.error().to_string(), "boom");
}

#[test]
fn take_error_yields_the_wrapped_error() {
    let inner = io::Error::new(io::ErrorKind::Other, "device gone");
    let err = PrintError::new(inner, PrintErrorKind::Flush);
    assert_eq!(*err.kind(), PrintErrorKind::Flush);
    let taken = err.take_error();
    assert_eq!(taken.to_string(), "device gone");
}

#[test]
fn action_phrases_name_the_stage() {
    assert_eq!(
        PrintErrorKind::Write.action_phrase(),
        "writing to the standard output"
    );
    assert_eq!(
        PrintErrorKind::Flush.action_phrase(),
        "flushing the standard output buffer"
    );
}
