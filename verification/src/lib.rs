//! A small library around printing a greeting to the standard output:
//! a writer over a byte sink with a two-stage error taxonomy (write vs
//! flush), a scanner for one command-line flag, and a human-readable
//! duration formatter.

use vstd::prelude::*;

pub mod err;
pub mod exit_code;
pub mod options;
pub mod stdout;
pub mod time;

use crate::err::{PrintError, PrintErrorKind};
use crate::stdout::StdoutWriter;

verus! {

/// The greeting, as a sequence of bytes (UTF-8 for "Hello, world!").
pub open spec fn hello_world_message() -> Seq<u8> {
    seq![72u8, 101u8, 108u8, 108u8, 111u8, 44u8, 32u8, 119u8, 111u8, 114u8, 108u8, 100u8, 33u8]
}

/// The greeting as owned bytes, ready to hand to a writer.
pub fn hello_world_bytes() -> (bytes: Vec<u8>)
    ensures
        bytes@ == hello_world_message(),
{
    let bytes: Vec<u8> = vec![72u8, 101u8, 108u8, 108u8, 111u8, 44u8, 32u8, 119u8, 111u8, 114u8, 108u8, 100u8, 33u8];
    proof {
        assert(bytes@ =~= hello_world_message());
    }
    bytes
}

/// A utility method for printing the hello-world line through the given
/// writer. On success the emitted bytes are exactly the greeting
/// followed by one newline.
pub fn print_hello_world(writer: &mut StdoutWriter) -> (r: Result<(), PrintError>)
    ensures
        r is Ok <==> stdout::print_ok(old(writer)@),
        r is Ok ==> final(writer)@ == stdout::println_step(old(writer)@, hello_world_message()),
        r is Err && old(writer)@.write_fails ==> final(writer)@ == old(writer)@,
        r is Err && !old(writer)@.write_fails ==> final(writer)@ == stdout::write_step(
            old(writer)@, hello_world_message() + seq![stdout::NEWLINE_BYTE]),
        r matches Err(e) ==> e.spec_kind() == (if old(writer)@.write_fails { PrintErrorKind::Write } else { PrintErrorKind::Flush }),
{
    let bytes = hello_world_bytes();
    writer.println(bytes.as_slice())
}

} // verus!
