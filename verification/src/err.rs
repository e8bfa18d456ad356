//! Error handling while printing to the standard output.

use vstd::prelude::*;

verus! {

/// Contains the kind of operation that was being performed when the error occurred.
#[derive(PartialEq, Eq, Structural, Clone, Copy, Debug)]
pub enum PrintErrorKind {
    /// Could not write to the standard output.
    Write,
    /// Could not flush the standard output buffer.
    Flush,
}

/// `std::io::Error` is the platform's account of an I/O failure. This
/// library stores and hands back such values; it never reads into them.
#[verifier::external_type_specification]
#[verifier::external_body]
pub struct ExIoError(std::io::Error);

impl PrintErrorKind {
    /// The human phrase for the stage that failed, as the program's
    /// error report names it.
    pub fn action_phrase(&self) -> (phrase: &'static str)
        ensures
            *self == PrintErrorKind::Write ==> phrase@ == "writing to the standard output"@,
            *self == PrintErrorKind::Flush ==> phrase@ == "flushing the standard output buffer"@,
    {
        match self {
            PrintErrorKind::Write => "writing to the standard output",
            PrintErrorKind::Flush => "flushing the standard output buffer",
        }
    }
}

/// An error that occurs when printing to the standard output: the
/// underlying platform error together with the stage that failed.
pub struct PrintError {
    error: std::io::Error,
    kind: PrintErrorKind,
}

impl PrintError {
    /// The wrapped platform error.
    pub closed spec fn spec_error(&self) -> std::io::Error {
        self.error
    }

    /// The stage of output that failed.
    pub closed spec fn spec_kind(&self) -> PrintErrorKind {
        self.kind
    }

    /// Get a reference to the wrapped platform error.
    pub fn error(&self) -> (error: &std::io::Error)
        ensures
            *error == self.spec_error(),
    {
        &self.error
    }

    /// Get the kind of error that occurred.
    pub fn kind(&self) -> (kind: &PrintErrorKind)
        ensures
            *kind == self.spec_kind(),
    {
        &self.kind
    }

    /// Consume `self` and return the wrapped platform error.
    pub fn take_error(self) -> (error: std::io::Error)
        ensures
            error == self.spec_error(),
    {
        self.error
    }

    /// Create a new `PrintError`.
    pub fn new(error: std::io::Error, kind: PrintErrorKind) -> (e: Self)
        ensures
            e.spec_error() == error,
            e.spec_kind() == kind,
    {
        Self { error, kind }
    }
}

} // verus!
