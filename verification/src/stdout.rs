//! Writing to the standard output.
//!
//! The process's standard output is, to this library, a sink accepting
//! bytes and supporting flush. [`ByteSink`] is that abstraction as a
//! value: bytes accepted by a write sit in a buffer until a flush forces
//! them out to the device. A sink can also be built so that one of the
//! two stages fails, which drives the error paths without a real device.
//! [`StdoutWriter`] wraps a sink and classifies each failure by the
//! stage it came from.

use vstd::prelude::*;

use crate::err::{PrintError, PrintErrorKind};

verus! {

/// The newline byte that `println` appends to its payload.
pub const NEWLINE_BYTE: u8 = 10;

/// The mathematical state of a byte sink: what is still buffered, what
/// was forced out to the device, and which stages fail.
#[verifier::ext_equal]
pub ghost struct SinkModel {
    /// Bytes accepted by a write but not yet flushed.
    pub buffered: Seq<u8>,
    /// Bytes forced out to the underlying device, in order.
    pub flushed: Seq<u8>,
    /// Whether a write against this sink fails.
    pub write_fails: bool,
    /// Whether a flush against this sink fails.
    pub flush_fails: bool,
}

/// Whether a write against sink state `m` succeeds.
pub open spec fn write_ok(m: SinkModel) -> bool {
    !m.write_fails
}

/// Sink state after a successful write of `bytes` against state `m`:
/// the bytes join the buffer.
pub open spec fn write_step(m: SinkModel, bytes: Seq<u8>) -> SinkModel {
    SinkModel { buffered: m.buffered + bytes, flushed: m.flushed, write_fails: m.write_fails, flush_fails: m.flush_fails }
}

/// Whether a flush against sink state `m` succeeds.
pub open spec fn flush_ok(m: SinkModel) -> bool {
    !m.flush_fails
}

/// Sink state after a successful flush against state `m`: the buffer is
/// forced out to the device.
pub open spec fn flush_step(m: SinkModel) -> SinkModel {
    SinkModel { buffered: Seq::empty(), flushed: m.flushed + m.buffered, write_fails: m.write_fails, flush_fails: m.flush_fails }
}

/// Whether a print (a write, then a flush) against sink state `m`
/// succeeds.
pub open spec fn print_ok(m: SinkModel) -> bool {
    !m.write_fails && !m.flush_fails
}

/// Sink state after a successful print of `bytes` against state `m`:
/// everything previously buffered, then `bytes`, reaches the device.
pub open spec fn print_step(m: SinkModel, bytes: Seq<u8>) -> SinkModel {
    SinkModel { buffered: Seq::empty(), flushed: m.flushed + m.buffered + bytes, write_fails: m.write_fails, flush_fails: m.flush_fails }
}

/// Sink state after a successful println of `bytes` against state `m`:
/// everything previously buffered, then `bytes`, then one newline byte,
/// reaches the device.
pub open spec fn println_step(m: SinkModel, bytes: Seq<u8>) -> SinkModel {
    SinkModel { buffered: Seq::empty(), flushed: m.flushed + m.buffered + bytes + seq![NEWLINE_BYTE], write_fails: m.write_fails, flush_fails: m.flush_fails }
}

/// Law: a write of `bytes` and then a flush, each succeeding, is
/// observably equivalent to one successful print of `bytes`: the
/// combination succeeds under exactly the same condition, and it leaves
/// the sink in exactly the same state.
pub proof fn lemma_print_is_write_then_flush(m: SinkModel, bytes: Seq<u8>)
    ensures
        print_ok(m) <==> (write_ok(m) && flush_ok(write_step(m, bytes))),
        print_step(m, bytes) == flush_step(write_step(m, bytes)),
{
    assert((m.flushed + m.buffered) + bytes =~= m.flushed + (m.buffered + bytes));
    assert(print_step(m, bytes) =~= flush_step(write_step(m, bytes)));
}

/// Relies on `std::io::Error::new` to build an error value carrying a
/// fixed message; a failing sink returns it where a real stream would
/// report a platform error.
#[verifier::external_body]
fn simulated_failure() -> std::io::Error {
    std::io::Error::new(std::io::ErrorKind::Other, "simulated sink failure")
}

/// A sink accepting bytes and supporting flush: the library's stand-in
/// for the process's standard output. A sink built by [`ByteSink::new`]
/// accepts everything; [`ByteSink::failing_write`] and
/// [`ByteSink::failing_flush`] build sinks whose corresponding stage
/// always fails.
pub struct ByteSink {
    buffered: Vec<u8>,
    flushed: Vec<u8>,
    write_fails: bool,
    flush_fails: bool,
}

impl View for ByteSink {
    type V = SinkModel;

    closed spec fn view(&self) -> SinkModel {
        SinkModel {
            buffered: self.buffered@,
            flushed: self.flushed@,
            write_fails: self.write_fails,
            flush_fails: self.flush_fails,
        }
    }
}

impl ByteSink {
    /// A healthy, empty sink: both stages succeed.
    pub fn new() -> (sink: Self)
        ensures
            sink@ == (SinkModel { buffered: Seq::empty(), flushed: Seq::empty(), write_fails: false, flush_fails: false }),
    {
        Self { buffered: Vec::new(), flushed: Vec::new(), write_fails: false, flush_fails: false }
    }

    /// An empty sink whose write stage always fails.
    pub fn failing_write() -> (sink: Self)
        ensures
            sink@ == (SinkModel { buffered: Seq::empty(), flushed: Seq::empty(), write_fails: true, flush_fails: false }),
    {
        Self { buffered: Vec::new(), flushed: Vec::new(), write_fails: true, flush_fails: false }
    }

    /// An empty sink whose flush stage always fails.
    pub fn failing_flush() -> (sink: Self)
        ensures
            sink@ == (SinkModel { buffered: Seq::empty(), flushed: Seq::empty(), write_fails: false, flush_fails: true }),
    {
        Self { buffered: Vec::new(), flushed: Vec::new(), write_fails: false, flush_fails: true }
    }

    /// Accept `bytes` into the buffer, or fail as the underlying stream
    /// would. A failing write leaves the sink unchanged.
    pub fn write_all(&mut self, bytes: &[u8]) -> (r: Result<(), std::io::Error>)
        ensures
            r is Ok <==> write_ok(old(self)@),
            r is Ok ==> final(self)@ == write_step(old(self)@, bytes@),
            r is Err ==> final(self)@ == old(self)@,
    {
        if self.write_fails {
            return Err(simulated_failure());
        }
        let mut i: usize = 0;
        while i < bytes.len()
            invariant
                i <= bytes@.len(),
                self.buffered@ == old(self).buffered@ + bytes@.take(i as int),
                self.flushed@ == old(self).flushed@,
                self.write_fails == old(self).write_fails,
                self.flush_fails == old(self).flush_fails,
            decreases bytes@.len() - i,
        {
            self.buffered.push(bytes[i]);
            proof {
                assert(old(self).buffered@ + bytes@.take(i as int) + seq![bytes@[i as int]]
                    =~= old(self).buffered@ + bytes@.take(i as int + 1));
            }
            i = i + 1;
        }
        proof {
            assert(bytes@.take(bytes@.len() as int) =~= bytes@);
            assert(self@ =~= write_step(old(self)@, bytes@));
        }
        Ok(())
    }

    /// Force the buffer out to the device, or fail as the underlying
    /// stream would. A failing flush leaves the sink unchanged.
    pub fn flush(&mut self) -> (r: Result<(), std::io::Error>)
        ensures
            r is Ok <==> flush_ok(old(self)@),
            r is Ok ==> final(self)@ == flush_step(old(self)@),
            r is Err ==> final(self)@ == old(self)@,
    {
        if self.flush_fails {
            return Err(simulated_failure());
        }
        self.flushed.append(&mut self.buffered);
        proof {
            assert(self@ =~= flush_step(old(self)@));
        }
        Ok(())
    }

    /// The bytes that reached the device so far, in order.
    pub fn flushed_bytes(&self) -> (bytes: &Vec<u8>)
        ensures
            bytes@ == self@.flushed,
    {
        &self.flushed
    }

    /// The bytes accepted but not yet forced out to the device.
    pub fn buffered_bytes(&self) -> (bytes: &Vec<u8>)
        ensures
            bytes@ == self@.buffered,
    {
        &self.buffered
    }
}

/// A struct that provides methods for interacting with the standard
/// output, here in the shape of the byte sink it drives.
pub struct StdoutWriter {
    stdout: ByteSink,
}

impl View for StdoutWriter {
    type V = SinkModel;

    closed spec fn view(&self) -> SinkModel {
        self.stdout@
    }
}

impl StdoutWriter {
    /// Create a new `StdoutWriter` over the given sink.
    pub fn new(stdout: ByteSink) -> (w: Self)
        ensures
            w@ == stdout@,
    {
        Self { stdout }
    }

    /// Write all the given bytes to the sink.
    /// If an error occurs, return a new [`PrintError`] with the error
    /// kind [`PrintErrorKind::Write`].
    pub fn write_all(&mut self, bytes: &[u8]) -> (r: Result<(), PrintError>)
        ensures
            r is Ok <==> write_ok(old(self)@),
            r is Ok ==> final(self)@ == write_step(old(self)@, bytes@),
            r matches Err(e) ==> final(self)@ == old(self)@ && e.spec_kind() == PrintErrorKind::Write,
    {
        match self.stdout.write_all(bytes) {
            Ok(()) => Ok(()),
            Err(err) => Err(PrintError::new(err, PrintErrorKind::Write)),
        }
    }

    /// Flush the buffer of the inner sink.
    /// If an error occurs, return a new [`PrintError`] with the error
    /// kind [`PrintErrorKind::Flush`].
    pub fn flush(&mut self) -> (r: Result<(), PrintError>)
        ensures
            r is Ok <==> flush_ok(old(self)@),
            r is Ok ==> final(self)@ == flush_step(old(self)@),
            r matches Err(e) ==> final(self)@ == old(self)@ && e.spec_kind() == PrintErrorKind::Flush,
    {
        match self.stdout.flush() {
            Ok(()) => Ok(()),
            Err(err) => Err(PrintError::new(err, PrintErrorKind::Flush)),
        }
    }

    /// Write and flush the given bytes: `write_all`, then `flush`. A
    /// write failure short-circuits, so the flush is not attempted and
    /// the error kind tells which stage failed.
    pub fn print(&mut self, bytes: &[u8]) -> (r: Result<(), PrintError>)
        ensures
            r is Ok <==> print_ok(old(self)@),
            r is Ok ==> final(self)@ == print_step(old(self)@, bytes@),
            r is Err && old(self)@.write_fails ==> final(self)@ == old(self)@,
            r is Err && !old(self)@.write_fails ==> final(self)@ == write_step(old(self)@, bytes@),
            r matches Err(e) ==> e.spec_kind() == (if old(self)@.write_fails { PrintErrorKind::Write } else { PrintErrorKind::Flush }),
    {
        let res = self.write_all(bytes);
        match res {
            Ok(()) => {
                let flushed = self.flush();
                proof {
                    lemma_print_is_write_then_flush(old(self)@, bytes@);
                }
                flushed
            },
            Err(err) => Err(err),
        }
    }

    /// Print the given bytes followed by the newline byte: `write_all`
    /// of the payload, then a print of the newline. On success the
    /// emitted bytes are exactly the payload followed by one newline.
    pub fn println(&mut self, bytes: &[u8]) -> (r: Result<(), PrintError>)
        ensures
            r is Ok <==> print_ok(old(self)@),
            r is Ok ==> final(self)@ == println_step(old(self)@, bytes@),
            r is Err && old(self)@.write_fails ==> final(self)@ == old(self)@,
            r is Err && !old(self)@.write_fails ==> final(self)@ == write_step(old(self)@, bytes@ + seq![NEWLINE_BYTE]),
            r matches Err(e) ==> e.spec_kind() == (if old(self)@.write_fails { PrintErrorKind::Write } else { PrintErrorKind::Flush }),
    {
        let res = self.write_all(bytes);
        match res {
            Ok(()) => {
                let newline: Vec<u8> = vec![NEWLINE_BYTE];
                let printed = self.print(newline.as_slice());
                proof {
                    let w = write_step(old(self)@, bytes@);
                    assert(print_step(w, newline@) =~= println_step(old(self)@, bytes@));
                    assert(write_step(w, newline@) =~= write_step(old(self)@, bytes@ + seq![NEWLINE_BYTE]));
                }
                printed
            },
            Err(err) => Err(err),
        }
    }

    /// Read access to the sink this writer drives.
    pub fn sink(&self) -> (sink: &ByteSink)
        ensures
            sink@ == self@,
    {
        &self.stdout
    }
}

impl Default for StdoutWriter {
    /// Create a new `StdoutWriter` over a healthy, empty sink.
    fn default() -> (w: Self)
        ensures
            w@ == (SinkModel { buffered: Seq::empty(), flushed: Seq::empty(), write_fails: false, flush_fails: false }),
    {
        Self::new(ByteSink::new())
    }
}

/// A utility method for printing the given bytes through the given
/// writer: `write_all`, then `flush`.
pub fn print(writer: &mut StdoutWriter, bytes: &[u8]) -> (r: Result<(), PrintError>)
    ensures
        r is Ok <==> print_ok(old(writer)@),
        r is Ok ==> final(writer)@ == print_step(old(writer)@, bytes@),
        r is Err && old(writer)@.write_fails ==> final(writer)@ == old(writer)@,
        r is Err && !old(writer)@.write_fails ==> final(writer)@ == write_step(old(writer)@, bytes@),
        r matches Err(e) ==> e.spec_kind() == (if old(writer)@.write_fails { PrintErrorKind::Write } else { PrintErrorKind::Flush }),
{
    writer.print(bytes)
}

/// A utility method for printing the given bytes, followed by the
/// newline byte, through the given writer.
pub fn println(writer: &mut StdoutWriter, bytes: &[u8]) -> (r: Result<(), PrintError>)
    ensures
        r is Ok <==> print_ok(old(writer)@),
        r is Ok ==> final(writer)@ == println_step(old(writer)@, bytes@),
        r is Err && old(writer)@.write_fails ==> final(writer)@ == old(writer)@,
        r is Err && !old(writer)@.write_fails ==> final(writer)@ == write_step(old(writer)@, bytes@ + seq![NEWLINE_BYTE]),
        r matches Err(e) ==> e.spec_kind() == (if old(writer)@.write_fails { PrintErrorKind::Write } else { PrintErrorKind::Flush }),
{
    writer.println(bytes)
}

} // verus!
