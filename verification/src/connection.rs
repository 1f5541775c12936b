//! The transport capability the protocol engine needs: blocking reads and
//! writes of raw bytes over an ordered, reliable stream.

use vstd::prelude::*;

use crate::error::Error;

verus! {

/// An ordered, reliable byte transport — a serial port, a pipe, a socket.
///
/// The two spec functions model the stream: `to_read` is the sequence of
/// bytes the transport still has to yield, `written` the sequence it has
/// accepted so far. Neither method promises success: a transport may fail
/// at any moment, and every failure surfaces as [`Error::IoError`].
pub trait Connection: Sized {
    /// The bytes future reads will yield, in order. An implementation
    /// outside the verified world may keep the default, about which the
    /// contracts below then promise nothing useful.
    open spec fn to_read(&self) -> Seq<u8> {
        Seq::empty()
    }

    /// The bytes every successful write has carried, in order.
    open spec fn written(&self) -> Seq<u8> {
        Seq::empty()
    }

    /// Blocks until exactly `n` bytes have been read, and returns them.
    fn read_exact(&mut self, n: usize) -> (r: Result<Vec<u8>, Error>)
        ensures
            final(self).written() == old(self).written(),
            r is Ok ==> n as int <= old(self).to_read().len()
                && r->Ok_0@ == old(self).to_read().take(n as int)
                && r->Ok_0@.len() == n
                && final(self).to_read() == old(self).to_read().skip(n as int),
            r is Err ==> r->Err_0 == Error::IoError
                && final(self).to_read().len() <= old(self).to_read().len();

    /// Blocks until the whole buffer has been written.
    fn write_all(&mut self, buf: &[u8]) -> (r: Result<(), Error>)
        ensures
            final(self).to_read() == old(self).to_read(),
            r is Ok ==> final(self).written() == old(self).written() + buf@,
            r is Err ==> r->Err_0 == Error::IoError
                && final(self).written() == old(self).written();
}

/// An in-memory transport: reads come from a fixed script, writes are
/// recorded. It stands in for a device in tests and never fails a write;
/// a read past the end of the script fails like a closed port.
pub struct ScriptedConnection {
    input: Vec<u8>,
    output: Vec<u8>,
}

impl ScriptedConnection {
    /// A transport that will yield exactly `input` and record every write.
    pub fn new(input: Vec<u8>) -> (r: ScriptedConnection)
        ensures
            r.to_read() == input@,
            r.written() == Seq::<u8>::empty(),
    {
        ScriptedConnection { input, output: Vec::new() }
    }

    /// The bytes written so far.
    pub fn written_bytes(&self) -> (r: &Vec<u8>)
        ensures
            r@ == self.written(),
    {
        &self.output
    }

    /// The bytes not yet consumed by reads.
    pub fn unread_bytes(&self) -> (r: &Vec<u8>)
        ensures
            r@ == self.to_read(),
    {
        &self.input
    }
}

impl Connection for ScriptedConnection {
    closed spec fn to_read(&self) -> Seq<u8> {
        self.input@
    }

    closed spec fn written(&self) -> Seq<u8> {
        self.output@
    }

    fn read_exact(&mut self, n: usize) -> (r: Result<Vec<u8>, Error>) {
        if n > self.input.len() {
            return Err(Error::IoError);
        }
        let ghost orig = self.input@;
        let mut out: Vec<u8> = Vec::new();
        let mut i: usize = 0;
        while i < n
            invariant
                i <= n,
                n <= orig.len(),
                out@ == orig.take(i as int),
                self.input@ == orig.skip(i as int),
                self.output@ == old(self).output@,
            decreases n - i,
        {
            let b = self.input.remove(0);
            proof {
                assert(orig.skip(i as int).remove(0) =~= orig.skip(i + 1));
                assert(orig.take(i as int).push(b) =~= orig.take(i + 1));
            }
            out.push(b);
            i = i + 1;
        }
        Ok(out)
    }

    fn write_all(&mut self, buf: &[u8]) -> (r: Result<(), Error>) {
        self.output.extend_from_slice(buf);
        Ok(())
    }
}

} // verus!
