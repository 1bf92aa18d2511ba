//! The byte transport a driver writes to.

use vstd::prelude::*;

verus! {

/// A blocking byte-oriented serial channel. The driver owns exactly one
/// value of an implementing type and sends each command byte through it.
///
/// `written()` is the abstract trace of every byte the channel has accepted
/// so far, in order; the driver's contracts are stated over this trace.
/// The type of a port's written trace: what the `written` spec member of
/// `SerialPort` returns. Named so that transport adapters outside the
/// verified world can write the member's signature.
pub type ByteTrace = Seq<u8>;

pub trait SerialPort: Sized {
    /// Error an implementation may report for a failed transfer.
    type Error;

    /// All bytes accepted by the channel so far, oldest first.
    spec fn written(&self) -> ByteTrace;

    /// Writes one byte, blocking until the channel accepts it or fails.
    /// On failure the byte was not accepted and the trace is unchanged.
    fn write_byte(&mut self, byte: u8) -> (result: Result<(), Self::Error>)
        ensures
            result is Ok ==> final(self).written() == old(self).written().push(byte),
            result is Err ==> final(self).written() == old(self).written(),
    ;

    /// Reads one byte, blocking until one arrives or the channel fails.
    /// Reading never alters the written trace.
    fn read_byte(&mut self) -> (result: Result<u8, Self::Error>)
        ensures
            final(self).written() == old(self).written(),
    ;
}

/// A port that records everything written to it in a fixed-capacity buffer:
/// enough to observe a driver's traffic without real hardware. It offers
/// nothing to read.
pub struct RecordingPort {
    buffer: Vec<u8>,
    used: usize,
}

/// Error reported by a `RecordingPort` whose buffer is exhausted, or that
/// is asked to read.
#[derive(Clone, Copy, PartialEq, Eq, Debug)]
pub struct BufferFull;

impl RecordingPort {
    /// The bytes recorded so far.
    pub closed spec fn bytes(&self) -> Seq<u8> {
        self.buffer@.subrange(0, self.used as int)
    }

    /// How many more bytes the port can accept.
    pub closed spec fn room(&self) -> int {
        self.buffer@.len() - self.used
    }

    #[verifier::type_invariant]
    spec fn wf(&self) -> bool {
        self.used <= self.buffer@.len()
    }

    /// Creates a port able to record `capacity` bytes.
    pub fn new(capacity: usize) -> (port: RecordingPort)
        ensures
            port.bytes() == Seq::<u8>::empty(),
            port.room() == capacity,
    {
        let mut buffer: Vec<u8> = Vec::new();
        let mut filled: usize = 0;
        while filled < capacity
            invariant
                filled <= capacity,
                buffer@.len() == filled,
            decreases capacity - filled,
        {
            buffer.push(0);
            filled = filled + 1;
        }
        let port = RecordingPort { buffer, used: 0 };
        assert(port.bytes() =~= Seq::<u8>::empty());
        port
    }

    /// Copies the recorded bytes out, oldest first.
    pub fn recorded(&self) -> (out: Vec<u8>)
        ensures
            out@ == self.bytes(),
    {
        proof {
            use_type_invariant(self);
        }
        let mut out: Vec<u8> = Vec::new();
        let mut i: usize = 0;
        while i < self.used
            invariant
                self.wf(),
                i <= self.used,
                out@ == self.bytes().subrange(0, i as int),
            decreases self.used - i,
        {
            out.push(self.buffer[i]);
            assert(out@ =~= self.bytes().subrange(0, i + 1));
            i = i + 1;
        }
        assert(out@ =~= self.bytes());
        out
    }
}

impl SerialPort for RecordingPort {
    type Error = BufferFull;

    open spec fn written(&self) -> Seq<u8> {
        self.bytes()
    }

    fn write_byte(&mut self, byte: u8) -> (result: Result<(), BufferFull>) {
        proof {
            use_type_invariant(&*self);
        }
        if self.used < self.buffer.len() {
            let at = self.used;
            self.buffer[at] = byte;
            self.used = at + 1;
            assert(self.bytes() =~= old(self).bytes().push(byte));
            Ok(())
        } else {
            Err(BufferFull)
        }
    }

    fn read_byte(&mut self) -> (result: Result<u8, BufferFull>) {
        Err(BufferFull)
    }
}

} // verus!
