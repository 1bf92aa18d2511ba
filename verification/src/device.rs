//! The mode-typed driver handle and the commands it sends.

use vstd::prelude::*;

use crate::mode;
use crate::port::SerialPort;
use crate::protocol::{
    CLEAN_OPCODE, DEFINE_SONG_OPCODE, MAX_CLEAN_OPCODE, PLAY_SONG_OPCODE, SAFE_OPCODE,
    SHUTDOWN_OPCODE, START_OPCODE,
};
use crate::song::{lemma_notes_bytes_push, notes_bytes, slot_code, song_bytes, Note, SongSlot};
use core::marker::PhantomData;

verus! {

/// A driver handle, typed in the device's current mode.
///
/// A handle owns exactly one serial transport. Every transition consumes the
/// handle and returns a new one typed in the destination mode, moving the
/// transport across; `shutdown` consumes the handle for good and hands the
/// transport back. A transport failure is reported to the caller, who
/// decides whether it is fatal; no operation of this driver panics. A failed
/// transition returns a handle still in the old mode, its transport trace
/// unchanged, beside the error.
pub struct Rumba<T, MODE> where T: SerialPort {
    io_port: T,
    _mode: PhantomData<MODE>,
}

impl<T, MODE> Rumba<T, MODE> where T: SerialPort {
    /// The bytes the underlying transport has accepted so far.
    pub closed spec fn written(&self) -> Seq<u8> {
        self.io_port.written()
    }

    /// Sends the shutdown opcode and releases the transport, whatever mode
    /// the handle is in. This is the teardown every handle must end in
    /// (directly, or through a scope guard built on it) so that the device
    /// does not stay powered: one shutdown byte at the moment the transport
    /// leaves the driver's care, and none before it.
    pub fn shutdown(self) -> (out: (T, Result<(), T::Error>))
        ensures
            out.1 is Ok ==> out.0.written() == self.written().push(SHUTDOWN_OPCODE),
            out.1 is Err ==> out.0.written() == self.written(),
    {
        let mut io_port = self.decompose();
        let result = io_port.write_byte(SHUTDOWN_OPCODE);
        (io_port, result)
    }

    /// Writes a whole command buffer, one byte at a time, blocking on each
    /// byte. Stops at the first transport error: the bytes before it have
    /// been accepted, the rest of the buffer is discarded.
    fn write(&mut self, buffer: &[u8]) -> (result: Result<(), T::Error>)
        ensures
            result is Ok ==> final(self).written() == old(self).written() + buffer@,
            result is Err ==> exists|k: int|
                0 <= k < buffer@.len() && final(self).written() == old(self).written()
                    + buffer@.subrange(0, k),
    {
        let ghost start = self.written();
        let mut i: usize = 0;
        while i < buffer.len()
            invariant
                i <= buffer@.len(),
                start == old(self).written(),
                self.written() == start + buffer@.subrange(0, i as int),
            decreases buffer@.len() - i,
        {
            match self.io_port.write_byte(buffer[i]) {
                Ok(()) => {
                    assert(self.written() =~= start + buffer@.subrange(0, i + 1));
                    i = i + 1;
                }
                Err(error) => {
                    assert((i as int) < buffer@.len() && self.written() == old(self).written()
                        + buffer@.subrange(0, i as int));
                    return Err(error);
                }
            }
        }
        assert(self.written() =~= start + buffer@);
        Ok(())
    }

    /// Consumes the handle and returns the owned transport, writing nothing.
    fn decompose(self) -> (port: T)
        ensures
            port.written() == self.written(),
    {
        let Rumba { io_port, _mode } = self;
        io_port
    }
}

impl<T> Rumba<T, mode::Off> where T: SerialPort {
    /// Wraps the given serial port into a handle in the Off mode.
    pub fn new(io_port: T) -> (rumba: Self)
        ensures
            rumba.written() == io_port.written(),
    {
        Rumba { io_port, _mode: PhantomData }
    }

    /// Switches to the Passive state by sending the start opcode.
    pub fn into_passive(self) -> (out: Result<Rumba<T, mode::Passive>, (Self, T::Error)>)
        ensures
            out is Ok ==> out->Ok_0.written() == self.written().push(START_OPCODE),
            out is Err ==> out->Err_0.0.written() == self.written(),
    {
        let mut io_port = self.decompose();
        match io_port.write_byte(START_OPCODE) {
            Ok(()) => Ok(Rumba { io_port, _mode: PhantomData }),
            Err(error) => Err((Rumba { io_port, _mode: PhantomData }, error)),
        }
    }
}

impl<T> Rumba<T, mode::Passive> where T: SerialPort {
    /// Switches to the Off state by sending the shutdown opcode.
    pub fn into_off(self) -> (out: Result<Rumba<T, mode::Off>, (Self, T::Error)>)
        ensures
            out is Ok ==> out->Ok_0.written() == self.written().push(SHUTDOWN_OPCODE),
            out is Err ==> out->Err_0.0.written() == self.written(),
    {
        let mut io_port = self.decompose();
        match io_port.write_byte(SHUTDOWN_OPCODE) {
            Ok(()) => Ok(Rumba { io_port, _mode: PhantomData }),
            Err(error) => Err((Rumba { io_port, _mode: PhantomData }, error)),
        }
    }

    /// Switches to the Safe state by sending the enter-Safe opcode.
    pub fn into_safe(self) -> (out: Result<Rumba<T, mode::Safe>, (Self, T::Error)>)
        ensures
            out is Ok ==> out->Ok_0.written() == self.written().push(SAFE_OPCODE),
            out is Err ==> out->Err_0.0.written() == self.written(),
    {
        let mut io_port = self.decompose();
        match io_port.write_byte(SAFE_OPCODE) {
            Ok(()) => Ok(Rumba { io_port, _mode: PhantomData }),
            Err(error) => Err((Rumba { io_port, _mode: PhantomData }, error)),
        }
    }

    /// Stores a song in the given slot: the define-song opcode, the slot,
    /// the note count, then two bytes per note. A song holds at most 16
    /// notes — the wire buffer of 3 + 2 * 16 = 35 bytes is a hard protocol
    /// limit. On a transport failure the device may have received a
    /// truncated command: the bytes before the failure stand written, the
    /// rest is discarded, and the caller must recover out of band.
    pub fn send_song(&mut self, song: SongSlot, notes: &[Note]) -> (result: Result<
        (),
        T::Error,
    >)
        requires
            notes@.len() <= 16,
        ensures
            result is Ok ==> final(self).written() == old(self).written() + song_bytes(
                song,
                notes@,
            ),
            result is Err ==> exists|k: int|
                0 <= k < song_bytes(song, notes@).len() && final(self).written() == old(
                    self,
                ).written() + song_bytes(song, notes@).subrange(0, k),
    {
        let mut buffer: Vec<u8> = Vec::new();
        buffer.push(DEFINE_SONG_OPCODE);
        buffer.push(song.code());
        buffer.push(notes.len() as u8);
        let ghost header = buffer@;
        proof {
            assert(header =~= seq![DEFINE_SONG_OPCODE, slot_code(song), notes@.len() as u8]);
            assert(notes@.subrange(0, 0) =~= Seq::<Note>::empty());
            assert(buffer@ =~= header + notes_bytes(notes@.subrange(0, 0)));
        }
        let mut i: usize = 0;
        while i < notes.len()
            invariant
                i <= notes@.len(),
                song_bytes(song, notes@) == header + notes_bytes(notes@),
                buffer@ == header + notes_bytes(notes@.subrange(0, i as int)),
            decreases notes@.len() - i,
        {
            buffer.push(notes[i].midi_value());
            buffer.push(notes[i].duration());
            proof {
                lemma_notes_bytes_push(notes@.subrange(0, i as int), notes@[i as int]);
                assert(notes@.subrange(0, i + 1) =~= notes@.subrange(0, i as int).push(
                    notes@[i as int],
                ));
                assert(buffer@ =~= header + notes_bytes(notes@.subrange(0, i + 1)));
            }
            i = i + 1;
        }
        proof {
            assert(notes@.subrange(0, notes@.len() as int) =~= notes@);
            assert(buffer@ =~= song_bytes(song, notes@));
        }
        self.write(buffer.as_slice())
    }

    /// Starts or stops the cleaning mode: one opcode byte.
    pub fn clean(&mut self) -> (result: Result<(), T::Error>)
        ensures
            result is Ok ==> final(self).written() == old(self).written().push(CLEAN_OPCODE),
            result is Err ==> final(self).written() == old(self).written(),
    {
        self.io_port.write_byte(CLEAN_OPCODE)
    }

    /// Starts cleaning in max mode: one opcode byte.
    pub fn max_clean(&mut self) -> (result: Result<(), T::Error>)
        ensures
            result is Ok ==> final(self).written() == old(self).written().push(MAX_CLEAN_OPCODE),
            result is Err ==> final(self).written() == old(self).written(),
    {
        self.io_port.write_byte(MAX_CLEAN_OPCODE)
    }
}

impl<T> Rumba<T, mode::Safe> where T: SerialPort {
    /// Plays the song stored in the given slot: the play-song opcode, then
    /// the slot byte. On a transport failure the command may have been sent
    /// only in part: whatever prefix was accepted stands written.
    pub fn play_song(&mut self, song: SongSlot) -> (result: Result<(), T::Error>)
        ensures
            result is Ok ==> final(self).written() == old(self).written() + seq![
                PLAY_SONG_OPCODE,
                slot_code(song),
            ],
            result is Err ==> final(self).written() == old(self).written() || final(self).written()
                == old(self).written().push(PLAY_SONG_OPCODE),
    {
        let command: [u8; 2] = [PLAY_SONG_OPCODE, song.code()];
        let ghost bytes = command@;
        let result = self.write(command.as_slice());
        proof {
            if result is Err {
                let k = choose|k: int|
                    0 <= k < bytes.len() && self.written() == old(self).written() + bytes.subrange(
                        0,
                        k,
                    );
                if k == 0 {
                    assert(bytes.subrange(0, 0) =~= Seq::<u8>::empty());
                    assert(self.written() =~= old(self).written());
                } else {
                    assert(bytes.subrange(0, 1) =~= seq![PLAY_SONG_OPCODE]);
                    assert(self.written() =~= old(self).written().push(PLAY_SONG_OPCODE));
                }
            }
        }
        result
    }

    /// Switches to the Off state by sending the shutdown opcode.
    pub fn into_off(self) -> (out: Result<Rumba<T, mode::Off>, (Self, T::Error)>)
        ensures
            out is Ok ==> out->Ok_0.written() == self.written().push(SHUTDOWN_OPCODE),
            out is Err ==> out->Err_0.0.written() == self.written(),
    {
        let mut io_port = self.decompose();
        match io_port.write_byte(SHUTDOWN_OPCODE) {
            Ok(()) => Ok(Rumba { io_port, _mode: PhantomData }),
            Err(error) => Err((Rumba { io_port, _mode: PhantomData }, error)),
        }
    }

    /// Switches back to the Passive state: the protocol reuses the start
    /// opcode to mean "go to Passive" regardless of the prior mode.
    pub fn into_passive(self) -> (out: Result<Rumba<T, mode::Passive>, (Self, T::Error)>)
        ensures
            out is Ok ==> out->Ok_0.written() == self.written().push(START_OPCODE),
            out is Err ==> out->Err_0.0.written() == self.written(),
    {
        let mut io_port = self.decompose();
        match io_port.write_byte(START_OPCODE) {
            Ok(()) => Ok(Rumba { io_port, _mode: PhantomData }),
            Err(error) => Err((Rumba { io_port, _mode: PhantomData }, error)),
        }
    }
}

} // verus!
