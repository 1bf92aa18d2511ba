use std::cell::RefCell;
use std::convert::Infallible;

use rumba::mode;
use rumba::port::{BufferFull, RecordingPort, SerialPort};
use rumba::{Note, NoteName, NoteOctave, Rumba, SongSlot, U16Ext};

/// A serial channel that appends every accepted byte to a shared vector, so
/// a test can watch the driver's traffic from outside the handle.
struct MockSerial<'a> {
    data: &'a RefCell<Vec<u8>>,
}

impl<'a> SerialPort for MockSerial<'a> {
    type Error = Infallible;

    // The ghost trace is never evaluated at run time.
    fn written(&self) -> vstd::seq::Seq<u8> {
        unreachable!()
    }

    fn write_byte(&mut self, byte: u8) -> Result<(), Infallible> {
        self.data.borrow_mut().push(byte);
        Ok(())
    }

    fn read_byte(&mut self) -> Result<u8, Infallible> {
        Ok(0)
    }
}

/// A serial channel that accepts a fixed number of bytes and then fails.
struct FlakySerial<'a> {
    data: &'a RefCell<Vec<u8>>,
    accepts: usize,
}

impl<'a> SerialPort for FlakySerial<'a> {
    type Error = &'static str;

    // The ghost trace is never evaluated at run time.
    fn written(&self) -> vstd::seq::Seq<u8> {
        unreachable!()
    }

    fn write_byte(&mut self, byte: u8) -> Result<(), &'static str> {
        if self.accepts == 0 {
            return Err("transport failure");
        }
        self.accepts -= 1;
        self.data.borrow_mut().push(byte);
        Ok(())
    }

    fn read_byte(&mut self) -> Result<u8, &'static str> {
        Err("transport failure")
    }
}

#[test]
fn rumba_is_droped() {
    let vector = RefCell::new(vec![]);
    let serial = MockSerial { data: &vector };
    {
        let rumba = Rumba::new(serial);
        let (_serial, result) = rumba.shutdown();
        assert!(result.is_ok());
    }
    assert_eq!(*vector.borrow(), vec![173]);
}

#[test]
fn rumba_enters_passive() {
    let vector = RefCell::new(vec![]);
    let serial = MockSerial { data: &vector };
    {
        let rumba = Rumba::new(serial);
        assert_eq!(*vector.borrow(), vec![]);
        let rumba = rumba.into_passive().ok().unwrap();
        assert_eq!(*vector.borrow(), vec![128]);
        vector.borrow_mut().clear();
        let (_serial, result) = rumba.shutdown();
        assert!(result.is_ok());
    }
    assert_eq!(*vector.borrow(), vec![173]);
}

#[test]
fn rumba_sends_song() {
    let vector = RefCell::new(vec![]);
    let serial = MockSerial { data: &vector };
    {
        let rumba = Rumba::new(serial);
        assert_eq!(*vector.borrow(), vec![]);
        let mut rumba = rumba.into_passive().ok().unwrap();
        assert_eq!(*vector.borrow(), vec![128]);
        vector.borrow_mut().clear();

        let song = [
            Note {
                name: NoteName::D,
                duration: 1000.ms(),
                octave: NoteOctave::ThreeLined,
            },
            Note {
                name: NoteName::D,
                duration: 1000.ms(),
                octave: NoteOctave::TwoLined,
            },
        ];

        rumba.send_song(SongSlot::First, &song).unwrap();
        assert_eq!(*vector.borrow(), vec![140, 0, 2, 86, 64, 74, 64]);
        vector.borrow_mut().clear();
        let (_serial, result) = rumba.shutdown();
        assert!(result.is_ok());
    }
    assert_eq!(*vector.borrow(), vec![173]);
}

#[test]
fn rumba_enters_safe() {
    let vector = RefCell::new(vec![]);
    let serial = MockSerial { data: &vector };

    let rumba = Rumba::new(serial);
    assert_eq!(*vector.borrow(), vec![]);

    let rumba = rumba.into_passive().ok().unwrap();
    assert_eq!(*vector.borrow(), vec![128]);
    vector.borrow_mut().clear();

    let _rumba = rumba.into_safe().ok().unwrap();
    assert_eq!(*vector.borrow(), vec![131]);
}

#[test]
fn rumba_back_to_passive() {
    let vector = RefCell::new(vec![]);
    let serial = MockSerial { data: &vector };

    let rumba = Rumba::new(serial);
    assert_eq!(*vector.borrow(), vec![]);

    let rumba = rumba.into_passive().ok().unwrap();
    assert_eq!(*vector.borrow(), vec![128]);
    vector.borrow_mut().clear();

    let rumba = rumba.into_safe().ok().unwrap();
    assert_eq!(*vector.borrow(), vec![131]);
    vector.borrow_mut().clear();

    let _rumba = rumba.into_passive().ok().unwrap();
    assert_eq!(*vector.borrow(), vec![128]);
}

#[test]
fn note_duration_from_ms() {
    assert_eq!(16u16.ms().ticks(), 1);
}

#[test]
fn note_duration_edge_values() {
    assert_eq!(0u16.ms().ticks(), 0);
    assert_eq!(1000u16.ms().ticks(), 64);
    assert_eq!(3984u16.ms().ticks(), 254);
    // Above 255 ticks the count silently truncates to the low byte.
    assert_eq!(4000u16.ms().ticks(), 0);
}

#[test]
fn one_shutdown_across_whole_lifetime() {
    let vector = RefCell::new(vec![]);
    let serial = MockSerial { data: &vector };

    let rumba = Rumba::new(serial);
    let rumba = rumba.into_passive().ok().unwrap();
    let rumba = rumba.into_safe().ok().unwrap();
    let rumba = rumba.into_passive().ok().unwrap();
    let (_serial, result) = rumba.shutdown();
    assert!(result.is_ok());

    assert_eq!(*vector.borrow(), vec![128, 131, 128, 173]);
    let shutdowns = vector.borrow().iter().filter(|&&b| b == 173).count();
    assert_eq!(shutdowns, 1);
}

#[test]
fn explicit_off_transitions() {
    let vector = RefCell::new(vec![]);
    let serial = MockSerial { data: &vector };

    let rumba = Rumba::new(serial);
    let rumba = rumba.into_passive().ok().unwrap();
    let rumba = rumba.into_off().ok().unwrap();
    let rumba = rumba.into_passive().ok().unwrap();
    let rumba = rumba.into_safe().ok().unwrap();
    let _rumba = rumba.into_off().ok().unwrap();

    assert_eq!(*vector.borrow(), vec![128, 173, 128, 131, 173]);
}

#[test]
fn rumba_plays_song() {
    let vector = RefCell::new(vec![]);
    let serial = MockSerial { data: &vector };

    let rumba = Rumba::new(serial);
    let rumba = rumba.into_passive().ok().unwrap();
    let mut rumba = rumba.into_safe().ok().unwrap();
    vector.borrow_mut().clear();

    rumba.play_song(SongSlot::First).unwrap();
    assert_eq!(*vector.borrow(), vec![141, 0]);

    rumba.play_song(SongSlot::Fourth).unwrap();
    assert_eq!(*vector.borrow(), vec![141, 0, 141, 3]);
}

#[test]
fn rumba_cleans() {
    let vector = RefCell::new(vec![]);
    let serial = MockSerial { data: &vector };

    let rumba = Rumba::new(serial);
    let mut rumba = rumba.into_passive().ok().unwrap();
    vector.borrow_mut().clear();

    rumba.clean().unwrap();
    assert_eq!(*vector.borrow(), vec![135]);

    rumba.max_clean().unwrap();
    assert_eq!(*vector.borrow(), vec![135, 136]);
}

#[test]
fn song_slots_and_pitches_encode() {
    let vector = RefCell::new(vec![]);
    let serial = MockSerial { data: &vector };

    let rumba = Rumba::new(serial);
    let mut rumba = rumba.into_passive().ok().unwrap();
    vector.borrow_mut().clear();

    // The lowest and the highest pitch: C in the Silent octave is 0,
    // B in the four-lined octave is 11 + 96 = 107.
    let song = [
        Note {
            name: NoteName::C,
            duration: 500.ms(),
            octave: NoteOctave::Silent,
        },
        Note {
            name: NoteName::B,
            duration: 250.ms(),
            octave: NoteOctave::FourLined,
        },
    ];
    rumba.send_song(SongSlot::Third, &song).unwrap();
    assert_eq!(*vector.borrow(), vec![140, 2, 2, 0, 32, 107, 16]);
}

#[test]
fn full_song_uses_whole_buffer() {
    let vector = RefCell::new(vec![]);
    let serial = MockSerial { data: &vector };

    let rumba = Rumba::new(serial);
    let mut rumba = rumba.into_passive().ok().unwrap();
    vector.borrow_mut().clear();

    let note = || Note {
        name: NoteName::A,
        duration: 125.ms(),
        octave: NoteOctave::OneLined,
    };
    let song: Vec<Note> = (0..16).map(|_| note()).collect();
    rumba.send_song(SongSlot::Second, &song).unwrap();

    let sent = vector.borrow();
    assert_eq!(sent.len(), 35);
    assert_eq!(sent[0], 140);
    assert_eq!(sent[1], 1);
    assert_eq!(sent[2], 16);
    // 9 + 60 = 69 pitch, 125 * 64 / 1000 = 8 ticks, 16 times over.
    for i in 0..16 {
        assert_eq!(sent[3 + 2 * i], 69);
        assert_eq!(sent[4 + 2 * i], 8);
    }
}

#[test]
fn failed_transition_returns_handle_and_error() {
    let vector = RefCell::new(vec![]);
    let serial = FlakySerial {
        data: &vector,
        accepts: 0,
    };

    let rumba = Rumba::new(serial);
    let (rumba, error) = rumba.into_passive().err().unwrap();
    assert_eq!(error, "transport failure");
    assert_eq!(*vector.borrow(), vec![]);

    // The handle is still in Off mode and still owns the transport.
    let (_serial, result) = rumba.shutdown();
    assert!(result.is_err());
    assert_eq!(*vector.borrow(), vec![]);
}

#[test]
fn failed_song_leaves_prefix_written() {
    let vector = RefCell::new(vec![]);
    let serial = FlakySerial {
        data: &vector,
        accepts: 5,
    };

    let rumba = Rumba::new(serial);
    let mut rumba = rumba.into_passive().ok().unwrap();
    vector.borrow_mut().clear();

    let song = [
        Note {
            name: NoteName::D,
            duration: 1000.ms(),
            octave: NoteOctave::ThreeLined,
        },
        Note {
            name: NoteName::D,
            duration: 1000.ms(),
            octave: NoteOctave::TwoLined,
        },
    ];
    // Four bytes fit (one was spent on the start opcode); the command is
    // seven bytes long, so it is cut short and the error surfaces.
    let result = rumba.send_song(SongSlot::First, &song);
    assert_eq!(result, Err("transport failure"));
    assert_eq!(*vector.borrow(), vec![140, 0, 2, 86]);
}

#[test]
fn recording_port_records_and_fills_up() {
    let port = RecordingPort::new(3);
    let rumba = Rumba::new(port);
    let rumba = rumba.into_passive().ok().unwrap();
    let rumba = rumba.into_safe().ok().unwrap();
    let rumba = rumba.into_passive().ok().unwrap();

    // The fourth byte no longer fits: the shutdown write fails and the
    // recorded traffic is unchanged.
    let (port, result) = rumba.shutdown();
    assert_eq!(result, Err(BufferFull));
    assert_eq!(port.recorded(), vec![128, 131, 128]);
}

#[test]
fn typestate_gates_operations_by_mode() {
    // Which operations exist on a handle is decided by its mode type:
    // a Passive handle defines songs, a Safe handle plays them. The calls
    // below only compile because each handle is typed in the right mode.
    let vector = RefCell::new(vec![]);
    let serial = MockSerial { data: &vector };

    let off: Rumba<MockSerial, mode::Off> = Rumba::new(serial);
    let mut passive: Rumba<MockSerial, mode::Passive> = off.into_passive().ok().unwrap();
    let song = [Note {
        name: NoteName::E,
        duration: 125.ms(),
        octave: NoteOctave::Small,
    }];
    passive.send_song(SongSlot::Second, &song).unwrap();
    let mut safe: Rumba<MockSerial, mode::Safe> = passive.into_safe().ok().unwrap();
    safe.play_song(SongSlot::Second).unwrap();
    assert_eq!(*vector.borrow(), vec![128, 140, 1, 1, 52, 8, 131, 141, 1]);
}
