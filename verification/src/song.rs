//! Notes, durations and the song wire encoding.
//!
//! A song is an ordered sequence of at most 16 notes; on the wire it is the
//! define-song opcode, the slot byte, the note count, then two bytes per
//! note (pitch, duration in ticks). The fixed ceiling of
//! 3 header bytes + 2 bytes per note = 35 bytes is a hard protocol limit.

use vstd::prelude::*;

use crate::protocol::DEFINE_SONG_OPCODE;

verus! {

/// Storage slot for a song on the device, encoded on the wire as 0 to 3.
/// Selects the slot that will be used to store or play the song.
#[derive(Clone, Copy)]
pub enum SongSlot {
    First,
    Second,
    Third,
    Fourth,
}

/// Wire encoding of a song slot.
pub open spec fn slot_code(slot: SongSlot) -> u8 {
    match slot {
        SongSlot::First => 0,
        SongSlot::Second => 1,
        SongSlot::Third => 2,
        SongSlot::Fourth => 3,
    }
}

impl SongSlot {
    /// The byte that names this slot on the wire.
    pub fn code(self) -> (code: u8)
        ensures
            code == slot_code(self),
    {
        match self {
            SongSlot::First => 0,
            SongSlot::Second => 1,
            SongSlot::Third => 2,
            SongSlot::Fourth => 3,
        }
    }
}

/// Name of a note: one of the 12 chromatic pitch classes. It does not
/// identify the frequency of the note by itself, since it carries no octave.
#[derive(Clone, Copy)]
pub enum NoteName {
    C,
    CSharp,
    D,
    DSharp,
    E,
    F,
    FSharp,
    G,
    GSharp,
    A,
    ASharp,
    B,
}

/// Pitch offset of a note name within its octave, 0 to 11.
pub open spec fn name_offset(name: NoteName) -> u8 {
    match name {
        NoteName::C => 0,
        NoteName::CSharp => 1,
        NoteName::D => 2,
        NoteName::DSharp => 3,
        NoteName::E => 4,
        NoteName::F => 5,
        NoteName::FSharp => 6,
        NoteName::G => 7,
        NoteName::GSharp => 8,
        NoteName::A => 9,
        NoteName::ASharp => 10,
        NoteName::B => 11,
    }
}

impl NoteName {
    /// The pitch offset of this name within its octave.
    pub fn offset(self) -> (offset: u8)
        ensures
            offset == name_offset(self),
    {
        match self {
            NoteName::C => 0,
            NoteName::CSharp => 1,
            NoteName::D => 2,
            NoteName::DSharp => 3,
            NoteName::E => 4,
            NoteName::F => 5,
            NoteName::FSharp => 6,
            NoteName::G => 7,
            NoteName::GSharp => 8,
            NoteName::A => 9,
            NoteName::ASharp => 10,
            NoteName::B => 11,
        }
    }
}

/// Octave of a note. An octave marks the difference between a note and
/// another of double the frequency; each octave is a fixed base offset on
/// the pitch scale.
#[derive(Clone, Copy)]
pub enum NoteOctave {
    Silent,
    Contra,
    Great,
    Small,
    OneLined,
    TwoLined,
    ThreeLined,
    FourLined,
}

/// Base pitch value of an octave: 0 for Silent, then 24 up to 96 in steps
/// of 12.
pub open spec fn octave_base(octave: NoteOctave) -> u8 {
    match octave {
        NoteOctave::Silent => 0,
        NoteOctave::Contra => 24,
        NoteOctave::Great => 36,
        NoteOctave::Small => 48,
        NoteOctave::OneLined => 60,
        NoteOctave::TwoLined => 72,
        NoteOctave::ThreeLined => 84,
        NoteOctave::FourLined => 96,
    }
}

impl NoteOctave {
    /// The base pitch value of this octave.
    pub fn base(self) -> (base: u8)
        ensures
            base == octave_base(self),
    {
        match self {
            NoteOctave::Silent => 0,
            NoteOctave::Contra => 24,
            NoteOctave::Great => 36,
            NoteOctave::Small => 48,
            NoteOctave::OneLined => 60,
            NoteOctave::TwoLined => 72,
            NoteOctave::ThreeLined => 84,
            NoteOctave::FourLined => 96,
        }
    }
}

/// Duration of one note in milliseconds, converted into the device
/// timebase: ticks of 1/64 second, stored in one byte. A duration whose
/// tick count exceeds 255 silently truncates to the low byte, so durations
/// above roughly 3984 ms lose their high bits.
pub open spec fn ticks_of_ms(ms: u16) -> u8 {
    ((ms as int * 64 / 1000) % 256) as u8
}

/// Represents the duration of a single note in ticks of 1/64 second.
/// Construct it from milliseconds through the `U16Ext` extension for `u16`:
/// `64u16.ms()`.
pub struct NoteDuration {
    ticks: u8,
}

impl NoteDuration {
    /// The stored tick count.
    pub closed spec fn spec_ticks(&self) -> u8 {
        self.ticks
    }

    /// The stored tick count.
    pub fn ticks(&self) -> (ticks: u8)
        ensures
            ticks == self.spec_ticks(),
    {
        self.ticks
    }
}

/// Extension for `u16` that converts a count of milliseconds into the
/// device timebase.
pub trait U16Ext {
    /// Reads `self` as milliseconds and converts it to a note duration of
    /// `floor(self * 64 / 1000)` ticks, truncated to one byte.
    fn ms(self) -> NoteDuration;
}

impl U16Ext for u16 {
    fn ms(self) -> (duration: NoteDuration)
        ensures
            duration.spec_ticks() == ticks_of_ms(self),
    {
        let ticks = ((self as u64 * 64 / 1000) % 256) as u8;
        NoteDuration { ticks }
    }
}

/// Complete note representation: a name, the octave that pins its
/// frequency, and a duration.
pub struct Note {
    pub name: NoteName,
    pub octave: NoteOctave,
    pub duration: NoteDuration,
}

/// Pitch value of a note: name offset plus octave base, always in
/// [0, 107], so it fits one byte.
pub open spec fn midi_of(note: Note) -> u8 {
    (name_offset(note.name) + octave_base(note.octave)) as u8
}

impl Note {
    /// The duration byte of this note: its tick count.
    pub fn duration(&self) -> (ticks: u8)
        ensures
            ticks == self.duration.spec_ticks(),
    {
        self.duration.ticks()
    }

    /// The pitch byte of this note.
    pub fn midi_value(&self) -> (midi: u8)
        ensures
            midi == midi_of(*self),
            midi <= 107,
    {
        self.name.offset() + self.octave.base()
    }
}

/// The two wire bytes of one note: its pitch, then its duration in ticks.
pub open spec fn note_bytes(note: Note) -> Seq<u8> {
    seq![midi_of(note), note.duration.spec_ticks()]
}

/// The wire bytes of a sequence of notes, in playback order.
pub open spec fn notes_bytes(notes: Seq<Note>) -> Seq<u8>
    decreases notes.len(),
{
    if notes.len() == 0 {
        Seq::empty()
    } else {
        note_bytes(notes[0]) + notes_bytes(notes.drop_first())
    }
}

/// The complete define-song command for a slot and a note sequence:
/// opcode, slot byte, note count, then two bytes per note.
pub open spec fn song_bytes(slot: SongSlot, notes: Seq<Note>) -> Seq<u8> {
    seq![DEFINE_SONG_OPCODE, slot_code(slot), notes.len() as u8] + notes_bytes(notes)
}

/// Appending a note to a song appends exactly its two wire bytes.
pub proof fn lemma_notes_bytes_push(notes: Seq<Note>, note: Note)
    ensures
        notes_bytes(notes.push(note)) == notes_bytes(notes) + note_bytes(note),
    decreases notes.len(),
{
    let whole = notes.push(note);
    if notes.len() == 0 {
        assert(whole[0] == note);
        assert(whole.drop_first() =~= Seq::<Note>::empty());
        assert(notes_bytes(whole.drop_first()) =~= Seq::<u8>::empty());
        assert(notes_bytes(whole) =~= note_bytes(note));
        assert(notes_bytes(notes) =~= Seq::<u8>::empty());
        assert(notes_bytes(whole) =~= notes_bytes(notes) + note_bytes(note));
    } else {
        assert(whole[0] == notes[0]);
        assert(whole.drop_first() =~= notes.drop_first().push(note));
        lemma_notes_bytes_push(notes.drop_first(), note);
        assert(notes_bytes(whole) =~= note_bytes(notes[0]) + (notes_bytes(notes.drop_first())
            + note_bytes(note)));
        assert(notes_bytes(whole) =~= notes_bytes(notes) + note_bytes(note));
    }
}

} // verus!
