//! Host-side driver for a cleaning-robot serial control interface.
//!
//! The driver encodes a small command protocol (mode transitions, cleaning
//! commands, song definition and playback) as byte sequences written to a
//! blocking byte-oriented serial channel, and enforces at the type level
//! which commands are legal in which device mode.

use vstd::prelude::*;

pub mod device;
pub mod mode;
pub mod port;
pub mod protocol;
pub mod song;

verus! {

pub use crate::device::Rumba;
pub use crate::song::{Note, NoteDuration, NoteName, NoteOctave, SongSlot, U16Ext};

} // verus!
