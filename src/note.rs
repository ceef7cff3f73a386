use vstd::prelude::*;

verus! {

/// Event for (incoming) notes. Right now this only supports a very small subset of the MIDI
/// specification.
///
/// All of the timings are sample offsets within the current buffer.
#[derive(Debug, Copy, Clone, PartialEq, Eq, Structural)]
pub enum NoteEvent {
    NoteOn { timing: u32, channel: u8, note: u8, velocity: u8 },
    NoteOff { timing: u32, channel: u8, note: u8, velocity: u8 },
}

impl NoteEvent {
    /// The sample offset that the event carries, whichever kind it is.
    pub open spec fn spec_timing(&self) -> u32 {
        match *self {
            NoteEvent::NoteOn { timing, .. } => timing,
            NoteEvent::NoteOff { timing, .. } => timing,
        }
    }

    /// Return the sample within the current buffer this event belongs to.
    pub fn timing(&self) -> (r: u32)
        ensures
            r == self.spec_timing(),
            self is NoteOn ==> r == self->NoteOn_timing,
            self is NoteOff ==> r == self->NoteOff_timing,
    {
        match self {
            NoteEvent::NoteOn { timing, .. } => *timing,
            NoteEvent::NoteOff { timing, .. } => *timing,
        }
    }
}

} // verus!
