//! The audio capability the core depends on, and the verified arithmetic
//! of waveform playback.
//!
//! Rendering and the output stream themselves live outside the library:
//! sample buffers are floating point and the device is hardware.  What can
//! be verified is here: the sample-count bookkeeping and the cyclic cursor
//! the stream callback reads the rendered buffer with.

use vstd::prelude::*;

use crate::notes::Note;

verus! {

/// The capability to sound a note for a number of seconds, blocking the
/// caller while it plays.
pub trait AudioInterfaceTrait {
    fn play_note(&mut self, note: Note, interval_secs: u64);
}

/// How many samples a rendering of the given length takes at the given
/// rate.
pub fn waveform_sample_count(interval_secs: u64, sample_rate: u32) -> (count: usize)
    requires
        interval_secs * sample_rate <= usize::MAX,
    ensures
        count == interval_secs * sample_rate,
{
    (interval_secs * (sample_rate as u64)) as usize
}

/// How many whole seconds a buffer of the given length plays for at the
/// given rate.
pub fn playback_seconds(sample_count: usize, sample_rate: u32) -> (seconds: u64)
    requires
        sample_rate > 0,
    ensures
        seconds == sample_count as int / sample_rate as int,
{
    (sample_count as u64) / (sample_rate as u64)
}

/// A cursor that walks a rendered buffer cyclically, one sample per output
/// frame: when it falls off the end it starts over.
pub struct SampleCursor {
    pub len: usize,
    pub index: usize,
}

impl SampleCursor {
    /// The cursor always points inside the buffer it walks.
    pub open spec fn well_formed(self) -> bool {
        self.index < self.len
    }

    pub fn new(len: usize) -> (cursor: SampleCursor)
        requires
            len > 0,
        ensures
            cursor.well_formed(),
            cursor.len == len,
            cursor.index == 0,
    {
        SampleCursor { len, index: 0 }
    }

    /// Hands out the position to read and steps forward, wrapping at the
    /// end of the buffer.
    pub fn advance(&mut self) -> (position: usize)
        requires
            old(self).well_formed(),
        ensures
            final(self).well_formed(),
            final(self).len == old(self).len,
            position == old(self).index,
            final(self).index == (old(self).index + 1) % old(self).len as int,
    {
        let position = self.index;
        self.index = self.index + 1;
        if self.index == self.len {
            self.index = 0;
        }
        proof {
            if old(self).index + 1 < old(self).len {
                vstd::arithmetic::div_mod::lemma_small_mod(
                    (old(self).index + 1) as nat,
                    old(self).len as nat,
                );
            } else {
                vstd::arithmetic::div_mod::lemma_mod_self_0(old(self).len as int);
            }
        }
        position
    }
}

} // verus!
