//! What a caller asks the engine to render: notes, their curves, and the
//! output format.
//!
//! Times and sample values are IEEE 754 numbers. This library never computes
//! with them, so it carries each one as its bit pattern: a `u32` for a
//! binary32 value, a `u64` for a binary64 value.

use vstd::prelude::*;

verus! {

/// Two to the power of 32: the engine counts array elements in 32 bits.
pub const COUNT_MODULUS: u64 = 0x1_0000_0000;

/// The element count that the engine is told for an array of `len` elements.
///
/// The count field of the engine is 32 bits wide and receives the low 32 bits
/// of the length.
pub open spec fn wire_count(len: nat) -> int {
    len as int % 0x1_0000_0000
}

/// Computes [`wire_count`].
pub fn wire_count_of(len: usize) -> (n: u32)
    ensures
        n == wire_count(len as nat),
        len <= u32::MAX ==> n == len,
{
    let low: u64 = (len as u64) % COUNT_MODULUS;
    low as u32
}

/// A pitch curve: fundamental frequency in hertz, sampled at given times.
///
/// Its model is the sequence of its points, each a pair of a time in seconds
/// and a frequency, both as binary32 bit patterns.
pub struct F0Curve<'a> {
    time_sec: &'a [u32],
    f0_hz: &'a [u32],
}

impl<'a> View for F0Curve<'a> {
    type V = Seq<(u32, u32)>;

    closed spec fn view(&self) -> Seq<(u32, u32)> {
        Seq::new(self.time_sec@.len(), |i: int| (self.time_sec@[i], self.f0_hz@[i]))
    }
}

impl<'a> F0Curve<'a> {
    #[verifier::type_invariant]
    spec fn paired(&self) -> bool {
        self.time_sec@.len() == self.f0_hz@.len()
    }

    /// Pairs the two columns of a curve. They must be of one length.
    pub fn new(time_sec: &'a [u32], f0_hz: &'a [u32]) -> (curve: Self)
        requires
            time_sec@.len() == f0_hz@.len(),
        ensures
            curve@.len() == time_sec@.len(),
            forall|i: int| 0 <= i < curve@.len() ==> curve@[i] == (time_sec@[i], f0_hz@[i]),
    {
        F0Curve { time_sec, f0_hz }
    }

    /// The times of the points, in order.
    pub fn time_sec(&self) -> (column: &'a [u32])
        ensures
            column@.len() == self@.len(),
            forall|i: int| 0 <= i < self@.len() ==> column@[i] == self@[i].0,
    {
        proof {
            use_type_invariant(self);
        }
        self.time_sec
    }

    /// The frequencies of the points, in order.
    pub fn f0_hz(&self) -> (column: &'a [u32])
        ensures
            column@.len() == self@.len(),
            forall|i: int| 0 <= i < self@.len() ==> column@[i] == self@[i].1,
    {
        proof {
            use_type_invariant(self);
        }
        self.f0_hz
    }

    /// The number of points as the engine is told it.
    pub fn length(&self) -> (n: u32)
        ensures
            n == wire_count(self@.len()),
    {
        wire_count_of(self.time_sec.len())
    }
}

/// An envelope curve: amplitude, sampled at given times.
///
/// Its model is the sequence of its points, each a pair of a time in seconds
/// and an amplitude, both as binary32 bit patterns.
pub struct EnvCurve<'a> {
    time_sec: &'a [u32],
    value: &'a [u32],
}

impl<'a> View for EnvCurve<'a> {
    type V = Seq<(u32, u32)>;

    closed spec fn view(&self) -> Seq<(u32, u32)> {
        Seq::new(self.time_sec@.len(), |i: int| (self.time_sec@[i], self.value@[i]))
    }
}

impl<'a> EnvCurve<'a> {
    #[verifier::type_invariant]
    spec fn paired(&self) -> bool {
        self.time_sec@.len() == self.value@.len()
    }

    /// Pairs the two columns of a curve. They must be of one length.
    pub fn new(time_sec: &'a [u32], value: &'a [u32]) -> (curve: Self)
        requires
            time_sec@.len() == value@.len(),
        ensures
            curve@.len() == time_sec@.len(),
            forall|i: int| 0 <= i < curve@.len() ==> curve@[i] == (time_sec@[i], value@[i]),
    {
        EnvCurve { time_sec, value }
    }

    /// The times of the points, in order.
    pub fn time_sec(&self) -> (column: &'a [u32])
        ensures
            column@.len() == self@.len(),
            forall|i: int| 0 <= i < self@.len() ==> column@[i] == self@[i].0,
    {
        proof {
            use_type_invariant(self);
        }
        self.time_sec
    }

    /// The amplitudes of the points, in order.
    pub fn value(&self) -> (column: &'a [u32])
        ensures
            column@.len() == self@.len(),
            forall|i: int| 0 <= i < self@.len() ==> column@[i] == self@[i].1,
    {
        proof {
            use_type_invariant(self);
        }
        self.value
    }

    /// The number of points as the engine is told it.
    pub fn length(&self) -> (n: u32)
        ensures
            n == wire_count(self@.len()),
    {
        wire_count_of(self.time_sec.len())
    }
}

/// One musical event.
pub struct NoteSegment<'a> {
    /// Start time in seconds, a binary64 bit pattern.
    pub start_sec: u64,
    /// Duration in seconds, a binary64 bit pattern.
    pub duration_sec: u64,
    /// MIDI note number.
    pub midi_note: i16,
    /// MIDI velocity.
    pub velocity: u8,
    /// Text sung on the note, if any.
    pub lyric: Option<&'a str>,
    /// A pitch curve that replaces the note's own pitch.
    pub f0_override: Option<&'a F0Curve<'a>>,
    /// An envelope curve that replaces the note's own envelope.
    pub env_override: Option<&'a EnvCurve<'a>>,
}

impl<'a> Default for NoteSegment<'a> {
    /// A note at time zero, of no length, with every number zero and nothing
    /// attached. The bit pattern zero is the number `0.0`.
    fn default() -> (note: Self)
        ensures
            note == (NoteSegment {
                start_sec: 0,
                duration_sec: 0,
                midi_note: 0,
                velocity: 0,
                lyric: None,
                f0_override: None,
                env_override: None,
            }),
    {
        NoteSegment {
            start_sec: 0,
            duration_sec: 0,
            midi_note: 0,
            velocity: 0,
            lyric: None,
            f0_override: None,
            env_override: None,
        }
    }
}

/// The full input of one render call.
pub struct RenderConfig<'a> {
    /// Output sample rate in hertz.
    pub sample_rate: u32,
    /// Number of interleaved output channels.
    pub channels: u32,
    /// Block size in frames.
    pub block_size: u32,
    /// Flag bits.
    pub flags: u32,
    /// The notes to render, in order.
    pub notes: &'a [NoteSegment<'a>],
}

impl<'a> RenderConfig<'a> {
    /// A request for the given notes in the given format, with block size zero
    /// and no flag set.
    pub fn new(sample_rate: u32, channels: u32, notes: &'a [NoteSegment<'a>]) -> (config: Self)
        ensures
            config == (RenderConfig { sample_rate, channels, block_size: 0, flags: 0, notes }),
    {
        RenderConfig { sample_rate, channels, block_size: 0, flags: 0, notes }
    }

    /// The number of notes as the engine is told it.
    pub fn note_count(&self) -> (n: u32)
        ensures
            n == wire_count(self.notes@.len()),
    {
        wire_count_of(self.notes.len())
    }
}

} // verus!
