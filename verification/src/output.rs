//! What a render call gives back: a view onto the samples and their format.

use vstd::prelude::*;

verus! {

/// The mathematical content of a [`RenderResult`].
pub struct RenderResultView {
    /// The samples of the engine's buffer, or `None` where the engine handed
    /// out no buffer.
    pub buffer: Option<Seq<u32>>,
    /// Number of frames; a frame holds one sample for each channel.
    pub frames: nat,
    /// Number of interleaved channels.
    pub channels: nat,
    /// Sample rate in hertz.
    pub sample_rate: nat,
}

/// The output of one render call.
///
/// The samples are binary32 numbers, carried as their bit patterns, frame
/// after frame with the channels of a frame side by side. They stay in the
/// engine's buffer: the result only borrows them, for as long as `'a` lasts.
///
/// Invariant: a buffer, where there is one, holds `frames * channels` samples.
pub struct RenderResult<'a> {
    samples: Option<&'a [u32]>,
    frames: u64,
    channels: u32,
    sample_rate: u32,
}

impl<'a> View for RenderResult<'a> {
    type V = RenderResultView;

    closed spec fn view(&self) -> RenderResultView {
        RenderResultView {
            buffer: match self.samples {
                Some(s) => Some(s@),
                None => None,
            },
            frames: self.frames as nat,
            channels: self.channels as nat,
            sample_rate: self.sample_rate as nat,
        }
    }
}

/// The number of samples in `frames` frames of `channels` channels, or `None`
/// where that number is beyond what a slice can hold.
pub fn sample_count(frames: u64, channels: u32) -> (count: Option<usize>)
    ensures
        match count {
            Some(n) => n == frames * channels,
            None => frames * channels > usize::MAX,
        },
{
    assert(frames * channels <= 0xffff_ffff_ffff_ffff * 0xffff_ffff) by (nonlinear_arith)
        requires
            0 <= frames <= 0xffff_ffff_ffff_ffff,
            0 <= channels <= 0xffff_ffff,
    ;
    let total: u128 = (frames as u128) * (channels as u128);
    if total <= usize::MAX as u128 {
        Some(total as usize)
    } else {
        None
    }
}

impl<'a> RenderResult<'a> {
    #[verifier::type_invariant]
    spec fn sized(&self) -> bool {
        self.samples matches Some(s) ==> s@.len() == self.frames * self.channels
    }

    /// Puts a result together from what the engine wrote into its output
    /// slot. `samples` is `None` where the engine handed out no buffer.
    pub fn new(samples: Option<&'a [u32]>, frames: u64, channels: u32, sample_rate: u32) -> (result:
        Self)
        requires
            samples matches Some(s) ==> s@.len() == frames * channels,
        ensures
            result@ == (RenderResultView {
                buffer: match samples {
                    Some(s) => Some(s@),
                    None => None,
                },
                frames: frames as nat,
                channels: channels as nat,
                sample_rate: sample_rate as nat,
            }),
    {
        RenderResult { samples, frames, channels, sample_rate }
    }

    /// The rendered samples: `None` where there is no buffer or no frame, and
    /// else all `frames * channels` samples of the buffer.
    pub fn pcm(&self) -> (samples: Option<&'a [u32]>)
        ensures
            samples is Some <==> self@.buffer is Some && self@.frames != 0,
            samples matches Some(s) ==> self@.buffer == Some(s@) && s@.len() == self@.frames
                * self@.channels,
    {
        proof {
            use_type_invariant(self);
        }
        if self.frames == 0 {
            None
        } else {
            self.samples
        }
    }

    /// Number of frames.
    pub fn frames(&self) -> (n: u64)
        ensures
            n == self@.frames,
    {
        self.frames
    }

    /// Number of interleaved channels.
    pub fn channels(&self) -> (n: u32)
        ensures
            n == self@.channels,
    {
        self.channels
    }

    /// Sample rate in hertz.
    pub fn sample_rate(&self) -> (n: u32)
        ensures
            n == self@.sample_rate,
    {
        self.sample_rate
    }
}

} // verus!
