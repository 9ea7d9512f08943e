//! The audio format of every recording, and the frame: one fixed-size slice
//! of interleaved stereo samples.

use vstd::prelude::*;

verus! {

/// Channels in every recording (stereo).
pub const CHANNELS: u16 = 2;

/// Sample instants per second and channel.
pub const SAMPLE_RATE: u32 = 44100;

/// Bits of one sample of one channel.
pub const BITS_PER_SAMPLE: u16 = 16;

/// Sample instants that one frame covers.
pub const FRAME_TICKS: usize = 1024;

/// Interleaved sample values in one frame: `FRAME_TICKS` for each channel.
pub const FRAME_SAMPLES: usize = 2048;

/// Bytes that one frame takes in the data chunk of a WAV file.
pub const FRAME_BYTES: u32 = 4096;

/// One fixed-size slice of captured audio: `FRAME_SAMPLES` signed 16-bit
/// values, left and right channel interleaved.
#[derive(Debug, Clone, PartialEq, Eq)]
pub struct AudioFrame {
    samples: Vec<i16>,
}

impl View for AudioFrame {
    type V = Seq<i16>;

    closed spec fn view(&self) -> Seq<i16> {
        self.samples@
    }
}

impl AudioFrame {
    /// A frame always holds exactly `FRAME_SAMPLES` values.
    pub open spec fn wf(&self) -> bool {
        self@.len() == FRAME_SAMPLES
    }

    /// Wraps `samples` as a frame. `None` unless there are exactly
    /// `FRAME_SAMPLES` of them.
    pub fn new(samples: Vec<i16>) -> (r: Option<AudioFrame>)
        ensures
            r is Some <==> samples@.len() == FRAME_SAMPLES,
            r matches Some(f) ==> f@ == samples@ && f.wf(),
    {
        if samples.len() == FRAME_SAMPLES {
            Some(AudioFrame { samples })
        } else {
            None
        }
    }

    /// A frame of silence.
    pub fn silence() -> (f: AudioFrame)
        ensures
            f.wf(),
            forall|i: int| 0 <= i < f@.len() ==> f@[i] == 0,
    {
        let mut samples: Vec<i16> = Vec::new();
        let mut n: usize = 0;
        while n < FRAME_SAMPLES
            invariant
                n <= FRAME_SAMPLES,
                samples@.len() == n,
                forall|i: int| 0 <= i < samples@.len() ==> samples@[i] == 0,
            decreases FRAME_SAMPLES - n,
        {
            samples.push(0);
            n = n + 1;
        }
        AudioFrame { samples }
    }

    /// The interleaved samples, in capture order.
    pub fn samples(&self) -> (s: &Vec<i16>)
        ensures
            s@ == self@,
    {
        &self.samples
    }

    /// Gives the samples back.
    pub fn into_samples(self) -> (s: Vec<i16>)
        ensures
            s@ == self@,
    {
        self.samples
    }
}

} // verus!
