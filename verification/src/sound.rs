//! Sound: the closed set of sample formats with their native constants,
//! and digitized sounds built from sample buffers held as plain values.

use vstd::prelude::*;
use vstd::slice::slice_to_vec;

verus! {

/// The total number of sound channels supported by the engine.
pub const SOUND_CHANNELS: u32 = 16;

/// A sound mode: a sample width, a channel layout and a sample rate.
///
/// Each variant stands for one native sound mode constant; the mapping is
/// one-to-one in both directions.
#[derive(Debug, Copy, Clone, Eq, Hash, PartialEq, Structural)]
pub enum SoundMode {
    /// 8-bit mono, 5000 Hz
    Mono8bit5000,
    /// 8-bit mono, 8000 Hz
    Mono8bit8000,
    /// 8-bit mono, 11025 Hz
    Mono8bit11025,
    /// 8-bit mono, 16000 Hz
    Mono8bit16000,
    /// 8-bit mono, 22050 Hz
    Mono8bit22050,
    /// 8-bit mono, 32000 Hz
    Mono8bit32000,
    /// 8-bit mono, 44100 Hz
    Mono8bit44100,
    /// 16-bit mono, 5000 Hz
    Mono16Bit5000,
    /// 16-bit mono, 8000 Hz
    Mono16Bit8000,
    /// 16-bit mono, 11025 Hz
    Mono16Bit11025,
    /// 16-bit mono, 16000 Hz
    Mono16Bit16000,
    /// 16-bit mono, 22050 Hz
    Mono16Bit22050,
    /// 16-bit mono, 32000 Hz
    Mono16Bit32000,
    /// 16-bit mono, 44100 Hz
    Mono16Bit44100,
    /// 8-bit stereo, 5000 Hz
    Stereo8Bit5000,
    /// 8-bit stereo, 8000 Hz
    Stereo8Bit8000,
    /// 8-bit stereo, 11025 Hz
    Stereo8Bit11025,
    /// 8-bit stereo, 16000 Hz
    Stereo8Bit16000,
    /// 8-bit stereo, 22050 Hz
    Stereo8Bit22050,
    /// 8-bit stereo, 32000 Hz
    Stereo8Bit32000,
    /// 8-bit stereo, 44100 Hz
    Stereo8Bit44100,
    /// 16-bit stereo, 5000 Hz
    Stereo16Bit5000,
    /// 16-bit stereo, 8000 Hz
    Stereo16Bit8000,
    /// 16-bit stereo, 11025 Hz
    Stereo16Bit11025,
    /// 16-bit stereo, 16000 Hz
    Stereo16Bit16000,
    /// 16-bit stereo, 22050 Hz
    Stereo16Bit22050,
    /// 16-bit stereo, 32000 Hz
    Stereo16Bit32000,
    /// 16-bit stereo, 44100 Hz
    Stereo16Bit44100,
}

impl SoundMode {
    /// The native integer constant for this mode: the modes are numbered
    /// consecutively from zero in declaration order.
    pub open spec fn native(self) -> u32 {
        match self {
            SoundMode::Mono8bit5000 => 0,
            SoundMode::Mono8bit8000 => 1,
            SoundMode::Mono8bit11025 => 2,
            SoundMode::Mono8bit16000 => 3,
            SoundMode::Mono8bit22050 => 4,
            SoundMode::Mono8bit32000 => 5,
            SoundMode::Mono8bit44100 => 6,
            SoundMode::Mono16Bit5000 => 7,
            SoundMode::Mono16Bit8000 => 8,
            SoundMode::Mono16Bit11025 => 9,
            SoundMode::Mono16Bit16000 => 10,
            SoundMode::Mono16Bit22050 => 11,
            SoundMode::Mono16Bit32000 => 12,
            SoundMode::Mono16Bit44100 => 13,
            SoundMode::Stereo8Bit5000 => 14,
            SoundMode::Stereo8Bit8000 => 15,
            SoundMode::Stereo8Bit11025 => 16,
            SoundMode::Stereo8Bit16000 => 17,
            SoundMode::Stereo8Bit22050 => 18,
            SoundMode::Stereo8Bit32000 => 19,
            SoundMode::Stereo8Bit44100 => 20,
            SoundMode::Stereo16Bit5000 => 21,
            SoundMode::Stereo16Bit8000 => 22,
            SoundMode::Stereo16Bit11025 => 23,
            SoundMode::Stereo16Bit16000 => 24,
            SoundMode::Stereo16Bit22050 => 25,
            SoundMode::Stereo16Bit32000 => 26,
            SoundMode::Stereo16Bit44100 => 27,
        }
    }

    /// The mode a native constant stands for, or `None` where the
    /// constant names no mode.
    pub open spec fn mode_of_native(v: u32) -> Option<SoundMode> {
        if v == 0 {
            Some(SoundMode::Mono8bit5000)
        } else if v == 1 {
            Some(SoundMode::Mono8bit8000)
        } else if v == 2 {
            Some(SoundMode::Mono8bit11025)
        } else if v == 3 {
            Some(SoundMode::Mono8bit16000)
        } else if v == 4 {
            Some(SoundMode::Mono8bit22050)
        } else if v == 5 {
            Some(SoundMode::Mono8bit32000)
        } else if v == 6 {
            Some(SoundMode::Mono8bit44100)
        } else if v == 7 {
            Some(SoundMode::Mono16Bit5000)
        } else if v == 8 {
            Some(SoundMode::Mono16Bit8000)
        } else if v == 9 {
            Some(SoundMode::Mono16Bit11025)
        } else if v == 10 {
            Some(SoundMode::Mono16Bit16000)
        } else if v == 11 {
            Some(SoundMode::Mono16Bit22050)
        } else if v == 12 {
            Some(SoundMode::Mono16Bit32000)
        } else if v == 13 {
            Some(SoundMode::Mono16Bit44100)
        } else if v == 14 {
            Some(SoundMode::Stereo8Bit5000)
        } else if v == 15 {
            Some(SoundMode::Stereo8Bit8000)
        } else if v == 16 {
            Some(SoundMode::Stereo8Bit11025)
        } else if v == 17 {
            Some(SoundMode::Stereo8Bit16000)
        } else if v == 18 {
            Some(SoundMode::Stereo8Bit22050)
        } else if v == 19 {
            Some(SoundMode::Stereo8Bit32000)
        } else if v == 20 {
            Some(SoundMode::Stereo8Bit44100)
        } else if v == 21 {
            Some(SoundMode::Stereo16Bit5000)
        } else if v == 22 {
            Some(SoundMode::Stereo16Bit8000)
        } else if v == 23 {
            Some(SoundMode::Stereo16Bit11025)
        } else if v == 24 {
            Some(SoundMode::Stereo16Bit16000)
        } else if v == 25 {
            Some(SoundMode::Stereo16Bit22050)
        } else if v == 26 {
            Some(SoundMode::Stereo16Bit32000)
        } else if v == 27 {
            Some(SoundMode::Stereo16Bit44100)
        } else {
            None
        }
    }

    /// The sample width of this mode, in bits: 8 or 16.
    pub open spec fn bits_spec(self) -> u32 {
        match self {
            SoundMode::Mono8bit5000
            | SoundMode::Mono8bit8000
            | SoundMode::Mono8bit11025
            | SoundMode::Mono8bit16000
            | SoundMode::Mono8bit22050
            | SoundMode::Mono8bit32000
            | SoundMode::Mono8bit44100
            | SoundMode::Stereo8Bit5000
            | SoundMode::Stereo8Bit8000
            | SoundMode::Stereo8Bit11025
            | SoundMode::Stereo8Bit16000
            | SoundMode::Stereo8Bit22050
            | SoundMode::Stereo8Bit32000
            | SoundMode::Stereo8Bit44100 => 8,
            _ => 16,
        }
    }

    /// The channel count of this mode: 1 for mono, 2 for stereo.
    pub open spec fn channels_spec(self) -> u32 {
        match self {
            SoundMode::Mono8bit5000
            | SoundMode::Mono8bit8000
            | SoundMode::Mono8bit11025
            | SoundMode::Mono8bit16000
            | SoundMode::Mono8bit22050
            | SoundMode::Mono8bit32000
            | SoundMode::Mono8bit44100
            | SoundMode::Mono16Bit5000
            | SoundMode::Mono16Bit8000
            | SoundMode::Mono16Bit11025
            | SoundMode::Mono16Bit16000
            | SoundMode::Mono16Bit22050
            | SoundMode::Mono16Bit32000
            | SoundMode::Mono16Bit44100 => 1,
            _ => 2,
        }
    }

    /// The sample rate of this mode, in Hz.
    pub open spec fn sample_rate_spec(self) -> u32 {
        match self {
            SoundMode::Mono8bit5000 | SoundMode::Mono16Bit5000 | SoundMode::Stereo8Bit5000
            | SoundMode::Stereo16Bit5000 => 5000,
            SoundMode::Mono8bit8000 | SoundMode::Mono16Bit8000 | SoundMode::Stereo8Bit8000
            | SoundMode::Stereo16Bit8000 => 8000,
            SoundMode::Mono8bit11025 | SoundMode::Mono16Bit11025 | SoundMode::Stereo8Bit11025
            | SoundMode::Stereo16Bit11025 => 11025,
            SoundMode::Mono8bit16000 | SoundMode::Mono16Bit16000 | SoundMode::Stereo8Bit16000
            | SoundMode::Stereo16Bit16000 => 16000,
            SoundMode::Mono8bit22050 | SoundMode::Mono16Bit22050 | SoundMode::Stereo8Bit22050
            | SoundMode::Stereo16Bit22050 => 22050,
            SoundMode::Mono8bit32000 | SoundMode::Mono16Bit32000 | SoundMode::Stereo8Bit32000
            | SoundMode::Stereo16Bit32000 => 32000,
            _ => 44100,
        }
    }

    /// The native integer constant this mode maps onto.
    pub fn to_native(self) -> (v: u32)
        ensures
            v == self.native(),
    {
        match self {
            SoundMode::Mono8bit5000 => 0,
            SoundMode::Mono8bit8000 => 1,
            SoundMode::Mono8bit11025 => 2,
            SoundMode::Mono8bit16000 => 3,
            SoundMode::Mono8bit22050 => 4,
            SoundMode::Mono8bit32000 => 5,
            SoundMode::Mono8bit44100 => 6,
            SoundMode::Mono16Bit5000 => 7,
            SoundMode::Mono16Bit8000 => 8,
            SoundMode::Mono16Bit11025 => 9,
            SoundMode::Mono16Bit16000 => 10,
            SoundMode::Mono16Bit22050 => 11,
            SoundMode::Mono16Bit32000 => 12,
            SoundMode::Mono16Bit44100 => 13,
            SoundMode::Stereo8Bit5000 => 14,
            SoundMode::Stereo8Bit8000 => 15,
            SoundMode::Stereo8Bit11025 => 16,
            SoundMode::Stereo8Bit16000 => 17,
            SoundMode::Stereo8Bit22050 => 18,
            SoundMode::Stereo8Bit32000 => 19,
            SoundMode::Stereo8Bit44100 => 20,
            SoundMode::Stereo16Bit5000 => 21,
            SoundMode::Stereo16Bit8000 => 22,
            SoundMode::Stereo16Bit11025 => 23,
            SoundMode::Stereo16Bit16000 => 24,
            SoundMode::Stereo16Bit22050 => 25,
            SoundMode::Stereo16Bit32000 => 26,
            SoundMode::Stereo16Bit44100 => 27,
        }
    }

    /// The mode a native constant stands for; `None` exactly where the
    /// constant names no mode.
    pub fn from_native(v: u32) -> (r: Option<SoundMode>)
        ensures
            r == SoundMode::mode_of_native(v),
    {
        if v == 0 {
            Some(SoundMode::Mono8bit5000)
        } else if v == 1 {
            Some(SoundMode::Mono8bit8000)
        } else if v == 2 {
            Some(SoundMode::Mono8bit11025)
        } else if v == 3 {
            Some(SoundMode::Mono8bit16000)
        } else if v == 4 {
            Some(SoundMode::Mono8bit22050)
        } else if v == 5 {
            Some(SoundMode::Mono8bit32000)
        } else if v == 6 {
            Some(SoundMode::Mono8bit44100)
        } else if v == 7 {
            Some(SoundMode::Mono16Bit5000)
        } else if v == 8 {
            Some(SoundMode::Mono16Bit8000)
        } else if v == 9 {
            Some(SoundMode::Mono16Bit11025)
        } else if v == 10 {
            Some(SoundMode::Mono16Bit16000)
        } else if v == 11 {
            Some(SoundMode::Mono16Bit22050)
        } else if v == 12 {
            Some(SoundMode::Mono16Bit32000)
        } else if v == 13 {
            Some(SoundMode::Mono16Bit44100)
        } else if v == 14 {
            Some(SoundMode::Stereo8Bit5000)
        } else if v == 15 {
            Some(SoundMode::Stereo8Bit8000)
        } else if v == 16 {
            Some(SoundMode::Stereo8Bit11025)
        } else if v == 17 {
            Some(SoundMode::Stereo8Bit16000)
        } else if v == 18 {
            Some(SoundMode::Stereo8Bit22050)
        } else if v == 19 {
            Some(SoundMode::Stereo8Bit32000)
        } else if v == 20 {
            Some(SoundMode::Stereo8Bit44100)
        } else if v == 21 {
            Some(SoundMode::Stereo16Bit5000)
        } else if v == 22 {
            Some(SoundMode::Stereo16Bit8000)
        } else if v == 23 {
            Some(SoundMode::Stereo16Bit11025)
        } else if v == 24 {
            Some(SoundMode::Stereo16Bit16000)
        } else if v == 25 {
            Some(SoundMode::Stereo16Bit22050)
        } else if v == 26 {
            Some(SoundMode::Stereo16Bit32000)
        } else if v == 27 {
            Some(SoundMode::Stereo16Bit44100)
        } else {
            None
        }
    }

    /// The sample width of this mode, in bits: 8 or 16.
    pub fn bits(self) -> (b: u32)
        ensures
            b == self.bits_spec(),
    {
        match self {
            SoundMode::Mono8bit5000
            | SoundMode::Mono8bit8000
            | SoundMode::Mono8bit11025
            | SoundMode::Mono8bit16000
            | SoundMode::Mono8bit22050
            | SoundMode::Mono8bit32000
            | SoundMode::Mono8bit44100
            | SoundMode::Stereo8Bit5000
            | SoundMode::Stereo8Bit8000
            | SoundMode::Stereo8Bit11025
            | SoundMode::Stereo8Bit16000
            | SoundMode::Stereo8Bit22050
            | SoundMode::Stereo8Bit32000
            | SoundMode::Stereo8Bit44100 => 8,
            _ => 16,
        }
    }

    /// The channel count of this mode: 1 for mono, 2 for stereo.
    pub fn channels(self) -> (c: u32)
        ensures
            c == self.channels_spec(),
    {
        match self {
            SoundMode::Mono8bit5000
            | SoundMode::Mono8bit8000
            | SoundMode::Mono8bit11025
            | SoundMode::Mono8bit16000
            | SoundMode::Mono8bit22050
            | SoundMode::Mono8bit32000
            | SoundMode::Mono8bit44100
            | SoundMode::Mono16Bit5000
            | SoundMode::Mono16Bit8000
            | SoundMode::Mono16Bit11025
            | SoundMode::Mono16Bit16000
            | SoundMode::Mono16Bit22050
            | SoundMode::Mono16Bit32000
            | SoundMode::Mono16Bit44100 => 1,
            _ => 2,
        }
    }

    /// The sample rate of this mode, in Hz.
    pub fn sample_rate(self) -> (r: u32)
        ensures
            r == self.sample_rate_spec(),
    {
        match self {
            SoundMode::Mono8bit5000 | SoundMode::Mono16Bit5000 | SoundMode::Stereo8Bit5000
            | SoundMode::Stereo16Bit5000 => 5000,
            SoundMode::Mono8bit8000 | SoundMode::Mono16Bit8000 | SoundMode::Stereo8Bit8000
            | SoundMode::Stereo16Bit8000 => 8000,
            SoundMode::Mono8bit11025 | SoundMode::Mono16Bit11025 | SoundMode::Stereo8Bit11025
            | SoundMode::Stereo16Bit11025 => 11025,
            SoundMode::Mono8bit16000 | SoundMode::Mono16Bit16000 | SoundMode::Stereo8Bit16000
            | SoundMode::Stereo16Bit16000 => 16000,
            SoundMode::Mono8bit22050 | SoundMode::Mono16Bit22050 | SoundMode::Stereo8Bit22050
            | SoundMode::Stereo16Bit22050 => 22050,
            SoundMode::Mono8bit32000 | SoundMode::Mono16Bit32000 | SoundMode::Stereo8Bit32000
            | SoundMode::Stereo16Bit32000 => 32000,
            _ => 44100,
        }
    }
}

/// Every sound mode comes back from its own native constant: the mapping
/// onto the native constants is one-to-one.
pub proof fn lemma_sound_mode_native_round_trip(m: SoundMode)
    ensures
        SoundMode::mode_of_native(m.native()) == Some(m),
{
}

/// No two distinct sound modes share a native constant: the mapping is
/// one-to-one.
pub proof fn lemma_sound_mode_native_injective(a: SoundMode, b: SoundMode)
    requires
        a.native() == b.native(),
    ensures
        a == b,
{
    lemma_sound_mode_native_round_trip(a);
    lemma_sound_mode_native_round_trip(b);
}

/// A sound object: a digitized sound held as plain values, with its
/// channel layout, sample rate and sample buffer owned by the object.
#[derive(Debug)]
pub struct Sound {
    channels: u32,
    sample_rate: u32,
    samples: Vec<u16>,
}

impl Sound {
    /// The number of interleaved channels of the sound.
    pub closed spec fn spec_channels(self) -> u32 {
        self.channels
    }

    /// The sample rate of the sound, in Hz.
    pub closed spec fn spec_sample_rate(self) -> u32 {
        self.sample_rate
    }

    /// The interleaved sample buffer of the sound.
    pub closed spec fn spec_samples(self) -> Seq<u16> {
        self.samples@
    }

    /// Creates a new sound from a buffer.
    ///
    /// Note that this copies the samples internally,
    /// so there is effectively no lifetime dependency with the buffer.
    /// The length bound is the native layer's: it takes the sample count
    /// as a signed 32-bit number.
    pub fn create_sound(channels: u32, sample_rate: u32, samples: &[u16]) -> (s: Sound)
        requires
            samples@.len() <= 0x7fff_ffff,
        ensures
            s.spec_channels() == channels,
            s.spec_sample_rate() == sample_rate,
            s.spec_samples() == samples@,
    {
        Sound { channels, sample_rate, samples: slice_to_vec(samples) }
    }

    /// The number of interleaved channels of the sound.
    pub fn channels(&self) -> (c: u32)
        ensures
            c == self.spec_channels(),
    {
        self.channels
    }

    /// The sample rate of the sound, in Hz.
    pub fn sample_rate(&self) -> (r: u32)
        ensures
            r == self.spec_sample_rate(),
    {
        self.sample_rate
    }

    /// The interleaved sample buffer of the sound.
    pub fn samples(&self) -> (s: &[u16])
        ensures
            s@ == self.spec_samples(),
    {
        self.samples.as_slice()
    }
}

} // verus!
