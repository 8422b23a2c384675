use vstd::prelude::*;
use crate::fixed::{clamp, clamp_wide, scale, scale_wide, SynthError};
use crate::mixer::{DEFAULT_VOLUME, DEFAULT_VOLUME_CAP};
use crate::wave::{Wave, WaveView, DEFAULT_SAMPLE_FREQUENCY};

verus! {

/// What a `MonoWave` holds.
pub ghost struct MonoView {
    pub wave: WaveView,
    /// Output gain, in units of `ONE`.
    pub volume: int,
    /// The output is clamped to `[-volume_cap, volume_cap]`.
    pub volume_cap: int,
    /// In hertz.
    pub sample_frequency: int,
    /// Samples produced so far: the current time is `head / sample_frequency`.
    pub head: int,
}

impl MonoView {
    /// A value after gain and clamping.
    pub open spec fn amplified(self, sample: int) -> int {
        clamp(scale(sample, self.volume), self.volume_cap)
    }

    /// The sample that the next pull returns.
    pub open spec fn output(self) -> int {
        self.amplified(self.wave.value_at(self.head, self.sample_frequency))
    }

    /// The head after one more sample; it stops at its largest value.
    pub open spec fn next_head(self) -> int {
        if self.head < u64::MAX {
            self.head + 1
        } else {
            self.head
        }
    }
}

/// A single oscillator as a sample source, with a sample clock and output
/// gain and clamping.
#[derive(Debug, Clone, Copy)]
pub struct MonoWave {
    wave: Wave,
    volume: i32,
    volume_cap: u32,
    sample_frequency: u32,
    sample_head: u64,
}

impl View for MonoWave {
    type V = MonoView;

    closed spec fn view(&self) -> MonoView {
        MonoView {
            wave: self.wave@,
            volume: self.volume as int,
            volume_cap: self.volume_cap as int,
            sample_frequency: self.sample_frequency as int,
            head: self.sample_head as int,
        }
    }
}

impl MonoWave {
    /// The sample rate is not zero.
    pub open spec fn wf(&self) -> bool {
        self@.sample_frequency > 0
    }

    /// A source of `wave` at 48000 Hz with gain 1.0 and clamp 3.0.
    pub fn new(wave: Wave) -> (r: MonoWave)
        ensures
            r.wf(),
            r@ == (MonoView {
                wave: wave@,
                volume: DEFAULT_VOLUME as int,
                volume_cap: DEFAULT_VOLUME_CAP as int,
                sample_frequency: DEFAULT_SAMPLE_FREQUENCY as int,
                head: 0,
            }),
    {
        MonoWave {
            wave,
            volume: DEFAULT_VOLUME,
            volume_cap: DEFAULT_VOLUME_CAP,
            sample_frequency: DEFAULT_SAMPLE_FREQUENCY,
            sample_head: 0,
        }
    }

    /// Sets the sample rate, keeping the sample counter as it is. A zero rate
    /// is a configuration error.
    pub fn with_sample_frequency(self, sample_frequency: u32) -> (r: Result<MonoWave, SynthError>)
        requires
            self.wf(),
        ensures
            sample_frequency == 0 <==> r == Err::<MonoWave, SynthError>(
                SynthError::ConfigurationError,
            ),
            r is Ok <==> sample_frequency > 0,
            r is Ok ==> r->Ok_0.wf() && r->Ok_0@ == (MonoView {
                sample_frequency: sample_frequency as int,
                ..self@
            }),
    {
        let mut s = self;
        match s.set_sample_rate(sample_frequency) {
            Ok(()) => Ok(s),
            Err(e) => Err(e),
        }
    }

    /// Sets the sample rate in place; see `with_sample_frequency`. On error
    /// the source is left unchanged.
    pub fn set_sample_rate(&mut self, sample_frequency: u32) -> (r: Result<(), SynthError>)
        requires
            old(self).wf(),
        ensures
            final(self).wf(),
            sample_frequency == 0 <==> r == Err::<(), SynthError>(SynthError::ConfigurationError),
            r is Ok <==> sample_frequency > 0,
            r is Ok ==> final(self)@ == (MonoView {
                sample_frequency: sample_frequency as int,
                ..old(self)@
            }),
            r is Err ==> final(self)@ == old(self)@,
    {
        if sample_frequency == 0 {
            return Err(SynthError::ConfigurationError);
        }
        self.sample_frequency = sample_frequency;
        Ok(())
    }

    /// The sample after gain, clamped to `[-volume_cap, volume_cap]`.
    pub fn amplify_sample(&self, sample: i64) -> (r: i64)
        ensures
            r == self@.amplified(sample as int),
            -self@.volume_cap <= r <= self@.volume_cap,
    {
        proof {
            crate::fixed::lemma_wide_product(sample as int, self.volume as int);
        }
        let v: i128 = scale_wide(sample as i128, self.volume as i128);
        clamp_wide(v, self.volume_cap)
    }

    pub fn volume(&self) -> (r: i32)
        ensures
            r == self@.volume,
    {
        self.volume
    }

    pub fn set_volume(&mut self, volume: i32)
        ensures
            final(self)@ == (MonoView { volume: volume as int, ..old(self)@ }),
    {
        self.volume = volume;
    }

    pub fn volume_cap(&self) -> (r: u32)
        ensures
            r == self@.volume_cap,
    {
        self.volume_cap
    }

    pub fn set_volume_cap(&mut self, volume_cap: u32)
        ensures
            final(self)@ == (MonoView { volume_cap: volume_cap as int, ..old(self)@ }),
    {
        self.volume_cap = volume_cap;
    }

    /// The current time, `head / sample_frequency` seconds, in whole
    /// nanoseconds rounded down.
    pub fn head_time(&self) -> (r: u128)
        requires
            self.wf(),
        ensures
            r == self@.head * 1_000_000_000 / self@.sample_frequency,
    {
        (self.sample_head as u128) * 1_000_000_000 / (self.sample_frequency as u128)
    }

    /// The oscillator's frequency, in millihertz.
    pub fn frequency(&self) -> (r: u32)
        ensures
            r == self@.wave.frequency,
    {
        self.wave.frequency()
    }

    pub fn set_frequency(&mut self, frequency: u32)
        ensures
            final(self)@ == (MonoView {
                wave: WaveView { frequency: frequency as int, ..old(self)@.wave },
                ..old(self)@
            }),
    {
        self.wave.set_frequency(frequency);
    }

    /// The oscillator's value at the current time, after gain and clamping;
    /// the clock then moves on by one sample. There is always a next sample.
    pub fn next(&mut self) -> (r: Option<i64>)
        requires
            old(self).wf(),
        ensures
            final(self).wf(),
            r is Some,
            r->0 == old(self)@.output(),
            -old(self)@.volume_cap <= r->0 <= old(self)@.volume_cap,
            final(self)@ == (MonoView { head: old(self)@.next_head(), ..old(self)@ }),
    {
        let sample: i64 = self.wave.sample(self.sample_head, self.sample_frequency);
        let r = self.amplify_sample(sample);
        if self.sample_head < u64::MAX {
            self.sample_head = self.sample_head + 1;
        }
        Some(r)
    }

    /// The source is one channel.
    pub fn channels(&self) -> (r: u16)
        ensures
            r == 1,
    {
        1
    }

    /// In hertz.
    pub fn sample_rate(&self) -> (r: u32)
        ensures
            r == self@.sample_frequency,
    {
        self.sample_frequency
    }
}

} // verus!
