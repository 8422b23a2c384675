use vstd::prelude::*;
use crate::envelope::{AdsrView, ADSR};
use crate::fixed::{SynthError, ONE};
use crate::mixer::{CompoundView, CompoundWave, DEFAULT_VOLUME, DEFAULT_VOLUME_CAP};
use crate::mono::{MonoView, MonoWave};
use crate::wave::{Wave, WaveShape, WaveView, DEFAULT_SAMPLE_FREQUENCY};

verus! {

/// A voice's sample source: one oscillator, or a mixer of several.
#[derive(Debug, Clone)]
pub enum SynthType {
    Mono(MonoWave),
    Multi(CompoundWave),
}

/// Every oscillator of `waves` with its frequency set to `frequency`.
pub open spec fn retuned(waves: Seq<WaveView>, frequency: int) -> Seq<WaveView> {
    Seq::new(waves.len(), |i: int| WaveView { frequency, ..waves[i] })
}

impl SynthType {
    pub open spec fn wf(&self) -> bool {
        match self {
            SynthType::Mono(m) => m.wf(),
            SynthType::Multi(c) => c.wf(),
        }
    }

    /// The sample that the next pull returns.
    pub open spec fn output(&self) -> int {
        match self {
            SynthType::Mono(m) => m@.output(),
            SynthType::Multi(c) => c@.output(),
        }
    }

    /// The sample rate, in hertz.
    pub open spec fn rate(&self) -> int {
        match self {
            SynthType::Mono(m) => m@.sample_frequency,
            SynthType::Multi(c) => c@.sample_frequency,
        }
    }

    /// `next` is `self` moved on by one sample.
    pub open spec fn advanced_to(&self, next: SynthType) -> bool {
        match (self, next) {
            (SynthType::Mono(a), SynthType::Mono(b)) => b@ == (MonoView {
                head: a@.next_head(),
                ..a@
            }),
            (SynthType::Multi(a), SynthType::Multi(b)) => b@ == (CompoundView {
                head: a@.next_head(),
                ..a@
            }),
            _ => false,
        }
    }

    /// `next` is `self` with every oscillator at `frequency`.
    pub open spec fn retuned_to(&self, frequency: int, next: SynthType) -> bool {
        match (self, next) {
            (SynthType::Mono(a), SynthType::Mono(b)) => b@ == (MonoView {
                wave: WaveView { frequency, ..a@.wave },
                ..a@
            }),
            (SynthType::Multi(a), SynthType::Multi(b)) => b@ == (CompoundView {
                waves: retuned(a@.waves, frequency),
                ..a@
            }),
            _ => false,
        }
    }

    /// `next` is `self` at the sample rate `rate`.
    pub open spec fn rerated_to(&self, rate: int, next: SynthType) -> bool {
        match (self, next) {
            (SynthType::Mono(a), SynthType::Mono(b)) => b@ == (MonoView {
                sample_frequency: rate,
                ..a@
            }),
            (SynthType::Multi(a), SynthType::Multi(b)) => b@ == (CompoundView {
                sample_frequency: rate,
                ..a@
            }),
            _ => false,
        }
    }

    /// The next sample of the source. There is always one.
    pub fn next_sample(&mut self) -> (r: Option<i64>)
        requires
            old(self).wf(),
        ensures
            final(self).wf(),
            r is Some,
            r->0 == old(self).output(),
            old(self).advanced_to(*final(self)),
    {
        match self {
            SynthType::Mono(mono) => mono.next(),
            SynthType::Multi(multi) => multi.next(),
        }
    }

    /// Tunes the source to `frequency` millihertz: the one oscillator, or
    /// every oscillator of the mixer.
    pub fn set_frequency(&mut self, frequency: u32)
        requires
            old(self).wf(),
        ensures
            final(self).wf(),
            old(self).retuned_to(frequency as int, *final(self)),
    {
        match self {
            SynthType::Mono(mono) => mono.set_frequency(frequency),
            SynthType::Multi(multi) => {
                let ghost c0 = multi@;
                let n: usize = multi.wave_count();
                let mut i: usize = 0;
                assert(c0.waves =~= retuned(c0.waves, frequency as int).subrange(0, 0)
                    + c0.waves.subrange(0, n as int));
                while i < n
                    invariant
                        multi.wf(),
                        0 <= i <= n,
                        n == c0.waves.len(),
                        multi@ == (CompoundView {
                            waves: retuned(c0.waves, frequency as int).subrange(0, i as int)
                                + c0.waves.subrange(i as int, n as int),
                            ..c0
                        }),
                    decreases n - i,
                {
                    let r = multi.set_frequency(frequency, i);
                    assert(r is Ok);
                    i = i + 1;
                    assert(multi@.waves =~= retuned(c0.waves, frequency as int).subrange(0, i as int)
                        + c0.waves.subrange(i as int, n as int));
                }
                assert(multi@.waves =~= retuned(c0.waves, frequency as int));
            },
        }
    }

    /// Sets the source's sample rate, keeping its sample counter. A zero rate
    /// is a configuration error and changes nothing.
    pub fn set_sample_rate(&mut self, rate: u32) -> (r: Result<(), SynthError>)
        requires
            old(self).wf(),
        ensures
            final(self).wf(),
            r is Ok <==> rate > 0,
            r is Err ==> r == Err::<(), SynthError>(SynthError::ConfigurationError),
            r is Err ==> old(self).rerated_to(old(self).rate(), *final(self)),
            r is Ok ==> old(self).rerated_to(rate as int, *final(self)),
    {
        match self {
            SynthType::Mono(mono) => mono.set_sample_rate(rate),
            SynthType::Multi(multi) => multi.set_sample_rate(rate),
        }
    }
}

/// What a `Voice` holds.
pub ghost struct VoiceView {
    /// The frequency of the note being played, in millihertz, if any.
    pub frequency: Option<u32>,
    pub note_on: bool,
    pub synth: SynthType,
    /// The envelope time that passes with each sample, in nanoseconds.
    pub sample_dt: int,
    pub envelope: AdsrView,
}

/// The nanoseconds of one sample at `rate` hertz, rounded down.
pub open spec fn sample_period(rate: int) -> int {
    1_000_000_000int / rate
}

/// The MIDI status byte of a note-on message on the first channel.
pub const NOTE_ON_STATUS: u8 = 144;

/// One voice: a sample source tuned to the note being played, shaped by an
/// envelope that the note's key drives.
#[derive(Debug, Clone)]
pub struct Voice {
    frequency: Option<u32>,
    note_on: bool,
    synth: SynthType,
    sample_dt: u64,
    envelope: ADSR,
}

impl View for Voice {
    type V = VoiceView;

    closed spec fn view(&self) -> VoiceView {
        VoiceView {
            frequency: self.frequency,
            note_on: self.note_on,
            synth: self.synth,
            sample_dt: self.sample_dt as int,
            envelope: self.envelope@,
        }
    }
}

impl Voice {
    pub open spec fn wf(&self) -> bool {
        &&& self@.synth.wf()
        &&& self@.envelope.valid()
    }

    /// A silent voice over `synth`, stepping its envelope by one sample of the
    /// source's rate each sample.
    pub fn new(synth: SynthType, envelope: ADSR) -> (r: Voice)
        requires
            synth.wf(),
            envelope@.valid(),
        ensures
            r.wf(),
            r@ == (VoiceView {
                frequency: None,
                note_on: false,
                synth,
                sample_dt: sample_period(synth.rate()),
                envelope: envelope@,
            }),
    {
        let rate: u32 = match &synth {
            SynthType::Mono(m) => m.sample_rate(),
            SynthType::Multi(c) => c.sample_rate(),
        };
        Voice {
            frequency: None,
            note_on: false,
            synth,
            sample_dt: 1_000_000_000 / (rate as u64),
            envelope,
        }
    }

    /// The source's sample rate, in hertz.
    pub fn sample_rate(&self) -> (r: u32)
        ensures
            r == self@.synth.rate(),
    {
        match &self.synth {
            SynthType::Mono(m) => m.sample_rate(),
            SynthType::Multi(c) => c.sample_rate(),
        }
    }

    /// Starts a note of `frequency` millihertz: the envelope's attack starts
    /// over.
    pub fn note_on(&mut self, frequency: u32)
        requires
            old(self).wf(),
        ensures
            final(self).wf(),
            final(self)@ == (VoiceView {
                frequency: Some(frequency),
                note_on: true,
                envelope: AdsrView { time: 0, key_on: true, ..old(self)@.envelope },
                ..old(self)@
            }),
    {
        self.note_on = true;
        self.frequency = Some(frequency);
        self.envelope.key_press();
    }

    /// Releases the note: the envelope's release starts over. The note's
    /// frequency stays, so the release is heard.
    pub fn note_off(&mut self)
        requires
            old(self).wf(),
        ensures
            final(self).wf(),
            final(self)@ == (VoiceView {
                note_on: false,
                envelope: AdsrView { time: 0, key_on: false, ..old(self)@.envelope },
                ..old(self)@
            }),
    {
        self.note_on = false;
        self.envelope.key_release();
    }

    /// Acts on a MIDI message: a note-on status starts a note of `frequency`
    /// millihertz, any other status releases the note.
    pub fn apply_midi(&mut self, status: u8, frequency: u32)
        requires
            old(self).wf(),
        ensures
            final(self).wf(),
            status == NOTE_ON_STATUS ==> final(self)@ == (VoiceView {
                frequency: Some(frequency),
                note_on: true,
                envelope: AdsrView { time: 0, key_on: true, ..old(self)@.envelope },
                ..old(self)@
            }),
            status != NOTE_ON_STATUS ==> final(self)@ == (VoiceView {
                note_on: false,
                envelope: AdsrView { time: 0, key_on: false, ..old(self)@.envelope },
                ..old(self)@
            }),
    {
        if status == NOTE_ON_STATUS {
            self.note_on(frequency);
        } else {
            self.note_off();
        }
    }

    /// Sets the sample rate of the source and of the envelope's step. A zero
    /// rate is a configuration error and changes nothing.
    pub fn set_sample_rate(&mut self, rate: u32) -> (r: Result<(), SynthError>)
        requires
            old(self).wf(),
        ensures
            final(self).wf(),
            r is Ok <==> rate > 0,
            r is Err ==> r == Err::<(), SynthError>(SynthError::ConfigurationError) && final(self)@
                == old(self)@,
            r is Ok ==> old(self)@.synth.rerated_to(rate as int, final(self)@.synth),
            r is Ok ==> final(self)@ == (VoiceView {
                synth: final(self)@.synth,
                sample_dt: sample_period(rate as int),
                ..old(self)@
            }),
    {
        if rate == 0 {
            return Err(SynthError::ConfigurationError);
        }
        let r = self.synth.set_sample_rate(rate);
        self.sample_dt = 1_000_000_000 / (rate as u64);
        r
    }

    /// The next sample of the voice. With no note it is 0 and nothing
    /// changes. Otherwise the source is tuned to the note, its next sample is
    /// scaled by the envelope, and the envelope moves on by one sample's time.
    pub fn next_sample(&mut self) -> (r: i64)
        requires
            old(self).wf(),
        ensures
            final(self).wf(),
            old(self)@.frequency is None ==> r == 0 && final(self)@ == old(self)@,
            old(self)@.frequency is Some ==> exists|tuned: SynthType|
                {
                    &&& old(self)@.synth.retuned_to(old(self)@.frequency->0 as int, tuned)
                    &&& tuned.advanced_to(final(self)@.synth)
                    &&& r == old(self)@.envelope.apply(tuned.output())
                },
            old(self)@.frequency is Some ==> final(self)@ == (VoiceView {
                synth: final(self)@.synth,
                envelope: AdsrView {
                    time: if old(self)@.envelope.time + old(self)@.sample_dt > u64::MAX {
                        u64::MAX as int
                    } else {
                        old(self)@.envelope.time + old(self)@.sample_dt
                    },
                    ..old(self)@.envelope
                },
                ..old(self)@
            }),
    {
        match self.frequency {
            Some(frequency) => {
                self.synth.set_frequency(frequency);
                let ghost tuned = self.synth;
                let sample = self.synth.next_sample();
                let out = match sample {
                    Some(s) => self.envelope.envelope_signal(s),
                    None => 0,
                };
                self.envelope.increment_time(self.sample_dt);
                assert(tuned.advanced_to(self@.synth));
                out
            },
            None => 0,
        }
    }
}

impl Default for Voice {
    /// A sine of 440 Hz at amplitude 0.1, at 44100 Hz, with the default
    /// envelope and no note.
    fn default() -> (r: Voice)
        ensures
            r.wf(),
            r@.frequency is None,
            !r@.note_on,
            r@.sample_dt == sample_period(44100),
            r@.synth.rate() == 44100,
            r@.envelope == (AdsrView {
                attack: 10_000_000,
                attack_amplitude: ONE as int,
                decay: 0,
                sustain: ONE as int,
                release: 10_000_000,
                time: 0,
                key_on: false,
            }),
            r@.synth is Mono,
            r@.synth->Mono_0@ == (MonoView {
                wave: WaveView {
                    shape: WaveShape::Sine,
                    frequency: 440_000,
                    amplitude: 100_000,
                    sample_frequency: DEFAULT_SAMPLE_FREQUENCY as int,
                    head: 0,
                },
                volume: DEFAULT_VOLUME as int,
                volume_cap: DEFAULT_VOLUME_CAP as int,
                sample_frequency: 44100,
                head: 0,
            }),
    {
        let mut mono = MonoWave::new(Wave::sine(440_000, 100_000));
        let r = mono.set_sample_rate(44100);
        assert(r is Ok);
        Voice::new(SynthType::Mono(mono), ADSR::default())
    }
}

} // verus!