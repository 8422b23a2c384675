use vstd::prelude::*;
use crate::fixed::{abs, clamp, clamp_wide, scale, scale_wide, SynthError, WIDE};
use crate::wave::{lemma_wave_value_bound, Wave, WaveView, DEFAULT_SAMPLE_FREQUENCY};

verus! {

/// How an oscillator's output enters a mix.
#[derive(Debug, Clone, Copy, PartialEq, Eq, Structural)]
pub enum WaveOperation {
    Addative,
    Subtractive,
    Mute,
}

/// What one oscillator adds to a mix at the time `ticks / rate` seconds.
pub open spec fn contribution(w: WaveView, op: WaveOperation, ticks: int, rate: int) -> int {
    match op {
        WaveOperation::Addative => w.value_at(ticks, rate),
        WaveOperation::Subtractive => -w.value_at(ticks, rate),
        WaveOperation::Mute => 0,
    }
}

/// The sum of the contributions of the first `n` oscillators.
pub open spec fn mix_sum(
    waves: Seq<WaveView>,
    ops: Seq<WaveOperation>,
    n: int,
    ticks: int,
    rate: int,
) -> int
    decreases n,
{
    if n <= 0 {
        0
    } else {
        mix_sum(waves, ops, n - 1, ticks, rate) + contribution(waves[n - 1], ops[n - 1], ticks, rate)
    }
}

/// The largest magnitude of an `i32` amplitude.
pub open spec fn amp_bound() -> int {
    0x8000_0000
}

proof fn lemma_mix_sum_bound(waves: Seq<WaveView>, ops: Seq<WaveOperation>, n: int, ticks: int, rate: int)
    requires
        0 <= n <= waves.len(),
        rate > 0,
        ticks >= 0,
        forall|i: int|
            0 <= i < waves.len() ==> (#[trigger] waves[i]).frequency >= 0 && abs(
                waves[i].amplitude,
            ) <= amp_bound(),
    ensures
        abs(mix_sum(waves, ops, n, ticks, rate)) <= n * amp_bound(),
    decreases n,
{
    if n > 0 {
        lemma_mix_sum_bound(waves, ops, n - 1, ticks, rate);
        lemma_wave_value_bound(waves[n - 1], ticks, rate);
    }
}

/// A mixer's output never leaves `[-volume_cap, volume_cap]`, whatever its
/// oscillators, their operations, the gain and the time.
pub proof fn lemma_output_clipped(c: CompoundView)
    requires
        c.volume_cap >= 0,
    ensures
        -c.volume_cap <= c.output() <= c.volume_cap,
{
}

/// Two oscillators of the same shape, frequency and amplitude, one added and
/// one subtracted, cancel exactly: the mixer outputs 0 at every time.
pub proof fn lemma_cancelling_pair(c: CompoundView)
    requires
        c.volume_cap >= 0,
        c.waves.len() == 2,
        c.ops =~= seq![WaveOperation::Addative, WaveOperation::Subtractive],
        c.waves[0].shape == c.waves[1].shape,
        c.waves[0].frequency == c.waves[1].frequency,
        c.waves[0].amplitude == c.waves[1].amplitude,
    ensures
        c.output() == 0,
{
    assert(c.waves[0].value_at(c.head, c.sample_frequency) == c.waves[1].value_at(
        c.head,
        c.sample_frequency,
    ));
    assert(c.raw_mix() == 0) by {
        reveal_with_fuel(mix_sum, 3);
    }
    crate::fixed::lemma_scale_bound(0, c.volume);
}

/// What a `CompoundWave` holds.
pub ghost struct CompoundView {
    pub waves: Seq<WaveView>,
    pub ops: Seq<WaveOperation>,
    /// Output gain, in units of `ONE`.
    pub volume: int,
    /// The output is clamped to `[-volume_cap, volume_cap]`.
    pub volume_cap: int,
    /// In hertz.
    pub sample_frequency: int,
    /// Samples produced so far: the current time is `head / sample_frequency`.
    pub head: int,
}

impl CompoundView {
    /// The mix of all oscillators at the current time, before gain.
    pub open spec fn raw_mix(self) -> int {
        mix_sum(self.waves, self.ops, self.waves.len() as int, self.head, self.sample_frequency)
    }

    /// A value after gain and clamping.
    pub open spec fn amplified(self, sample: int) -> int {
        clamp(scale(sample, self.volume), self.volume_cap)
    }

    /// The sample that the next pull returns.
    pub open spec fn output(self) -> int {
        self.amplified(self.raw_mix())
    }

    /// The head after one more sample; it stops at its largest value.
    pub open spec fn next_head(self) -> int {
        if self.head < u64::MAX {
            self.head + 1
        } else {
            self.head
        }
    }
}

/// A bank of oscillators, each paired with the operation by which it enters
/// the mix, with a sample clock and output gain and clamping.
#[derive(Debug, Clone)]
pub struct CompoundWave {
    waves: Vec<Wave>,
    wave_ops: Vec<WaveOperation>,
    volume: i32,
    volume_cap: u32,
    sample_frequency: u32,
    sample_head: u64,
}

impl View for CompoundWave {
    type V = CompoundView;

    closed spec fn view(&self) -> CompoundView {
        CompoundView {
            waves: self.waves@.map_values(|w: Wave| w@),
            ops: self.wave_ops@,
            volume: self.volume as int,
            volume_cap: self.volume_cap as int,
            sample_frequency: self.sample_frequency as int,
            head: self.sample_head as int,
        }
    }
}

/// The gain that a new mixer applies: 1.0.
pub const DEFAULT_VOLUME: i32 = 1_000_000;

/// The clamp that a new mixer applies: 3.0.
pub const DEFAULT_VOLUME_CAP: u32 = 3_000_000;

impl CompoundWave {
    /// Every oscillator has its operation, and the sample rate is not zero.
    pub open spec fn wf(&self) -> bool {
        &&& self@.waves.len() == self@.ops.len()
        &&& self@.sample_frequency > 0
    }

    proof fn lemma_view_facts(&self)
        ensures
            self@.waves.len() == self.waves@.len(),
            forall|i: int|
                0 <= i < self.waves@.len() ==> #[trigger] self@.waves[i] == self.waves@[i]@,
            forall|i: int|
                0 <= i < self.waves@.len() ==> (#[trigger] self@.waves[i]).frequency >= 0 && abs(
                    self@.waves[i].amplitude,
                ) <= amp_bound(),
    {
        assert forall|i: int| 0 <= i < self.waves@.len() implies (#[trigger] self@.waves[i]).frequency
            >= 0 && abs(self@.waves[i].amplitude) <= amp_bound() by {
            self.waves@[i].lemma_view_range();
        }
    }

    /// An empty bank at 48000 Hz with gain 1.0 and clamp 3.0.
    pub fn new() -> (r: CompoundWave)
        ensures
            r.wf(),
            r@ == (CompoundView {
                waves: Seq::empty(),
                ops: Seq::empty(),
                volume: DEFAULT_VOLUME as int,
                volume_cap: DEFAULT_VOLUME_CAP as int,
                sample_frequency: DEFAULT_SAMPLE_FREQUENCY as int,
                head: 0,
            }),
    {
        let r = CompoundWave {
            waves: Vec::new(),
            wave_ops: Vec::new(),
            volume: DEFAULT_VOLUME,
            volume_cap: DEFAULT_VOLUME_CAP,
            sample_frequency: DEFAULT_SAMPLE_FREQUENCY,
            sample_head: 0,
        };
        assert(r@.waves =~= Seq::empty());
        r
    }

    /// Sets the sample rate, keeping the sample counter as it is (so the
    /// current time jumps to `head / sample_frequency`). A zero rate is a
    /// configuration error.
    pub fn with_sample_frequency(self, sample_frequency: u32) -> (r: Result<
        CompoundWave,
        SynthError,
    >)
        requires
            self.wf(),
        ensures
            sample_frequency == 0 <==> r == Err::<CompoundWave, SynthError>(
                SynthError::ConfigurationError,
            ),
            r is Ok <==> sample_frequency > 0,
            r is Ok ==> r->Ok_0.wf() && r->Ok_0@ == (CompoundView {
                sample_frequency: sample_frequency as int,
                ..self@
            }),
    {
        let mut s = self;
        match s.set_sample_rate(sample_frequency) {
            Ok(()) => Ok(s),
            Err(e) => Err(e),
        }
    }

    /// Sets the sample rate in place; see `with_sample_frequency`. On error
    /// the mixer is left unchanged.
    pub fn set_sample_rate(&mut self, sample_frequency: u32) -> (r: Result<(), SynthError>)
        requires
            old(self).wf(),
        ensures
            final(self).wf(),
            sample_frequency == 0 <==> r == Err::<(), SynthError>(SynthError::ConfigurationError),
            r is Ok <==> sample_frequency > 0,
            r is Ok ==> final(self)@ == (CompoundView {
                sample_frequency: sample_frequency as int,
                ..old(self)@
            }),
            r is Err ==> final(self)@ == old(self)@,
    {
        if sample_frequency == 0 {
            return Err(SynthError::ConfigurationError);
        }
        self.sample_frequency = sample_frequency;
        Ok(())
    }

    pub fn wave_count(&self) -> (r: usize)
        requires
            self.wf(),
        ensures
            r == self@.waves.len(),
    {
        self.waves.len()
    }

    fn amplify_wide(&self, sample: i128) -> (r: i64)
        requires
            -WIDE <= sample <= WIDE,
        ensures
            r == self@.amplified(sample as int),
    {
        proof {
            crate::fixed::lemma_wide_product(sample as int, self.volume as int);
        }
        let v: i128 = scale_wide(sample, self.volume as i128);
        clamp_wide(v, self.volume_cap)
    }

    /// The sample after gain, clamped to `[-volume_cap, volume_cap]`.
    pub fn amplify_sample(&self, sample: i64) -> (r: i64)
        ensures
            r == self@.amplified(sample as int),
            -self@.volume_cap <= r <= self@.volume_cap,
    {
        self.amplify_wide(sample as i128)
    }

    pub fn volume(&self) -> (r: i32)
        ensures
            r == self@.volume,
    {
        self.volume
    }

    pub fn set_volume(&mut self, volume: i32)
        ensures
            final(self)@ == (CompoundView { volume: volume as int, ..old(self)@ }),
    {
        self.volume = volume;
    }

    pub fn volume_cap(&self) -> (r: u32)
        ensures
            r == self@.volume_cap,
    {
        self.volume_cap
    }

    pub fn set_volume_cap(&mut self, volume_cap: u32)
        ensures
            final(self)@ == (CompoundView { volume_cap: volume_cap as int, ..old(self)@ }),
    {
        self.volume_cap = volume_cap;
    }

    /// Appends an oscillator with the operation by which it enters the mix.
    pub fn add_oscillator(&mut self, wave: Wave, op: WaveOperation)
        requires
            old(self).wf(),
        ensures
            final(self).wf(),
            final(self)@ == (CompoundView {
                waves: old(self)@.waves.push(wave@),
                ops: old(self)@.ops.push(op),
                ..old(self)@
            }),
    {
        self.waves.push(wave);
        self.wave_ops.push(op);
        assert(self@.waves =~= old(self)@.waves.push(wave@));
    }

    pub fn push_addative_wave(&mut self, wave: Wave)
        requires
            old(self).wf(),
        ensures
            final(self).wf(),
            final(self)@ == (CompoundView {
                waves: old(self)@.waves.push(wave@),
                ops: old(self)@.ops.push(WaveOperation::Addative),
                ..old(self)@
            }),
    {
        self.add_oscillator(wave, WaveOperation::Addative);
    }

    pub fn push_subtractive_wave(&mut self, wave: Wave)
        requires
            old(self).wf(),
        ensures
            final(self).wf(),
            final(self)@ == (CompoundView {
                waves: old(self)@.waves.push(wave@),
                ops: old(self)@.ops.push(WaveOperation::Subtractive),
                ..old(self)@
            }),
    {
        self.add_oscillator(wave, WaveOperation::Subtractive);
    }

    /// Removes the oscillator at `wave_index` with its operation, and returns
    /// it. An index past the end is an error and changes nothing.
    pub fn remove_oscillator(&mut self, wave_index: usize) -> (r: Result<Wave, SynthError>)
        requires
            old(self).wf(),
        ensures
            final(self).wf(),
            wave_index >= old(self)@.waves.len() <==> r == Err::<Wave, SynthError>(
                SynthError::IndexError,
            ),
            r is Ok <==> wave_index < old(self)@.waves.len(),
            r is Err ==> final(self)@ == old(self)@,
            r is Ok ==> r->Ok_0@ == old(self)@.waves[wave_index as int] && final(self)@ == (
            CompoundView {
                waves: old(self)@.waves.remove(wave_index as int),
                ops: old(self)@.ops.remove(wave_index as int),
                ..old(self)@
            }),
    {
        if wave_index >= self.waves.len() {
            return Err(SynthError::IndexError);
        }
        let w = self.waves.remove(wave_index);
        self.wave_ops.remove(wave_index);
        assert(self@.waves =~= old(self)@.waves.remove(wave_index as int));
        Ok(w)
    }

    /// The current time, `head / sample_frequency` seconds, in whole
    /// nanoseconds rounded down.
    pub fn head_time(&self) -> (r: u128)
        requires
            self.wf(),
        ensures
            r == self@.head * 1_000_000_000 / self@.sample_frequency,
    {
        (self.sample_head as u128) * 1_000_000_000 / (self.sample_frequency as u128)
    }

    /// Puts `wave` in place of the oscillator at `wave_index`, keeping its
    /// operation. An index past the end is an error and changes nothing.
    pub fn replace_wave(&mut self, wave: Wave, wave_index: usize) -> (r: Result<(), SynthError>)
        requires
            old(self).wf(),
        ensures
            final(self).wf(),
            wave_index >= old(self)@.waves.len() <==> r == Err::<(), SynthError>(
                SynthError::IndexError,
            ),
            r is Ok <==> wave_index < old(self)@.waves.len(),
            r is Err ==> final(self)@ == old(self)@,
            r is Ok ==> final(self)@ == (CompoundView {
                waves: old(self)@.waves.update(wave_index as int, wave@),
                ..old(self)@
            }),
    {
        if wave_index >= self.waves.len() {
            return Err(SynthError::IndexError);
        }
        self.waves.set(wave_index, wave);
        assert(self@.waves =~= old(self)@.waves.update(wave_index as int, wave@));
        Ok(())
    }

    /// The frequency of the oscillator at `wave_index`, in millihertz.
    pub fn frequency(&self, wave_index: usize) -> (r: Result<u32, SynthError>)
        requires
            self.wf(),
        ensures
            wave_index >= self@.waves.len() <==> r == Err::<u32, SynthError>(
                SynthError::IndexError,
            ),
            r is Ok <==> wave_index < self@.waves.len(),
            r is Ok ==> r->Ok_0 == self@.waves[wave_index as int].frequency,
    {
        if wave_index >= self.waves.len() {
            return Err(SynthError::IndexError);
        }
        Ok(self.waves[wave_index].frequency())
    }

    /// Sets the frequency of the oscillator at `wave_index`. An index past the
    /// end is an error and changes nothing.
    pub fn set_frequency(&mut self, frequency: u32, wave_index: usize) -> (r: Result<
        (),
        SynthError,
    >)
        requires
            old(self).wf(),
        ensures
            final(self).wf(),
            wave_index >= old(self)@.waves.len() <==> r == Err::<(), SynthError>(
                SynthError::IndexError,
            ),
            r is Ok <==> wave_index < old(self)@.waves.len(),
            r is Err ==> final(self)@ == old(self)@,
            r is Ok ==> final(self)@ == (CompoundView {
                waves: old(self)@.waves.update(
                    wave_index as int,
                    WaveView { frequency: frequency as int, ..old(self)@.waves[wave_index as int] },
                ),
                ..old(self)@
            }),
    {
        if wave_index >= self.waves.len() {
            return Err(SynthError::IndexError);
        }
        let mut w = self.waves[wave_index];
        w.set_frequency(frequency);
        self.replace_wave(w, wave_index)
    }

    /// The amplitude of the oscillator at `wave_index`, in units of `ONE`.
    pub fn amplitude(&self, wave_index: usize) -> (r: Result<i32, SynthError>)
        requires
            self.wf(),
        ensures
            wave_index >= self@.waves.len() <==> r == Err::<i32, SynthError>(
                SynthError::IndexError,
            ),
            r is Ok <==> wave_index < self@.waves.len(),
            r is Ok ==> r->Ok_0 == self@.waves[wave_index as int].amplitude,
    {
        if wave_index >= self.waves.len() {
            return Err(SynthError::IndexError);
        }
        Ok(self.waves[wave_index].amplitude())
    }

    /// Sets the amplitude of the oscillator at `wave_index`. An index past the
    /// end is an error and changes nothing.
    pub fn set_amplitude(&mut self, amplitude: i32, wave_index: usize) -> (r: Result<
        (),
        SynthError,
    >)
        requires
            old(self).wf(),
        ensures
            final(self).wf(),
            wave_index >= old(self)@.waves.len() <==> r == Err::<(), SynthError>(
                SynthError::IndexError,
            ),
            r is Ok <==> wave_index < old(self)@.waves.len(),
            r is Err ==> final(self)@ == old(self)@,
            r is Ok ==> final(self)@ == (CompoundView {
                waves: old(self)@.waves.update(
                    wave_index as int,
                    WaveView { amplitude: amplitude as int, ..old(self)@.waves[wave_index as int] },
                ),
                ..old(self)@
            }),
    {
        if wave_index >= self.waves.len() {
            return Err(SynthError::IndexError);
        }
        let mut w = self.waves[wave_index];
        w.set_amplitude(amplitude);
        self.replace_wave(w, wave_index)
    }

    /// The mix at the current time, after gain and clamping; the clock then
    /// moves on by one sample. There is always a next sample.
    pub fn next(&mut self) -> (r: Option<i64>)
        requires
            old(self).wf(),
        ensures
            final(self).wf(),
            r is Some,
            r->0 == old(self)@.output(),
            -old(self)@.volume_cap <= r->0 <= old(self)@.volume_cap,
            final(self)@ == (CompoundView { head: old(self)@.next_head(), ..old(self)@ }),
    {
        proof {
            self.lemma_view_facts();
        }
        let n: usize = self.waves.len();
        let mut sum: i128 = 0;
        let mut i: usize = 0;
        while i < n
            invariant
                self.wf(),
                n == self@.waves.len(),
                self.waves@.len() == n,
                self.wave_ops@.len() == n,
                0 <= i <= n,
                sum == mix_sum(self@.waves, self@.ops, i as int, self@.head, self@.sample_frequency),
                abs(sum as int) <= i * amp_bound(),
            decreases n - i,
        {
            proof {
                self.lemma_view_facts();
                lemma_mix_sum_bound(self@.waves, self@.ops, i + 1, self@.head, self@.sample_frequency);
                assert((i + 1) * amp_bound() <= usize::MAX * amp_bound()) by (nonlinear_arith)
                    requires
                        i + 1 <= usize::MAX,
                ;
            }
            let v: i64 = self.waves[i].sample(self.sample_head, self.sample_frequency);
            match self.wave_ops[i] {
                WaveOperation::Addative => {
                    sum = sum + v as i128;
                },
                WaveOperation::Subtractive => {
                    sum = sum - v as i128;
                },
                WaveOperation::Mute => {},
            }
            i = i + 1;
        }
        proof {
            assert(n * amp_bound() <= usize::MAX * amp_bound()) by (nonlinear_arith)
                requires
                    n <= usize::MAX,
            ;
        }
        let r = self.amplify_wide(sum);
        if self.sample_head < u64::MAX {
            self.sample_head = self.sample_head + 1;
        }
        Some(r)
    }

    /// The mixer is one channel.
    pub fn channels(&self) -> (r: u16)
        ensures
            r == 1,
    {
        1
    }

    /// In hertz.
    pub fn sample_rate(&self) -> (r: u32)
        ensures
            r == self@.sample_frequency,
    {
        self.sample_frequency
    }
}

} // verus!