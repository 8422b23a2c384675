use vstd::prelude::*;
use crate::fixed::{abs, lemma_scale_bound, lemma_scale_unit, scale, scale_wide, ONE};

verus! {

/// The closed set of waveform kinds.
#[derive(Debug, Clone, Copy, PartialEq, Eq, Structural)]
pub enum WaveShape {
    Sine,
    Square,
    Saw,
    Silence,
}

/// One step of the nested form of the sine's series,
/// `sin x = x (1 - x^2/6 (1 - x^2/20 (1 - x^2/42 (1 - x^2/72 (1 - x^2/110)))))`,
/// in fixed point with `2^60` as 1: `1 - x2 * b / n`, rounded down.
pub open spec fn sine_step(x2: int, b: int, n: int) -> int {
    0x1000_0000_0000_0000 - x2 * b / (n * 0x1000_0000_0000_0000)
}

/// The sine of `r / q` of a quarter turn, in units of `ONE`, for `r` in
/// `[0, q]`. The angle `x` is `r / q * pi / 2` with `2^60` as 1
/// (`0x1921_fb54_442d_1846` is `pi / 2` there); the series is taken up to
/// `x^11`, whose remainder is under `6e-8`, and the result is rounded to the
/// nearest unit. It lies within one unit of `sin`, and is exact at `0` and at
/// the quarter turn.
pub open spec fn quarter_sine(r: int, q: int) -> int {
    let x = r * 0x1921_fb54_442d_1846 / q;
    let x2 = x * x / 0x1000_0000_0000_0000;
    let b = sine_step(
        x2,
        sine_step(x2, sine_step(x2, sine_step(x2, sine_step(x2, 0x1000_0000_0000_0000, 110), 72), 42), 20),
        6,
    );
    let s = x * b / 0x1000_0000_0000_0000;
    let v = (s * 1_000_000 + 0x800_0000_0000_0000) / 0x1000_0000_0000_0000;
    if v > 1_000_000 {
        1_000_000
    } else {
        v
    }
}

/// The sine of the phase `p / d` of a turn, in units of `ONE`, from the
/// quarter-turn sine by the symmetries of each quadrant.
pub open spec fn sine_base(p: int, d: int) -> int {
    let q = d / 4;
    let k = p / q;
    let r = p % q;
    if k == 0 {
        quarter_sine(r, q)
    } else if k == 1 {
        quarter_sine(q - r, q)
    } else if k == 2 {
        -quarter_sine(r, q)
    } else {
        -quarter_sine(q - r, q)
    }
}

/// The unit waveform at the phase `p / d` of a turn, in fixed point
/// (`ONE` is 1_000_000).
pub open spec fn base_sound(shape: WaveShape, p: int, d: int) -> int {
    match shape {
        WaveShape::Sine => sine_base(p, d),
        WaveShape::Square => if sine_base(p, d) >= 0 {
            1_000_000
        } else {
            0
        },
        WaveShape::Saw => (1_000_000 * p) / d,
        WaveShape::Silence => 0,
    }
}

/// The number of phase steps in one turn at a sample rate: frequencies are
/// in millihertz, so a turn is `1000 * rate` steps of `frequency * ticks`.
pub open spec fn turn(rate: int) -> int {
    1000 * rate
}

/// The phase, in steps of a turn, of a wave of `frequency` millihertz at the
/// time `ticks / rate` seconds: `frac(frequency * t)` scaled by `turn(rate)`.
pub open spec fn phase(frequency: int, ticks: int, rate: int) -> int {
    (frequency * ticks) % turn(rate)
}

/// The value of a waveform of the given shape, frequency and amplitude at the
/// time `ticks / rate` seconds.
pub open spec fn wave_value(shape: WaveShape, frequency: int, amplitude: int, ticks: int, rate: int) -> int {
    scale(amplitude, base_sound(shape, phase(frequency, ticks, rate), turn(rate)))
}

/// What a `Wave` holds.
pub ghost struct WaveView {
    pub shape: WaveShape,
    /// In millihertz.
    pub frequency: int,
    /// In units of `ONE`; negative flips the waveform.
    pub amplitude: int,
    /// The rate at which the wave steps through time on its own.
    pub sample_frequency: int,
    /// The wave's own sample counter.
    pub head: int,
}

impl WaveView {
    pub open spec fn value_at(self, ticks: int, rate: int) -> int {
        wave_value(self.shape, self.frequency, self.amplitude, ticks, rate)
    }
}

/// A periodic waveform: a pure function of shape, frequency, amplitude and
/// time. It carries its own sample counter only to step through time when
/// used as a stand-alone source.
#[derive(Debug, Clone, Copy)]
pub struct Wave {
    amplitude: i32,
    frequency: u32,
    shape: WaveShape,
    sample_frequency: u32,
    t: u64,
}

proof fn lemma_sine_step(x2: int, b: int, n: int, f: int)
    requires
        f > 0,
        0 <= x2 <= 3 * f,
        0 <= b <= f,
        n >= 6,
    ensures
        0 <= x2 * b / (n * f),
        2 * (x2 * b / (n * f)) <= f,
        x2 * b <= 3 * f * f,
{
    assert(0 <= x2 * b <= 3 * f * f && n * f > 0) by (nonlinear_arith)
        requires
            f > 0,
            0 <= x2 <= 3 * f,
            0 <= b <= f,
            n >= 6,
    ;
    let q = x2 * b / (n * f);
    vstd::arithmetic::div_mod::lemma_fundamental_div_mod(x2 * b, n * f);
    vstd::arithmetic::div_mod::lemma_mod_bound(x2 * b, n * f);
    vstd::arithmetic::div_mod::lemma_div_pos_is_pos(x2 * b, n * f);
    assert(2 * q <= f) by (nonlinear_arith)
        requires
            (n * f) * q <= 3 * f * f,
            f > 0,
            n >= 6,
            q >= 0,
    ;
}

proof fn lemma_quarter_sine_bound(r: int, q: int)
    requires
        0 <= r <= q,
        q > 0,
    ensures
        0 <= quarter_sine(r, q) <= ONE,
{
    let f: int = 0x1000_0000_0000_0000;
    let hp: int = 0x1921_fb54_442d_1846;
    let x = r * hp / q;
    assert(r * hp <= q * hp && 0 <= r * hp) by (nonlinear_arith)
        requires
            0 <= r <= q,
            hp > 0,
    ;
    vstd::arithmetic::div_mod::lemma_div_is_ordered(r * hp, q * hp, q);
    vstd::arithmetic::div_mod::lemma_div_multiples_vanish(hp, q);
    vstd::arithmetic::div_mod::lemma_div_pos_is_pos(r * hp, q);
    assert(0 <= x * x <= hp * hp) by (nonlinear_arith)
        requires
            0 <= x <= hp,
    ;
    assert(hp * hp <= 3 * f * f);
    let x2 = x * x / f;
    vstd::arithmetic::div_mod::lemma_div_is_ordered(x * x, 3 * f * f, f);
    vstd::arithmetic::div_mod::lemma_div_multiples_vanish(3 * f, f);
    assert(f * (3 * f) == 3 * f * f) by (nonlinear_arith);
    vstd::arithmetic::div_mod::lemma_div_pos_is_pos(x * x, f);
    lemma_sine_step(x2, f, 110, f);
    let b1 = sine_step(x2, f, 110);
    lemma_sine_step(x2, b1, 72, f);
    let b2 = sine_step(x2, b1, 72);
    lemma_sine_step(x2, b2, 42, f);
    let b3 = sine_step(x2, b2, 42);
    lemma_sine_step(x2, b3, 20, f);
    let b4 = sine_step(x2, b3, 20);
    lemma_sine_step(x2, b4, 6, f);
    let b = sine_step(x2, b4, 6);
    assert(0 <= x * b) by (nonlinear_arith)
        requires
            0 <= x,
            0 <= b,
    ;
    vstd::arithmetic::div_mod::lemma_div_pos_is_pos(x * b, f);
    let s = x * b / f;
    vstd::arithmetic::div_mod::lemma_div_pos_is_pos(s * 1_000_000 + 0x800_0000_0000_0000, f);
}

proof fn lemma_base_sound_bound(shape: WaveShape, p: int, d: int)
    requires
        d >= 4,
        0 <= p < d,
    ensures
        -ONE <= base_sound(shape, p, d) <= ONE,
        shape == WaveShape::Saw ==> 0 <= base_sound(shape, p, d) <= ONE,
{
    let q = d / 4;
    vstd::arithmetic::div_mod::lemma_mod_bound(p, q);
    lemma_quarter_sine_bound(p % q, q);
    lemma_quarter_sine_bound(q - p % q, q);
    vstd::arithmetic::div_mod::lemma_div_is_ordered(1_000_000 * p, 1_000_000 * d, d);
    vstd::arithmetic::div_mod::lemma_div_by_multiple(1_000_000, d);
    vstd::arithmetic::div_mod::lemma_div_pos_is_pos(1_000_000 * p, d);
}

/// A waveform's value is bounded by its amplitude in magnitude, and a
/// square wave is either silent or at full amplitude.
pub proof fn lemma_wave_value_bound(w: WaveView, ticks: int, rate: int)
    requires
        rate > 0,
        ticks >= 0,
        w.frequency >= 0,
    ensures
        abs(w.value_at(ticks, rate)) <= abs(w.amplitude),
        w.shape == WaveShape::Square ==> (w.value_at(ticks, rate) == 0 || w.value_at(ticks, rate)
            == w.amplitude),
        w.shape == WaveShape::Saw && w.amplitude >= 0 ==> w.value_at(ticks, rate) >= 0,
        w.shape == WaveShape::Silence ==> w.value_at(ticks, rate) == 0,
{
    let d = turn(rate);
    let p = phase(w.frequency, ticks, rate);
    vstd::arithmetic::div_mod::lemma_mod_bound(w.frequency * ticks, d);
    assert(w.frequency * ticks >= 0) by (nonlinear_arith)
        requires
            ticks >= 0,
            w.frequency >= 0,
    ;
    lemma_base_sound_bound(w.shape, p, d);
    let b = base_sound(w.shape, p, d);
    lemma_scale_bound(w.amplitude, b);
    lemma_scale_unit(w.amplitude);
    assert(abs(w.amplitude) * abs(b) <= abs(w.amplitude) * 1_000_000) by (nonlinear_arith)
        requires
            abs(b) <= 1_000_000,
            abs(w.amplitude) >= 0,
    ;
}

fn quarter_sine_exec(r: u128, q: u128) -> (v: i64)
    requires
        r <= q,
        0 < q <= 0x100_0000_0000,
    ensures
        v == quarter_sine(r as int, q as int),
        0 <= v <= ONE,
{
    proof {
        lemma_quarter_sine_bound(r as int, q as int);
        let hp: int = 0x1921_fb54_442d_1846;
        assert(r * hp <= 0x100_0000_0000 * hp) by (nonlinear_arith)
            requires
                r <= 0x100_0000_0000,
                hp > 0,
        ;
    }
    let f: u128 = 0x1000_0000_0000_0000;
    let x: u128 = r * 0x1921_fb54_442d_1846 / q;
    let ghost hp: int = 0x1921_fb54_442d_1846;
    proof {
        vstd::arithmetic::div_mod::lemma_div_is_ordered(r * hp, q * hp, q as int);
        vstd::arithmetic::div_mod::lemma_div_multiples_vanish(hp, q as int);
        assert(r * hp <= q * hp) by (nonlinear_arith)
            requires
                r <= q,
                hp > 0,
        ;
        assert(x * x <= hp * hp) by (nonlinear_arith)
            requires
                0 <= x <= hp,
        ;
        vstd::arithmetic::div_mod::lemma_div_is_ordered(x * x, 3 * f * f, f as int);
        vstd::arithmetic::div_mod::lemma_div_multiples_vanish(3 * f, f as int);
        assert(f * (3 * f) == 3 * f * f) by (nonlinear_arith);
    }
    let x2: u128 = x * x / f;
    let mut b: u128 = f;
    let ghost fi: int = f as int;
    proof { lemma_sine_step(x2 as int, b as int, 110, fi); }
    b = f - x2 * b / (110 * f);
    proof { lemma_sine_step(x2 as int, b as int, 72, fi); }
    b = f - x2 * b / (72 * f);
    proof { lemma_sine_step(x2 as int, b as int, 42, fi); }
    b = f - x2 * b / (42 * f);
    proof { lemma_sine_step(x2 as int, b as int, 20, fi); }
    b = f - x2 * b / (20 * f);
    proof { lemma_sine_step(x2 as int, b as int, 6, fi); }
    b = f - x2 * b / (6 * f);
    proof {
        assert(x * b <= hp * f) by (nonlinear_arith)
            requires
                0 <= x <= hp,
                0 <= b <= f,
        ;
        vstd::arithmetic::div_mod::lemma_div_is_ordered(x * b, hp * f, f as int);
        vstd::arithmetic::div_mod::lemma_div_multiples_vanish(hp, f as int);
        assert(f * hp == hp * f) by (nonlinear_arith);
    }
    let s: u128 = x * b / f;
    let v: u128 = (s * 1_000_000 + 0x800_0000_0000_0000) / f;
    if v > 1_000_000 {
        ONE
    } else {
        v as i64
    }
}

fn sine_exec(p: u128, d: u128) -> (v: i64)
    requires
        4 <= d <= 0x400_0000_0000,
        p < d,
    ensures
        v == sine_base(p as int, d as int),
{
    let q: u128 = d / 4;
    let k: u128 = p / q;
    let r: u128 = p % q;
    if k == 0 {
        quarter_sine_exec(r, q)
    } else if k == 1 {
        quarter_sine_exec(q - r, q)
    } else if k == 2 {
        -quarter_sine_exec(r, q)
    } else {
        -quarter_sine_exec(q - r, q)
    }
}

impl WaveShape {
    /// The unit waveform at the phase `p / d` of a turn, in units of `ONE`.
    pub fn base_sound(&self, p: u128, d: u128) -> (r: i64)
        requires
            4 <= d <= 0x400_0000_0000,
            p < d,
        ensures
            r == base_sound(*self, p as int, d as int),
            -ONE <= r <= ONE,
    {
        proof {
            lemma_base_sound_bound(*self, p as int, d as int);
        }
        match self {
            WaveShape::Sine => sine_exec(p, d),
            WaveShape::Square => {
                if sine_exec(p, d) >= 0 {
                    ONE
                } else {
                    0
                }
            },
            WaveShape::Saw => ((1_000_000 * p) / d) as i64,
            WaveShape::Silence => 0,
        }
    }
}

/// The sample rate at which a new wave steps through time, in hertz.
pub const DEFAULT_SAMPLE_FREQUENCY: u32 = 48000;

impl View for Wave {
    type V = WaveView;

    closed spec fn view(&self) -> WaveView {
        WaveView {
            shape: self.shape,
            frequency: self.frequency as int,
            amplitude: self.amplitude as int,
            sample_frequency: self.sample_frequency as int,
            head: self.t as int,
        }
    }
}

impl Wave {
    /// A wave's own sample rate is never zero.
    pub open spec fn wf(&self) -> bool {
        self@.sample_frequency > 0
    }

    /// The view's numbers are those of the machine types they come from.
    pub proof fn lemma_view_range(&self)
        ensures
            i32::MIN <= self@.amplitude <= i32::MAX,
            0 <= self@.frequency <= u32::MAX,
            0 <= self@.head <= u64::MAX,
            0 <= self@.sample_frequency <= u32::MAX,
    {
    }

    pub fn new(shape: WaveShape, frequency: u32, amplitude: i32) -> (r: Wave)
        ensures
            r.wf(),
            r@ == (WaveView {
                shape,
                frequency: frequency as int,
                amplitude: amplitude as int,
                sample_frequency: DEFAULT_SAMPLE_FREQUENCY as int,
                head: 0,
            }),
    {
        Wave { amplitude, frequency, shape, sample_frequency: DEFAULT_SAMPLE_FREQUENCY, t: 0 }
    }

    /// A sine wave of `frequency` millihertz and `amplitude` in units of `ONE`.
    pub fn sine(frequency: u32, amplitude: i32) -> (r: Wave)
        ensures
            r.wf(),
            r@ == (WaveView {
                shape: WaveShape::Sine,
                frequency: frequency as int,
                amplitude: amplitude as int,
                sample_frequency: DEFAULT_SAMPLE_FREQUENCY as int,
                head: 0,
            }),
    {
        Wave::new(WaveShape::Sine, frequency, amplitude)
    }

    /// A square wave, at `amplitude` over the half turn where the sine is not
    /// negative and silent over the other.
    pub fn square(frequency: u32, amplitude: i32) -> (r: Wave)
        ensures
            r.wf(),
            r@ == (WaveView {
                shape: WaveShape::Square,
                frequency: frequency as int,
                amplitude: amplitude as int,
                sample_frequency: DEFAULT_SAMPLE_FREQUENCY as int,
                head: 0,
            }),
    {
        Wave::new(WaveShape::Square, frequency, amplitude)
    }

    /// A rising saw wave, from 0 up toward `amplitude` over each turn.
    pub fn saw(frequency: u32, amplitude: i32) -> (r: Wave)
        ensures
            r.wf(),
            r@ == (WaveView {
                shape: WaveShape::Saw,
                frequency: frequency as int,
                amplitude: amplitude as int,
                sample_frequency: DEFAULT_SAMPLE_FREQUENCY as int,
                head: 0,
            }),
    {
        Wave::new(WaveShape::Saw, frequency, amplitude)
    }

    /// Moves the wave's own clock forward by `offset` nanoseconds, rounded
    /// down to whole samples; the clock stops at its largest value.
    pub fn offset(self, offset: u64) -> (r: Wave)
        requires
            self.wf(),
        ensures
            r.wf(),
            r@ == (WaveView {
                head: if self@.head + offset * self@.sample_frequency / 1_000_000_000 > u64::MAX {
                    u64::MAX as int
                } else {
                    self@.head + offset * self@.sample_frequency / 1_000_000_000
                },
                ..self@
            }),
    {
        let mut s = self;
        proof {
            assert(offset * s.sample_frequency <= u64::MAX * u32::MAX) by (nonlinear_arith);
        }
        let steps: u128 = (offset as u128) * (s.sample_frequency as u128) / 1_000_000_000;
        let head: u128 = s.t as u128 + steps;
        s.t = if head > u64::MAX as u128 {
            u64::MAX
        } else {
            head as u64
        };
        s
    }

    /// The wave's value at the time `ticks / rate` seconds.
    pub fn sample(&self, ticks: u64, rate: u32) -> (r: i64)
        requires
            rate > 0,
        ensures
            r == self@.value_at(ticks as int, rate as int),
            abs(r as int) <= abs(self@.amplitude),
            self@.shape == WaveShape::Square ==> (r == 0 || r == self@.amplitude),
            self@.shape == WaveShape::Saw && self@.amplitude >= 0 ==> r >= 0,
            self@.shape == WaveShape::Silence ==> r == 0,
    {
        proof {
            lemma_wave_value_bound(self@, ticks as int, rate as int);
            assert(self.frequency * ticks <= u32::MAX * u64::MAX) by (nonlinear_arith);
        }
        let d: u128 = 1000 * (rate as u128);
        let p: u128 = ((self.frequency as u128) * (ticks as u128)) % d;
        let b: i64 = self.shape.base_sound(p, d);
        proof {
            crate::fixed::lemma_wide_product(self.amplitude as int, b as int);
        }
        scale_wide(self.amplitude as i128, b as i128) as i64
    }

    /// The value at the wave's own clock, which then moves on by one sample
    /// (and stops at its largest value). There is always a next value.
    pub fn next(&mut self) -> (r: Option<i64>)
        requires
            old(self).wf(),
        ensures
            final(self).wf(),
            r is Some,
            r->0 == old(self)@.value_at(old(self)@.head, old(self)@.sample_frequency),
            abs(r->0 as int) <= abs(old(self)@.amplitude),
            old(self)@.shape == WaveShape::Square ==> (r->0 == 0 || r->0 == old(self)@.amplitude),
            old(self)@.shape == WaveShape::Saw && old(self)@.amplitude >= 0 ==> r->0 >= 0,
            old(self)@.shape == WaveShape::Silence ==> r->0 == 0,
            final(self)@ == (WaveView {
                head: if old(self)@.head < u64::MAX {
                    old(self)@.head + 1
                } else {
                    old(self)@.head
                },
                ..old(self)@
            }),
    {
        proof {
            lemma_wave_value_bound(self@, self.t as int, self.sample_frequency as int);
        }
        let v = self.sample(self.t, self.sample_frequency);
        if self.t < u64::MAX {
            self.t = self.t + 1;
        }
        Some(v)
    }

    pub fn shape(&self) -> (r: WaveShape)
        ensures
            r == self@.shape,
    {
        self.shape
    }

    pub fn frequency(&self) -> (r: u32)
        ensures
            r == self@.frequency,
    {
        self.frequency
    }

    pub fn set_frequency(&mut self, frequency: u32)
        ensures
            final(self)@ == (WaveView { frequency: frequency as int, ..old(self)@ }),
            final(self).wf() == old(self).wf(),
    {
        self.frequency = frequency;
    }

    pub fn amplitude(&self) -> (r: i32)
        ensures
            r == self@.amplitude,
    {
        self.amplitude
    }

    pub fn set_amplitude(&mut self, amplitude: i32)
        ensures
            final(self)@ == (WaveView { amplitude: amplitude as int, ..old(self)@ }),
            final(self).wf() == old(self).wf(),
    {
        self.amplitude = amplitude;
    }

    /// The wave is one channel.
    pub fn channels(&self) -> (r: u16)
        ensures
            r == 1,
    {
        1
    }

    /// The rate at which the wave steps through time on its own, in hertz.
    pub fn sample_rate(&self) -> (r: u32)
        ensures
            r == self@.sample_frequency,
    {
        self.sample_frequency
    }
}

} // verus!
