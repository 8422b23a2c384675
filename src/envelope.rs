use vstd::prelude::*;
use crate::fixed::{abs, lemma_scale_bound, saturate, scale, scale_wide, SynthError, ONE};

verus! {

/// What an `ADSR` envelope holds. Times are in nanoseconds, levels in units
/// of `ONE`.
pub ghost struct AdsrView {
    pub attack: int,
    pub attack_amplitude: int,
    pub decay: int,
    pub sustain: int,
    pub release: int,
    /// Time since the last key press or key release.
    pub time: int,
    pub key_on: bool,
}

impl AdsrView {
    /// Times are non-negative and fit in `i64`; levels are non-negative and
    /// fit in `u32` (up to about 4294 times full scale).
    pub open spec fn valid(self) -> bool {
        &&& 0 <= self.attack <= i64::MAX
        &&& 0 <= self.decay <= i64::MAX
        &&& 0 <= self.release <= i64::MAX
        &&& 0 <= self.attack_amplitude <= u32::MAX
        &&& 0 <= self.sustain <= u32::MAX
        &&& 0 <= self.time <= u64::MAX
    }

    /// A signal scaled by the current multiplier, rounded toward zero, and
    /// limited to the range of `i64` (which only levels above `ONE` can
    /// reach).
    pub open spec fn apply(self, signal: int) -> int {
        saturate(scale(signal, self.level()))
    }

    /// The larger of the two levels: no multiplier exceeds it.
    pub open spec fn peak(self) -> int {
        if self.attack_amplitude >= self.sustain {
            self.attack_amplitude
        } else {
            self.sustain
        }
    }

    /// The envelope's multiplier, in units of `ONE`, at its current time:
    /// a linear ramp from 0 to `attack_amplitude` over `attack`, a linear
    /// ramp from there to `sustain` over `decay`, then `sustain` while the key
    /// is held; after release, a linear ramp from `sustain` to 0 over
    /// `release`, then 0. Ratios are rounded down.
    pub open spec fn level(self) -> int {
        if self.key_on {
            if self.time < self.attack {
                self.time * self.attack_amplitude / self.attack
            } else if self.time < self.attack + self.decay {
                if self.sustain >= self.attack_amplitude {
                    self.attack_amplitude + (self.sustain - self.attack_amplitude) * (self.time
                        - self.attack) / self.decay
                } else {
                    self.attack_amplitude - (self.attack_amplitude - self.sustain) * (self.time
                        - self.attack) / self.decay
                }
            } else {
                self.sustain
            }
        } else if self.time < self.release {
            self.sustain - self.sustain * self.time / self.release
        } else {
            0
        }
    }
}

/// `a * b / c` lies in `[0, b]` when `0 <= a <= c`.
proof fn lemma_ratio_bound(a: int, b: int, c: int)
    requires
        0 <= a <= c,
        0 < c,
        0 <= b,
    ensures
        0 <= a * b / c <= b,
{
    assert(0 <= a * b <= c * b) by (nonlinear_arith)
        requires
            0 <= a <= c,
            0 <= b,
    ;
    vstd::arithmetic::div_mod::lemma_div_is_ordered(a * b, c * b, c);
    vstd::arithmetic::div_mod::lemma_div_pos_is_pos(a * b, c);
    vstd::arithmetic::div_mod::lemma_div_multiples_vanish(b, c);
    assert(c * b == b * c) by (nonlinear_arith);
}

/// The multiplier of a valid envelope lies in `[0, peak]`.
pub proof fn lemma_level_range(e: AdsrView)
    requires
        e.valid(),
    ensures
        0 <= e.level() <= e.peak(),
{
    if e.key_on {
        if e.time < e.attack {
            lemma_ratio_bound(e.time, e.attack_amplitude, e.attack);
        } else if e.time < e.attack + e.decay {
            if e.sustain >= e.attack_amplitude {
                lemma_ratio_bound(e.time - e.attack, e.sustain - e.attack_amplitude, e.decay);
            } else {
                lemma_ratio_bound(e.time - e.attack, e.attack_amplitude - e.sustain, e.decay);
            }
        }
    } else if e.time < e.release {
        lemma_ratio_bound(e.time, e.sustain, e.release);
    }
}

/// An envelope scales a signal by at most its larger level: the output never
/// exceeds `max(attack_amplitude, sustain)` times the input in magnitude,
/// whatever the time and key state; so with levels in `[0, ONE]` it is never
/// louder than the input.
pub proof fn lemma_envelope_bounded(e: AdsrView, signal: int)
    requires
        e.valid(),
        i64::MIN <= signal <= i64::MAX,
    ensures
        abs(e.apply(signal)) * ONE <= e.peak() * abs(signal),
        e.peak() <= ONE ==> e.apply(signal) == scale(signal, e.level()),
        e.peak() <= ONE ==> abs(e.apply(signal)) <= abs(signal),
{
    lemma_level_range(e);
    lemma_scale_bound(signal, e.level());
    assert(abs(signal) * e.level() <= e.peak() * abs(signal)) by (nonlinear_arith)
        requires
            0 <= e.level() <= e.peak(),
            abs(signal) >= 0,
    ;
    if e.peak() <= ONE {
        assert(e.peak() * abs(signal) <= ONE * abs(signal)) by (nonlinear_arith)
            requires
                e.peak() <= ONE,
                abs(signal) >= 0,
        ;
    }
}

/// While the key is held, the attack ramp never falls: of two times inside
/// the attack, the later one has the larger or equal multiplier.
pub proof fn lemma_attack_monotonic(e: AdsrView, t1: int, t2: int)
    requires
        e.valid(),
        e.key_on,
        0 <= t1 < t2 < e.attack,
    ensures
        (AdsrView { time: t1, ..e }).level() <= (AdsrView { time: t2, ..e }).level(),
{
    assert(t1 * e.attack_amplitude <= t2 * e.attack_amplitude) by (nonlinear_arith)
        requires
            t1 < t2,
            e.attack_amplitude >= 0,
    ;
    vstd::arithmetic::div_mod::lemma_div_is_ordered(
        t1 * e.attack_amplitude,
        t2 * e.attack_amplitude,
        e.attack,
    );
}

/// After the key is released, the multiplier is exactly 0 from the moment
/// the release time has passed, and stays 0 as time goes on.
pub proof fn lemma_release_reaches_silence(e: AdsrView, t: int)
    requires
        e.valid(),
        !e.key_on,
        t >= e.release,
    ensures
        (AdsrView { time: t, ..e }).level() == 0,
        (AdsrView { time: e.release, ..e }).level() == 0,
{
}

/// An attack-decay-sustain-release envelope: a time-driven multiplier for a
/// signal, with a key (gate) that is pressed and released.
#[derive(Debug, Clone, Copy)]
pub struct ADSR {
    attack: u64,
    attack_amplitude: u32,
    decay: u64,
    sustain: u32,
    release: u64,
    time: u64,
    key_on: bool,
}

impl View for ADSR {
    type V = AdsrView;

    closed spec fn view(&self) -> AdsrView {
        AdsrView {
            attack: self.attack as int,
            attack_amplitude: self.attack_amplitude as int,
            decay: self.decay as int,
            sustain: self.sustain as int,
            release: self.release as int,
            time: self.time as int,
            key_on: self.key_on,
        }
    }
}

impl Default for ADSR {
    /// Attack and release of 10 ms, no decay, full attack and sustain level,
    /// key up.
    fn default() -> (r: ADSR)
        ensures
            r@ == (AdsrView {
                attack: 10_000_000,
                attack_amplitude: ONE as int,
                decay: 0,
                sustain: ONE as int,
                release: 10_000_000,
                time: 0,
                key_on: false,
            }),
            r@.valid(),
    {
        ADSR {
            attack: 10_000_000,
            attack_amplitude: 1_000_000,
            decay: 0,
            sustain: 1_000_000,
            release: 10_000_000,
            time: 0,
            key_on: false,
        }
    }
}

impl ADSR {
    /// An envelope with the key up. Times are in nanoseconds and levels in
    /// units of `ONE`. A negative time is a configuration error.
    pub fn new(attack: i64, attack_amplitude: u32, decay: i64, sustain: u32, release: i64) -> (r:
        Result<ADSR, SynthError>)
        ensures
            r is Ok <==> attack >= 0 && decay >= 0 && release >= 0,
            r is Err ==> r == Err::<ADSR, SynthError>(SynthError::ConfigurationError),
            r is Ok ==> r->Ok_0@ == (AdsrView {
                attack: attack as int,
                attack_amplitude: attack_amplitude as int,
                decay: decay as int,
                sustain: sustain as int,
                release: release as int,
                time: 0,
                key_on: false,
            }),
            r is Ok ==> r->Ok_0@.valid(),
    {
        if attack < 0 || decay < 0 || release < 0 {
            return Err(SynthError::ConfigurationError);
        }
        Ok(
            ADSR {
                attack: attack as u64,
                attack_amplitude,
                decay: decay as u64,
                sustain,
                release: release as u64,
                time: 0,
                key_on: false,
            },
        )
    }

    /// The current multiplier, in units of `ONE`.
    pub fn level(&self) -> (r: i64)
        requires
            self@.valid(),
        ensures
            r == self@.level(),
            0 <= r <= self@.peak(),
    {
        proof {
            lemma_level_range(self@);
            assert(forall|a: int, b: int|
                0 <= a <= u64::MAX && 0 <= b <= u32::MAX ==> #[trigger] (a * b) <= u64::MAX
                    * u32::MAX && b * a <= u64::MAX * u32::MAX) by (nonlinear_arith);
            assert(self.time * self.attack_amplitude == self.attack_amplitude * self.time)
                by (nonlinear_arith);
            assert(self.time * self.sustain == self.sustain * self.time) by (nonlinear_arith);
        }
        let t: u128 = self.time as u128;
        if self.key_on {
            if self.time < self.attack {
                (t * (self.attack_amplitude as u128) / (self.attack as u128)) as i64
            } else if t < (self.attack as u128) + (self.decay as u128) {
                let dt: u128 = t - (self.attack as u128);
                if self.sustain >= self.attack_amplitude {
                    let rise: u128 = ((self.sustain - self.attack_amplitude) as u128) * dt / (
                    self.decay as u128);
                    (self.attack_amplitude as u128 + rise) as i64
                } else {
                    let fall: u128 = ((self.attack_amplitude - self.sustain) as u128) * dt / (
                    self.decay as u128);
                    (self.attack_amplitude as u128 - fall) as i64
                }
            } else {
                self.sustain as i64
            }
        } else if self.time < self.release {
            let fall: u128 = (self.sustain as u128) * t / (self.release as u128);
            (self.sustain as u128 - fall) as i64
        } else {
            0
        }
    }

    /// The signal scaled by the current multiplier, rounded toward zero, and
    /// limited to the range of `i64`. With levels in `[0, ONE]` its magnitude
    /// never exceeds the signal's, and no limit applies.
    pub fn envelope_signal(&self, signal: i64) -> (r: i64)
        requires
            self@.valid(),
        ensures
            r == self@.apply(signal as int),
            abs(r as int) * ONE <= self@.peak() * abs(signal as int),
            self@.peak() <= ONE ==> r == scale(signal as int, self@.level()),
            self@.peak() <= ONE ==> abs(r as int) <= abs(signal as int),
    {
        proof {
            lemma_envelope_bounded(self@, signal as int);
        }
        let m: i64 = self.level();
        proof {
            assert(-crate::fixed::WIDE * crate::fixed::FACTOR <= signal * m
                <= crate::fixed::WIDE * crate::fixed::FACTOR) by (nonlinear_arith)
                requires
                    i64::MIN <= signal <= i64::MAX,
                    0 <= m <= u32::MAX,
            ;
        }
        let r: i128 = scale_wide(signal as i128, m as i128);
        if r > i64::MAX as i128 {
            i64::MAX
        } else if r < i64::MIN as i128 {
            i64::MIN
        } else {
            r as i64
        }
    }

    /// Moves the envelope's time forward by `time` nanoseconds; it stops at
    /// its largest value, which lies past every stage.
    pub fn increment_time(&mut self, time: u64)
        ensures
            final(self)@ == (AdsrView {
                time: if old(self)@.time + time > u64::MAX {
                    u64::MAX as int
                } else {
                    old(self)@.time + time
                },
                ..old(self)@
            }),
    {
        self.time = self.time.saturating_add(time);
    }

    /// Presses the key: the attack starts over from time 0.
    pub fn key_press(&mut self)
        ensures
            final(self)@ == (AdsrView { time: 0, key_on: true, ..old(self)@ }),
    {
        self.time = 0;
        self.key_on = true;
    }

    /// Releases the key: the release starts over from time 0.
    pub fn key_release(&mut self)
        ensures
            final(self)@ == (AdsrView { time: 0, key_on: false, ..old(self)@ }),
    {
        self.time = 0;
        self.key_on = false;
    }
}

} // verus!
