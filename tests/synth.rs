use synthwave::{CompoundWave, MonoWave, SynthError, SynthType, Voice, Wave, WaveOperation, WaveShape, ADSR, ONE};

const SEC: u64 = 1_000_000_000;

fn random_signal() -> i64 {
    rand::random_range(-ONE..=ONE)
}

#[test]
fn envelope_signal_less_than_or_equal_one() {
    let mut adsr = ADSR::default();
    let samples: u64 = 41400;
    let time_per_sample = SEC / samples;
    adsr.key_press();
    for _ in 0..samples {
        let signal = random_signal();
        let processed = adsr.envelope_signal(signal);
        assert!(processed.abs() <= ONE);
        adsr.increment_time(time_per_sample);
    }
    adsr.key_release();
    for sample in 0..samples {
        let signal = random_signal();
        let processed = adsr.envelope_signal(signal);
        assert!(
            processed.abs() <= ONE,
            "Signal {} had a value of {}, which became {} after processing",
            sample,
            signal,
            processed
        );
        adsr.increment_time(time_per_sample);
    }
}

#[test]
fn release_smaller_than_sustain() {
    let mut adsr = ADSR::default();
    let samples: u64 = 41400;
    let time_per_sample = SEC / samples;
    let signal_1 = random_signal();
    let processed_1 = adsr.envelope_signal(signal_1);
    adsr.increment_time(time_per_sample);
    adsr.increment_time(time_per_sample);
    adsr.increment_time(time_per_sample);
    let processed_2 = adsr.envelope_signal(signal_1);
    assert!(processed_2.abs() <= processed_1.abs());
}

#[test]
fn sine_starts_at_zero_and_peaks_at_quarter_period() {
    let w = Wave::sine(440_000, ONE as i32);
    assert_eq!(w.sample(0, 48000), 0);
    // t = 1/1760 s, a quarter period of 440 Hz
    assert_eq!(w.sample(1, 1760), ONE);
    // three quarters of a period
    assert_eq!(w.sample(3, 1760), -ONE);
    // half a period
    assert_eq!(w.sample(2, 1760), 0);
}

#[test]
fn sine_matches_sin_within_one_unit() {
    let w = Wave::sine(1000, ONE as i32);
    // 1 Hz at t = 1/8 s: sin(pi/4) = 0.70710678...
    assert_eq!(w.sample(1, 8), 707_107);
    // t = 1/12 s: sin(pi/6) = 0.5
    assert_eq!(w.sample(1, 12), 500_000);
    for t in 0..4000u64 {
        let exact = (2.0 * std::f64::consts::PI * t as f64 / 4000.0).sin() * 1e6;
        assert!((w.sample(t, 4000) as f64 - exact).abs() <= 1.0);
    }
}

#[test]
fn square_is_zero_or_amplitude() {
    let w = Wave::square(1000, 250_000);
    assert_eq!(w.sample(1, 4), 250_000);
    assert_eq!(w.sample(2, 4), 250_000);
    assert_eq!(w.sample(3, 4), 0);
    for t in 0..1000u64 {
        let v = w.sample(t, 997);
        assert!(v == 0 || v == 250_000);
    }
}

#[test]
fn saw_rises_over_each_period() {
    let w = Wave::saw(1000, ONE as i32);
    assert_eq!(w.sample(0, 4), 0);
    assert_eq!(w.sample(1, 4), 250_000);
    assert_eq!(w.sample(3, 4), 750_000);
    assert_eq!(w.sample(4, 4), 0);
    let flipped = Wave::saw(1000, -(ONE as i32));
    assert_eq!(flipped.sample(1, 4), -250_000);
}

#[test]
fn silence_and_zero_frequency() {
    let mut w = Wave::new(WaveShape::Silence, 440_000, ONE as i32);
    assert_eq!(w.sample(123, 48000), 0);
    w = Wave::saw(0, ONE as i32);
    assert_eq!(w.sample(1234, 48000), 0);
}

#[test]
fn wave_values_bounded_by_amplitude() {
    let shapes = [WaveShape::Sine, WaveShape::Square, WaveShape::Saw, WaveShape::Silence];
    for shape in shapes {
        for amp in [ONE as i32, 123_456, -300_000, i32::MAX, i32::MIN] {
            let w = Wave::new(shape, 3_217_000, amp);
            for t in 0..500u64 {
                let v = w.sample(t, 44100);
                assert!(v.abs() <= (amp as i64).abs());
            }
        }
    }
}

#[test]
fn wave_next_steps_its_own_clock() {
    let mut w = Wave::square(1000, 7);
    w = w.offset(SEC / 2);
    assert_eq!(w.sample_rate(), 48000);
    assert_eq!(w.channels(), 1);
    // half a second in: the second half of the turn, where the square is off
    assert_eq!(w.next(), Some(7));
    assert_eq!(w.next(), Some(0));
    w.set_frequency(2000);
    w.set_amplitude(9);
    assert_eq!(w.frequency(), 2000);
    assert_eq!(w.amplitude(), 9);
}

#[test]
fn default_envelope_attack_reaches_half_then_sustain() {
    let mut adsr = ADSR::default();
    adsr.key_press();
    adsr.increment_time(5_000_000);
    assert_eq!(adsr.level(), 500_000);
    assert_eq!(adsr.envelope_signal(ONE), 500_000);
    adsr.increment_time(5_000_000);
    assert_eq!(adsr.level(), ONE);
    adsr.increment_time(SEC);
    assert_eq!(adsr.level(), ONE);
}

#[test]
fn release_after_sustain_halves_then_silences() {
    let mut adsr = ADSR::default();
    adsr.key_press();
    adsr.increment_time(10_000_000);
    assert_eq!(adsr.level(), ONE);
    adsr.key_release();
    adsr.increment_time(5_000_000);
    assert_eq!(adsr.level(), 500_000);
    adsr.increment_time(5_000_000);
    assert_eq!(adsr.level(), 0);
    adsr.increment_time(SEC);
    assert_eq!(adsr.level(), 0);
    adsr.increment_time(u64::MAX);
    assert_eq!(adsr.level(), 0);
}

#[test]
fn decay_interpolates_between_peak_and_sustain() {
    let mut adsr = ADSR::new(1_000, 1_000_000, 4_000, 200_000, 1_000).unwrap();
    adsr.key_press();
    adsr.increment_time(1_000);
    assert_eq!(adsr.level(), ONE);
    adsr.increment_time(1_000);
    assert_eq!(adsr.level(), 800_000);
    adsr.increment_time(3_000);
    assert_eq!(adsr.level(), 200_000);
}

#[test]
fn zero_length_stages() {
    let mut adsr = ADSR::new(0, 700_000, 0, 400_000, 0).unwrap();
    adsr.key_press();
    assert_eq!(adsr.level(), 400_000);
    let mut peak_only = ADSR::new(0, 700_000, 10, 400_000, 0).unwrap();
    peak_only.key_press();
    assert_eq!(peak_only.level(), 700_000);
    peak_only.key_release();
    assert_eq!(peak_only.level(), 0);
}

#[test]
fn envelope_output_bounded_by_larger_level() {
    let mut adsr = ADSR::new(3_000, 600_000, 2_000, 300_000, 4_000).unwrap();
    adsr.key_press();
    for _ in 0..8 {
        for x in [ONE, -ONE, 12_345, i64::MAX, i64::MIN] {
            let y = adsr.envelope_signal(x) as i128;
            assert!(y.abs() * (ONE as i128) <= 600_000 * (x as i128).abs());
        }
        adsr.increment_time(1_000);
    }
}

#[test]
fn attack_never_falls() {
    let mut adsr = ADSR::new(1_000, 900_000, 0, 500_000, 0).unwrap();
    adsr.key_press();
    let mut last = adsr.level();
    for _ in 0..999 {
        adsr.increment_time(1);
        let now = adsr.level();
        assert!(now >= last);
        last = now;
    }
}

#[test]
fn envelope_configuration_errors() {
    assert_eq!(ADSR::new(-1, 1_000_000, 0, 1_000_000, 0).unwrap_err(), SynthError::ConfigurationError);
    assert_eq!(ADSR::new(0, 1_000_000, -1, 1_000_000, 0).unwrap_err(), SynthError::ConfigurationError);
    assert_eq!(ADSR::new(0, 1_000_000, 0, 1_000_000, -5).unwrap_err(), SynthError::ConfigurationError);
    assert!(ADSR::new(0, 0, 0, 0, 0).is_ok());
}

#[test]
fn envelope_levels_above_full_scale_amplify() {
    let mut adsr = ADSR::new(0, 2_000_000, 0, 2_000_000, 0).unwrap();
    adsr.key_press();
    assert_eq!(adsr.level(), 2_000_000);
    assert_eq!(adsr.envelope_signal(300_000), 600_000);
    assert_eq!(adsr.envelope_signal(-300_000), -600_000);
    // the product is limited to the range of i64
    assert_eq!(adsr.envelope_signal(i64::MAX), i64::MAX);
    assert_eq!(adsr.envelope_signal(i64::MIN), i64::MIN);
    let mut loud = ADSR::new(0, u32::MAX, 0, u32::MAX, 0).unwrap();
    loud.key_press();
    assert_eq!(loud.envelope_signal(ONE), u32::MAX as i64);
}

#[test]
fn cancelling_pair_is_always_silent() {
    let mut mix = CompoundWave::new();
    mix.push_addative_wave(Wave::sine(440_000, ONE as i32));
    mix.push_subtractive_wave(Wave::sine(440_000, ONE as i32));
    for _ in 0..5000 {
        assert_eq!(mix.next(), Some(0));
    }
}

#[test]
fn out_of_range_set_frequency_changes_nothing() {
    let mut mix = CompoundWave::new();
    mix.push_addative_wave(Wave::sine(440_000, 500_000));
    mix.push_addative_wave(Wave::saw(660_000, 250_000));
    let mut twin = mix.clone();
    assert_eq!(mix.set_frequency(1_000_000, 2), Err(SynthError::IndexError));
    assert_eq!(mix.frequency(0), Ok(440_000));
    assert_eq!(mix.frequency(1), Ok(660_000));
    for _ in 0..100 {
        assert_eq!(mix.next(), twin.next());
    }
}

#[test]
fn mixer_output_clamped() {
    let mut mix = CompoundWave::new();
    for _ in 0..20 {
        mix.push_addative_wave(Wave::square(1000, i32::MAX));
    }
    mix.set_volume(i32::MAX);
    for _ in 0..100 {
        let v = mix.next().unwrap();
        assert!(v.abs() <= 3_000_000);
    }
    mix.set_volume_cap(500_000);
    let v = mix.next().unwrap();
    assert_eq!(v, 500_000);
}

#[test]
fn mixer_sums_with_polarity_and_gain() {
    let mut mix = CompoundWave::new().with_sample_frequency(4).unwrap();
    mix.push_addative_wave(Wave::saw(1000, ONE as i32));
    mix.add_oscillator(Wave::saw(1000, 100_000), WaveOperation::Subtractive);
    mix.add_oscillator(Wave::square(1000, ONE as i32), WaveOperation::Mute);
    mix.set_volume(2_000_000);
    assert_eq!(mix.next(), Some(0));
    // t = 1/4 s: 250_000 - 25_000, doubled
    assert_eq!(mix.next(), Some(450_000));
    assert_eq!(mix.head_time(), 500_000_000);
    assert_eq!(mix.wave_count(), 3);
    assert_eq!(mix.amplify_sample(2_000_000), 3_000_000);
    assert_eq!(mix.amplify_sample(-2_000_000), -3_000_000);
    assert_eq!(mix.volume(), 2_000_000);
    assert_eq!(mix.volume_cap(), 3_000_000);
    assert_eq!(mix.channels(), 1);
    assert_eq!(mix.sample_rate(), 4);
}

#[test]
fn mixer_index_errors() {
    let mut mix = CompoundWave::new();
    mix.push_addative_wave(Wave::sine(440_000, 500_000));
    assert_eq!(mix.amplitude(1), Err(SynthError::IndexError));
    assert_eq!(mix.set_amplitude(3, 1), Err(SynthError::IndexError));
    assert_eq!(mix.replace_wave(Wave::saw(1, 1), 1), Err(SynthError::IndexError));
    assert!(mix.remove_oscillator(1).is_err());
    assert_eq!(mix.set_amplitude(3, 0), Ok(()));
    assert_eq!(mix.amplitude(0), Ok(3));
    let removed = mix.remove_oscillator(0).unwrap();
    assert_eq!(removed.amplitude(), 3);
    assert_eq!(mix.wave_count(), 0);
    assert_eq!(mix.next(), Some(0));
}

#[test]
fn zero_sample_rate_is_rejected() {
    assert_eq!(CompoundWave::new().with_sample_frequency(0).unwrap_err(), SynthError::ConfigurationError);
    assert_eq!(
        MonoWave::new(Wave::sine(1, 1)).with_sample_frequency(0).unwrap_err(),
        SynthError::ConfigurationError
    );
    let mut mix = CompoundWave::new();
    assert_eq!(mix.set_sample_rate(0), Err(SynthError::ConfigurationError));
    assert_eq!(mix.sample_rate(), 48000);
}

#[test]
fn rate_change_keeps_the_sample_counter() {
    let mut mix = CompoundWave::new();
    mix.push_addative_wave(Wave::saw(1000, ONE as i32));
    for _ in 0..24000 {
        mix.next();
    }
    assert_eq!(mix.head_time(), 500_000_000);
    mix.set_sample_rate(96000).unwrap();
    // the counter stays at 24000, so time jumps back to a quarter second
    assert_eq!(mix.head_time(), 250_000_000);
    assert_eq!(mix.next(), Some(250_000));
}

#[test]
fn mono_wave_amplifies_and_clamps() {
    let mut mono = MonoWave::new(Wave::square(1000, ONE as i32)).with_sample_frequency(4).unwrap();
    mono.set_volume(5_000_000);
    assert_eq!(mono.next(), Some(3_000_000));
    mono.set_volume_cap(4_000_000);
    assert_eq!(mono.volume_cap(), 4_000_000);
    assert_eq!(mono.volume(), 5_000_000);
    assert_eq!(mono.next(), Some(4_000_000));
    assert_eq!(mono.next(), Some(4_000_000));
    assert_eq!(mono.next(), Some(0));
    assert_eq!(mono.head_time(), 1_000_000_000);
    mono.set_frequency(2000);
    assert_eq!(mono.frequency(), 2000);
    assert_eq!(mono.channels(), 1);
    assert_eq!(mono.sample_rate(), 4);
    assert_eq!(mono.amplify_sample(-100), -500);
}

#[test]
fn synth_type_retunes_every_oscillator() {
    let mut mix = CompoundWave::new();
    mix.push_addative_wave(Wave::sine(440_000, 1));
    mix.push_subtractive_wave(Wave::saw(660_000, 1));
    let mut synth = SynthType::Multi(mix);
    synth.set_frequency(100_000);
    match &synth {
        SynthType::Multi(m) => {
            assert_eq!(m.frequency(0), Ok(100_000));
            assert_eq!(m.frequency(1), Ok(100_000));
        }
        SynthType::Mono(_) => panic!(),
    }
    assert_eq!(synth.next_sample(), Some(0));
    assert_eq!(synth.set_sample_rate(0), Err(SynthError::ConfigurationError));
    assert_eq!(synth.set_sample_rate(22050), Ok(()));
}

#[test]
fn voice_is_silent_without_a_note() {
    let mut voice = Voice::default();
    assert_eq!(voice.sample_rate(), 44100);
    for _ in 0..10 {
        assert_eq!(voice.next_sample(), 0);
    }
}

#[test]
fn voice_plays_a_note_through_the_envelope() {
    let mono = MonoWave::new(Wave::square(1000, ONE as i32)).with_sample_frequency(4).unwrap();
    let envelope = ADSR::new(500_000_000, 1_000_000, 0, 1_000_000, 500_000_000).unwrap();
    let mut voice = Voice::new(SynthType::Mono(mono), envelope);
    assert_eq!(voice.sample_rate(), 4);
    voice.apply_midi(144, 1000);
    // envelope level 0, then 0.5 at a quarter second
    assert_eq!(voice.next_sample(), 0);
    assert_eq!(voice.next_sample(), 500_000);
    assert_eq!(voice.next_sample(), ONE);
    voice.apply_midi(128, 1000);
    // release from full: the square is off at three quarters of the turn
    assert_eq!(voice.next_sample(), 0);
    assert_eq!(voice.next_sample(), 500_000);
    assert_eq!(voice.next_sample(), 0);
    voice.note_on(1000);
    voice.note_off();
    assert_eq!(voice.set_sample_rate(0), Err(SynthError::ConfigurationError));
    assert_eq!(voice.set_sample_rate(8), Ok(()));
}

#[test]
fn synthwave() {
    let mut synth = CompoundWave::new();
    synth.push_addative_wave(Wave::sine(440_000, 15_000));
    synth.push_addative_wave(Wave::sine(660_000, 15_000));
    synth.push_addative_wave(Wave::sine(550_000, 15_000));
    synth.push_addative_wave(Wave::saw(4_000, 45_000));
    synth.push_addative_wave(Wave::saw(1_000, 90_000));
    synth.push_addative_wave(Wave::saw(1_000, 45_000));
    assert_eq!(synth.wave_count(), 6);
    // at most the sum of the amplitudes
    for _ in 0..48000 {
        let v = synth.next().unwrap();
        assert!(v.abs() <= 225_000);
    }
    assert_eq!(synth.head_time(), 1_000_000_000);
}

#[test]
fn monowave() {
    let mut mono = MonoWave::new(Wave::sine(440_000, 115_000));
    assert_eq!(mono.next(), Some(0));
    for _ in 0..48000 {
        let v = mono.next().unwrap();
        assert!(v.abs() <= 115_000);
    }
}
