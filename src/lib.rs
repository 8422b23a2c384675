//! A fixed-point audio synthesis core: waveform oscillators, an ADSR
//! envelope and a multi-oscillator mixer, each with a verified contract.
//!
//! Sample values and amplitudes are integers in millionths of full scale
//! (`ONE` is 1.0), frequencies are in millihertz, and time is a count of
//! samples over a sample rate, or nanoseconds for the envelope.

pub mod fixed;
pub mod envelope;
pub mod mixer;
pub mod mono;
pub mod voice;
pub mod wave;

pub use fixed::{SynthError, ONE};
pub use envelope::{AdsrView, ADSR};
pub use mixer::{CompoundView, CompoundWave, WaveOperation};
pub use mono::{MonoView, MonoWave};
pub use voice::{SynthType, Voice, VoiceView, NOTE_ON_STATUS};
pub use wave::{Wave, WaveShape, WaveView};
