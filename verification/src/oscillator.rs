//! The control-side state of one tone generator.
//!
//! The waveform synthesis itself is an external unit; this module records
//! everything the core decides about a generator — which waveform it runs,
//! which note it is tuned to, and its transposition, pitch-bend and vibrato
//! settings — so that those decisions can be specified and checked exactly.

use vstd::prelude::*;

verus! {

/// Antialiasing method for the discontinuous waveforms.
#[derive(Clone, Copy, Debug, PartialEq, Eq, Structural)]
pub enum AntialiasType {
    /// Naive, aliasing rendition.
    Aliased,
    /// Antialiased rendition.
    PolyBlep,
}

/// The waveform an oscillator generates.
#[derive(Clone, Copy, Debug, PartialEq, Eq, Structural)]
pub enum Waveform {
    /// A sine wave.
    Sine,
    /// A saw wave.
    Saw(AntialiasType),
    /// A square wave.
    Square(AntialiasType),
    /// A triangle wave.
    Tri(AntialiasType),
    /// Pure white noise.
    WhiteNoise,
    /// A series of impulses.
    PulseTrain,
}

/// The tuning state of one oscillator.
#[derive(Clone, Copy, Debug, PartialEq, Eq, Structural)]
pub struct OscillatorState {
    /// The waveform being generated.
    pub waveform: Waveform,
    /// The note the oscillator is tuned to, or `None` before the first
    /// trigger. The frequency itself (in hertz) is derived from this note by
    /// the external tone generator.
    pub pitch: Option<u8>,
    /// Fixed transposition, in thousandths of a semitone step.
    pub transpose_millisteps: i32,
    /// Momentary pitch bend, in thousandths of a semitone step.
    pub bend_millisteps: i32,
    /// Vibrato depth: how far the shared modulation sample swings the pitch,
    /// in thousandths of a semitone step.
    pub vibrato_millisteps: i32,
}

impl OscillatorState {
    /// The state every oscillator starts in: an untriggered sine wave with no
    /// transposition, no bend and no vibrato.
    pub open spec fn spec_default() -> OscillatorState {
        OscillatorState {
            waveform: Waveform::Sine,
            pitch: None,
            transpose_millisteps: 0,
            bend_millisteps: 0,
            vibrato_millisteps: 0,
        }
    }

    /// Returns the default oscillator state.
    pub fn new() -> (r: OscillatorState)
        ensures
            r == OscillatorState::spec_default(),
    {
        OscillatorState {
            waveform: Waveform::Sine,
            pitch: None,
            transpose_millisteps: 0,
            bend_millisteps: 0,
            vibrato_millisteps: 0,
        }
    }
}

} // verus!
