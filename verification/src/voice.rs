//! One voice: a processing slot that can sound exactly one note at a time.
//!
//! A voice owns two independently tunable oscillators and one envelope, and
//! tracks two flags that drive the note lifecycle: whether its key is held
//! and whether the sustain pedal is holding it. A voice is releasing or
//! silent only when both flags are down; otherwise it is sounding or
//! sustaining.
//!
//! Its per-sample signal path — advance both oscillators with the shared
//! modulation sample, average their outputs, feed the average to the
//! envelope — runs through the external units; the averaging step is
//! [`crate::mix_oscillators`].

use crate::envelope::EnvelopeState;
use crate::oscillator::{OscillatorState, Waveform};
use vstd::prelude::*;

verus! {

/// One fan-out target of the parameter-update protocol: a setting replicated
/// uniformly to every voice.
#[derive(Clone, Copy, Debug, PartialEq, Eq, Structural)]
pub enum VoiceUpdate {
    /// Waveform of the first oscillator.
    Osc1Waveform(Waveform),
    /// Waveform of the second oscillator.
    Osc2Waveform(Waveform),
    /// Transposition of the first oscillator, in thousandths of a step.
    Osc1Transpose(i32),
    /// Transposition of the second oscillator, in thousandths of a step.
    Osc2Transpose(i32),
    /// Envelope attack duration, in milliseconds.
    Attack(u32),
    /// Envelope decay duration, in milliseconds.
    Decay(u32),
    /// Envelope sustain level, in thousandths of full amplitude.
    Sustain(u32),
    /// Envelope release duration, in milliseconds.
    Release(u32),
    /// Vibrato depth of both oscillators, in thousandths of a step.
    Vibrato(i32),
}

/// A side effect of the note lifecycle that the embedding program must relay
/// to the external units.
#[derive(Clone, Copy, Debug, PartialEq, Eq, Structural)]
pub enum VoiceAction {
    /// Retune both oscillators of voice `slot` to `note` and put the
    /// envelope gate down.
    Trigger { slot: usize, note: u8 },
    /// Put the envelope gate of voice `slot` up: the voice starts its
    /// release.
    Release { slot: usize },
    /// Apply a pitch bend of `millisteps` thousandths of a step to every
    /// voice's oscillators.
    Bend { millisteps: i32 },
}

/// The pitch bend both oscillators receive for a wheel position of `v`
/// thousandths: two semitone steps at full deflection, clamped to the
/// nominal wheel range.
pub open spec fn spec_bend_millisteps(v: i32) -> i32 {
    if v < -1000 {
        (-2000) as i32
    } else if v > 1000 {
        2000 as i32
    } else {
        (2 * v) as i32
    }
}

/// One processing slot of the voice pool.
#[derive(Clone, Copy, Debug, PartialEq, Eq, Structural)]
pub struct Voice {
    /// Whether the voice's key is currently held down.
    pub key_held: bool,
    /// Whether the sustain pedal is holding this voice.
    pub sustain_held: bool,
    /// The first tone generator.
    pub osc1: OscillatorState,
    /// The second tone generator.
    pub osc2: OscillatorState,
    /// The amplitude envelope.
    pub env: EnvelopeState,
}

impl Voice {
    /// The state every voice starts in: no key held, no sustain, default
    /// oscillators and envelope.
    pub open spec fn spec_default() -> Voice {
        Voice {
            key_held: false,
            sustain_held: false,
            osc1: OscillatorState::spec_default(),
            osc2: OscillatorState::spec_default(),
            env: EnvelopeState::spec_default(),
        }
    }

    /// A key was struck on this voice: tune both oscillators to the note,
    /// put the envelope gate down, mark the key held.
    pub open spec fn spec_note_on(self, note: u8) -> Voice {
        Voice {
            key_held: true,
            osc1: OscillatorState { pitch: Some(note), ..self.osc1 },
            osc2: OscillatorState { pitch: Some(note), ..self.osc2 },
            env: EnvelopeState { gate: true, ..self.env },
            ..self
        }
    }

    /// The key was lifted: the envelope gate comes up only if the sustain
    /// pedal is not holding the voice.
    pub open spec fn spec_note_off(self) -> Voice {
        Voice {
            key_held: false,
            env: EnvelopeState { gate: self.sustain_held && self.env.gate, ..self.env },
            ..self
        }
    }

    /// The sustain pedal moved. Pressing it has no envelope effect by
    /// itself; releasing it lifts the envelope gate only for a voice whose key has
    /// already been lifted.
    pub open spec fn spec_set_pedal(self, on: bool) -> Voice {
        if on {
            Voice { sustain_held: true, ..self }
        } else {
            Voice {
                sustain_held: false,
                env: EnvelopeState { gate: self.key_held && self.env.gate, ..self.env },
                ..self
            }
        }
    }

    /// The pitch-bend wheel moved to `v` thousandths: both oscillators
    /// receive the same bend amount, so they track in pitch.
    pub open spec fn spec_pitch_bend(self, v: i32) -> Voice {
        Voice {
            osc1: OscillatorState { bend_millisteps: spec_bend_millisteps(v), ..self.osc1 },
            osc2: OscillatorState { bend_millisteps: spec_bend_millisteps(v), ..self.osc2 },
            ..self
        }
    }

    /// One parameter setting, fanned out to this voice.
    pub open spec fn spec_apply(self, u: VoiceUpdate) -> Voice {
        match u {
            VoiceUpdate::Osc1Waveform(w) => Voice {
                osc1: OscillatorState { waveform: w, ..self.osc1 },
                ..self
            },
            VoiceUpdate::Osc2Waveform(w) => Voice {
                osc2: OscillatorState { waveform: w, ..self.osc2 },
                ..self
            },
            VoiceUpdate::Osc1Transpose(t) => Voice {
                osc1: OscillatorState { transpose_millisteps: t, ..self.osc1 },
                ..self
            },
            VoiceUpdate::Osc2Transpose(t) => Voice {
                osc2: OscillatorState { transpose_millisteps: t, ..self.osc2 },
                ..self
            },
            VoiceUpdate::Attack(ms) => Voice {
                env: EnvelopeState { attack_ms: ms, ..self.env },
                ..self
            },
            VoiceUpdate::Decay(ms) => Voice {
                env: EnvelopeState { decay_ms: ms, ..self.env },
                ..self
            },
            VoiceUpdate::Sustain(milli) => Voice {
                env: EnvelopeState { sustain_milli: milli, ..self.env },
                ..self
            },
            VoiceUpdate::Release(ms) => Voice {
                env: EnvelopeState { release_ms: ms, ..self.env },
                ..self
            },
            VoiceUpdate::Vibrato(v) => Voice {
                osc1: OscillatorState { vibrato_millisteps: v, ..self.osc1 },
                osc2: OscillatorState { vibrato_millisteps: v, ..self.osc2 },
                ..self
            },
        }
    }

    /// Returns a fresh voice in the default state.
    pub fn new() -> (r: Voice)
        ensures
            r == Voice::spec_default(),
    {
        Voice {
            key_held: false,
            sustain_held: false,
            osc1: OscillatorState::new(),
            osc2: OscillatorState::new(),
            env: EnvelopeState::new(),
        }
    }

    /// A key was struck on this voice.
    pub fn note_on(&mut self, note: u8)
        ensures
            *final(self) == old(self).spec_note_on(note),
    {
        self.key_held = true;
        self.osc1.pitch = Some(note);
        self.osc2.pitch = Some(note);
        self.env.gate = true;
    }

    /// The key playing this voice was lifted.
    pub fn note_off(&mut self)
        ensures
            *final(self) == old(self).spec_note_off(),
    {
        self.key_held = false;
        if !self.sustain_held {
            self.env.gate = false;
        }
    }

    /// The sustain pedal moved.
    pub fn set_pedal(&mut self, on: bool)
        ensures
            *final(self) == old(self).spec_set_pedal(on),
    {
        if on {
            self.sustain_held = true;
        } else {
            self.sustain_held = false;
            if !self.key_held {
                self.env.gate = false;
            }
        }
    }

    /// The pitch-bend wheel moved to `v` thousandths.
    pub fn pitch_bend(&mut self, v: i32)
        ensures
            *final(self) == old(self).spec_pitch_bend(v),
    {
        let millisteps: i32 = if v < -1000 {
            -2000
        } else if v > 1000 {
            2000
        } else {
            2 * v
        };
        self.osc1.bend_millisteps = millisteps;
        self.osc2.bend_millisteps = millisteps;
    }

    /// Applies one fanned-out parameter setting to this voice.
    pub fn apply(&mut self, u: VoiceUpdate)
        ensures
            *final(self) == old(self).spec_apply(u),
    {
        match u {
            VoiceUpdate::Osc1Waveform(w) => {
                self.osc1.waveform = w;
            },
            VoiceUpdate::Osc2Waveform(w) => {
                self.osc2.waveform = w;
            },
            VoiceUpdate::Osc1Transpose(t) => {
                self.osc1.transpose_millisteps = t;
            },
            VoiceUpdate::Osc2Transpose(t) => {
                self.osc2.transpose_millisteps = t;
            },
            VoiceUpdate::Attack(ms) => {
                self.env.attack_ms = ms;
            },
            VoiceUpdate::Decay(ms) => {
                self.env.decay_ms = ms;
            },
            VoiceUpdate::Sustain(milli) => {
                self.env.sustain_milli = milli;
            },
            VoiceUpdate::Release(ms) => {
                self.env.release_ms = ms;
            },
            VoiceUpdate::Vibrato(v) => {
                self.osc1.vibrato_millisteps = v;
                self.osc2.vibrato_millisteps = v;
            },
        }
    }
}

} // verus!
