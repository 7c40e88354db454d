//! The control-side state of one voice's amplitude envelope.
//!
//! The envelope's curve generation is an external unit. This module records
//! what the core tells that unit: the four stage parameters it was last
//! configured with, and whether its gate is down (a note is sounding or
//! sustaining) or up (the note has been released).

use vstd::prelude::*;

verus! {

/// The envelope parameters of one voice, plus the note-lifecycle envelope
/// gate.
#[derive(Clone, Copy, Debug, PartialEq, Eq, Structural)]
pub struct EnvelopeState {
    /// Attack duration, in milliseconds.
    pub attack_ms: u32,
    /// Decay duration, in milliseconds.
    pub decay_ms: u32,
    /// Sustain level, in thousandths of full amplitude.
    pub sustain_milli: u32,
    /// Release duration, in milliseconds.
    pub release_ms: u32,
    /// `true` from note-down until note-up: the voice is sounding or
    /// sustaining. `false` once released: the voice is decaying to silence
    /// or silent.
    pub gate: bool,
}

impl EnvelopeState {
    /// The envelope every voice starts with: a 50 ms attack and decay to a
    /// half-amplitude sustain, a 50 ms release, and the envelope gate lifted. These
    /// defaults are this crate's documented choice; every figure can be
    /// reconfigured by message.
    pub open spec fn spec_default() -> EnvelopeState {
        EnvelopeState { attack_ms: 50, decay_ms: 50, sustain_milli: 500, release_ms: 50, gate: false }
    }

    /// Returns the default envelope state.
    pub fn new() -> (r: EnvelopeState)
        ensures
            r == EnvelopeState::spec_default(),
    {
        EnvelopeState { attack_ms: 50, decay_ms: 50, sustain_milli: 500, release_ms: 50, gate: false }
    }
}

} // verus!
