//! Control and signal-routing core of a polyphonic subtractive synthesizer.
//!
//! The synthesizer is driven by a live event stream (note on/off, sustain
//! pedal, pitch bend, continuous controllers). Once per output sample it
//! resolves pending events into voice-lifecycle transitions, advances every
//! voice's signal path, combines the voice outputs, routes them through a
//! shared post-processing chain (a selectable filter followed by a tremolo
//! stage) and emits one output sample.
//!
//! This crate owns the parts of that pipeline that make decisions: the
//! voice allocator with its sustain-pedal hold logic, the event router, the
//! parameter-update protocol, the filter selection, and the sample-combining
//! arithmetic. The waveform, envelope, filter and tremolo algorithms
//! themselves are external black boxes: each is advanced once per tick by the
//! embedding program, which feeds their outputs back into this core.
//!
//! # Units
//!
//! All continuous quantities are carried as fixed-point integers:
//!
//! * audio samples are `i64` values scaled by 2^16 (`SAMPLE_ONE`);
//! * gain ratios are `u64` values scaled by 2^32 (`GAIN_ONE`);
//! * frequencies are in millihertz, times in milliseconds, levels and
//!   pitch-bend amounts in thousandths, transpositions and vibrato depths in
//!   thousandths of a semitone step, gains in thousandths of a decibel.

mod envelope;
mod event;
mod fixed;
mod laws;
mod message;
mod oscillator;
mod pool;
mod synth;
mod voice;

pub use envelope::EnvelopeState;
pub use event::Event;
pub use fixed::{
    gain_ratio_q32, lemma_gain_pow_le_max, lemma_gain_ratio_le_max, mix_oscillators, scale_q32,
    spec_div_tz, spec_gain_pow, spec_gain_ratio, spec_mul_q32_sat, spec_scale, spec_sum, GAIN_MAX,
    GAIN_ONE, MAX_VOICES, SAMPLE_LIMIT, SAMPLE_ONE,
};
pub use oscillator::{AntialiasType, OscillatorState, Waveform};
pub use message::{FilterType, FirstOrderMode, Message, SecondOrderMode};
pub use laws::{
    lemma_apply_message_preserves_wf, lemma_bend_round_trip, lemma_bend_round_trip_pool,
    lemma_broadcasts_preserve_wf, lemma_dispatch_nomap_preserves_wf, lemma_dispatch_preserves_wf,
    lemma_filter_selection_routes, lemma_full_pool_steals, lemma_note_on_binds,
    lemma_polyphony_bound, lemma_retrigger_reuses_voice, lemma_silence_scales_to_silence,
    lemma_sustain_semantics, lemma_sustain_semantics_pool, lemma_unmapped_controls_are_noops,
};
pub use pool::{
    find_note, lemma_find_note, lemma_note_off_wf, lemma_note_on_wf, spec_release_actions,
    PoolModel, VoicePool,
};
pub use synth::{
    lemma_run_events_snoc, spec_run_events, ControlMap, Dispatch, NoControls, SubtractiveSynth,
    SynthModel,
};
pub use voice::{spec_bend_millisteps, Voice, VoiceAction, VoiceUpdate};
