//! The parameter-update protocol: every externally adjustable value, as a
//! message.
//!
//! A message carries exactly the data needed to apply one change; no message
//! depends on prior ordering except that the last write to a field wins.
//! Messages are transient: they are consumed immediately upon application.

use crate::event::Event;
use crate::oscillator::Waveform;
use vstd::prelude::*;

verus! {

/// The mode of the single-pole filter. Cutoffs are in millihertz, shelf
/// gains in thousandths of a decibel.
#[derive(Clone, Copy, Debug, PartialEq, Eq, Structural)]
pub enum FirstOrderMode {
    /// Pass below the cutoff.
    LowPass(u32),
    /// Pass above the cutoff.
    HighPass(u32),
    /// Shelve the gain below the cutoff.
    LowShelf(u32, i32),
    /// Shelve the gain above the cutoff.
    HighShelf(u32, i32),
}

/// The mode of the two-pole filter. Cutoffs are in millihertz, gains in
/// thousandths of a decibel, quality factors in thousandths.
#[derive(Clone, Copy, Debug, PartialEq, Eq, Structural)]
pub enum SecondOrderMode {
    /// Pass below the cutoff.
    LowPass(u32),
    /// Pass above the cutoff.
    HighPass(u32),
    /// Shelve the gain below the cutoff.
    LowShelf(u32, i32),
    /// Shelve the gain above the cutoff.
    HighShelf(u32, i32),
    /// Boost or cut a band around the cutoff: cutoff, gain, quality factor.
    Peak(u32, i32, u32),
}

/// Which of the two filters' output reaches the tremolo stage. Both filters
/// advance every tick regardless, so the unselected one stays warm and a
/// switch causes no discontinuity from stale state.
#[derive(Clone, Copy, Debug, PartialEq, Eq, Structural)]
pub enum FilterType {
    /// The single-pole filter is selected.
    FirstOrder,
    /// The two-pole filter is selected.
    SecondOrder,
}

/// The messages the synthesizer responds to.
#[derive(Clone, Copy, Debug, PartialEq, Eq, Structural)]
pub enum Message {
    /// Sets the output gain, in thousandths of a decibel.
    SetGain(i32),
    /// Sets the waveform for the first oscillator.
    SetOsc1(Waveform),
    /// Sets the waveform for the second oscillator.
    SetOsc2(Waveform),
    /// Sets the transposition of the first oscillator, in thousandths of a
    /// step.
    SetOsc1Transpose(i32),
    /// Sets the transposition of the second oscillator, in thousandths of a
    /// step.
    SetOsc2Transpose(i32),
    /// Sets the envelope attack duration, in milliseconds.
    SetAttack(u32),
    /// Sets the envelope decay duration, in milliseconds.
    SetDecay(u32),
    /// Sets the envelope sustain level, in thousandths of full amplitude.
    SetSustain(u32),
    /// Sets the envelope release duration, in milliseconds.
    SetRelease(u32),
    /// Sets the modulation oscillator's frequency, in millihertz.
    SetLFOFreq(u32),
    /// Sets the vibrato depth, in thousandths of a step.
    SetVibrato(i32),
    /// Sets the tremolo depth, in thousandths of a decibel.
    SetTremolo(i32),
    /// Selects the single-pole filter and sets its mode, in one coupled
    /// change.
    SetFilterFirstOrder(FirstOrderMode),
    /// Selects the two-pole filter and sets its mode, in one coupled change.
    SetFilterSecondOrder(SecondOrderMode),
    /// Feeds the wrapped event through the synthesizer's event router.
    SendMidiEvent(Event),
}

} // verus!
