//! The live events that drive the synthesizer.

use vstd::prelude::*;

verus! {

/// One event of the live stream, timestamped implicitly by its delivery
/// order within a tick.
///
/// Velocities and pedal/bend amounts are carried in thousandths of their
/// nominal unit ranges: a velocity of 1000 is full strike strength, a bend of
/// -1000 is a full bend down and 1000 a full bend up. Bend values outside
/// that range are clamped where they are applied. Controller numbers and
/// values follow the seven-bit convention of control surfaces (0 to 127).
#[derive(Clone, Copy, Debug, PartialEq, Eq, Structural)]
pub enum Event {
    /// A key was struck: note number and velocity.
    NoteOn(u8, u32),
    /// A key was lifted: note number and velocity.
    NoteOff(u8, u32),
    /// The sustain pedal was pressed (`true`) or released (`false`).
    SustainPedal(bool),
    /// The pitch-bend wheel moved, in thousandths of the full range.
    PitchBend(i32),
    /// A continuous controller moved: controller number and value.
    ControlChange(u8, u8),
}

} // verus!
