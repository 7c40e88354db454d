//! The synthesizer: routing, sustain semantics, parameters, and the
//! per-tick combining stages.

use subtractive_synth::{
    AntialiasType, ControlMap, Event, FilterType, FirstOrderMode, Message, SecondOrderMode,
    SubtractiveSynth, VoiceAction, Waveform, GAIN_MAX, GAIN_ONE,
};

/// A control map in the style of a small keyboard's knob row: knob 22 sets
/// the attack, knob 26 the modulation rate, everything else is unmapped.
struct KnobRow;

impl ControlMap for KnobRow {
    fn map_control(&self, controller: u8, value: u8) -> Option<Message> {
        let milli = value as u32 * 1000 / 127;
        match controller {
            22 => Some(Message::SetAttack(5 * milli)),
            23 => Some(Message::SetDecay(5 * milli)),
            24 => Some(Message::SetSustain(milli)),
            25 => Some(Message::SetRelease(5 * milli)),
            26 => Some(Message::SetLFOFreq(10 * milli)),
            27 => Some(Message::SetVibrato(milli as i32)),
            _ => None,
        }
    }
}

/// A control map that wraps an event in a message, to drive the router
/// through the message path.
struct NoteTrigger;

impl ControlMap for NoteTrigger {
    fn map_control(&self, controller: u8, _value: u8) -> Option<Message> {
        if controller == 1 {
            Some(Message::SendMidiEvent(Event::NoteOn(70, 1000)))
        } else {
            Some(Message::SendMidiEvent(Event::ControlChange(1, 1)))
        }
    }
}

#[test]
fn a_fresh_synth_has_the_documented_defaults() {
    let s = SubtractiveSynth::new(4);
    assert_eq!(s.num_voices(), 4);
    assert_eq!(s.gain, GAIN_ONE);
    assert_eq!(s.lfo_freq_mhz, 10000);
    assert_eq!(s.filter, FilterType::FirstOrder);
    assert_eq!(s.first_mode, FirstOrderMode::LowPass(20000000));
    assert_eq!(s.second_mode, SecondOrderMode::LowPass(20000000));
    assert_eq!(s.tremolo_mdb, 0);
    assert_eq!(s.pool.held_count(), 0);
}

#[test]
fn note_events_drive_the_voice_allocator() {
    let mut s = SubtractiveSynth::new(2);
    let d = s.handle_event(Event::NoteOn(60, 900));
    assert_eq!(d.mapped, None);
    assert_eq!(d.actions, vec![VoiceAction::Trigger { slot: 0, note: 60 }]);
    assert!(s.pool.voice(0).env.gate);
    let d = s.handle_event(Event::NoteOff(60, 0));
    assert_eq!(d.actions, vec![VoiceAction::Release { slot: 0 }]);
    assert!(!s.pool.voice(0).env.gate);
    // A stray note-off produces nothing.
    let d = s.handle_event(Event::NoteOff(99, 0));
    assert_eq!(d.actions, Vec::new());
}

#[test]
fn sustain_holds_a_lifted_note_until_the_pedal_comes_up() {
    let mut s = SubtractiveSynth::new(2);
    let _ = s.handle_event(Event::NoteOn(60, 900));
    let _ = s.handle_event(Event::SustainPedal(true));
    let d = s.handle_event(Event::NoteOff(60, 0));
    // The voice is not released: the pedal holds it, so no release action.
    assert_eq!(d.actions, Vec::new());
    assert!(s.pool.voice(0).env.gate);
    assert!(!s.pool.voice(0).key_held);
    // The pedal comes up: now the voice transitions to release.
    let d = s.handle_event(Event::SustainPedal(false));
    assert!(d.actions.contains(&VoiceAction::Release { slot: 0 }));
    assert!(!s.pool.voice(0).env.gate);
}

#[test]
fn pedal_release_before_note_off_does_not_release_early() {
    let mut s = SubtractiveSynth::new(2);
    let _ = s.handle_event(Event::NoteOn(60, 900));
    let _ = s.handle_event(Event::SustainPedal(true));
    let _ = s.handle_event(Event::SustainPedal(false));
    // The key is still down: the voice keeps sounding.
    assert!(s.pool.voice(0).env.gate);
    let _ = s.handle_event(Event::NoteOff(60, 0));
    assert!(!s.pool.voice(0).env.gate);
}

#[test]
fn retriggering_a_note_consumes_no_second_slot() {
    let mut s = SubtractiveSynth::new(2);
    let d1 = s.handle_event(Event::NoteOn(60, 900));
    let d2 = s.handle_event(Event::NoteOn(60, 900));
    assert_eq!(d1.actions, d2.actions);
    assert_eq!(s.pool.held_count(), 1);
}

#[test]
fn polyphony_beyond_the_pool_steals_instead_of_failing() {
    let mut s = SubtractiveSynth::new(2);
    let _ = s.handle_event(Event::NoteOn(60, 900));
    let _ = s.handle_event(Event::NoteOn(61, 900));
    let d = s.handle_event(Event::NoteOn(62, 900));
    assert_eq!(d.actions, vec![VoiceAction::Trigger { slot: 0, note: 62 }]);
    assert_eq!(s.pool.held_count(), 2);
    assert!(!s.pool.is_held(60));
}

#[test]
fn filter_selection_switches_the_routing_for_the_next_tick() {
    let mut s = SubtractiveSynth::new(2);
    let _ = s.handle_message(Message::SetFilterFirstOrder(FirstOrderMode::HighPass(300000)));
    assert_eq!(s.filter, FilterType::FirstOrder);
    assert_eq!(s.first_mode, FirstOrderMode::HighPass(300000));
    assert_eq!(s.route_filter(7, 9), 7);
    // Switch mid-stream: the very next routing picks the other filter.
    let _ = s.handle_message(Message::SetFilterSecondOrder(SecondOrderMode::Peak(
        1000000, -3000, 700,
    )));
    assert_eq!(s.filter, FilterType::SecondOrder);
    assert_eq!(s.second_mode, SecondOrderMode::Peak(1000000, -3000, 700));
    assert_eq!(s.route_filter(7, 9), 9);
    // The unselected filter's mode is untouched.
    assert_eq!(s.first_mode, FirstOrderMode::HighPass(300000));
}

#[test]
fn a_silent_voice_bank_yields_a_zero_output_sample() {
    let mut s = SubtractiveSynth::new(3);
    let _ = s.handle_message(Message::SetGain(-6000));
    let silent = vec![0i64, 0, 0];
    let mixed = s.mix_voices(&silent);
    assert_eq!(mixed, 0);
    let routed = s.route_filter(mixed, mixed);
    assert_eq!(s.output_stage(routed), 0);
}

#[test]
fn the_mix_scales_by_the_voice_count() {
    let s = SubtractiveSynth::new(4);
    assert_eq!(s.mix_voices(&vec![100, 200, 300, 400]), 250);
    assert_eq!(s.mix_voices(&vec![-100, -200, -300, -401]), -250);
    assert_eq!(s.mix_voices(&vec![1, 0, 0, 0]), 0);
}

#[test]
fn gain_is_stored_as_a_ratio_and_applied_at_the_output() {
    let mut s = SubtractiveSynth::new(2);
    let _ = s.handle_message(Message::SetGain(0));
    assert_eq!(s.gain, GAIN_ONE);
    assert_eq!(s.output_stage(5000), 5000);
    let _ = s.handle_message(Message::SetGain(96000));
    assert_eq!(s.gain, GAIN_MAX);
    let _ = s.handle_message(Message::SetGain(-6000));
    assert_eq!(s.gain, 1078845252);
    // About a quarter of the input comes through at -6 dB.
    assert_eq!(s.output_stage(65536), 16461);
}

#[test]
fn unmapped_controller_changes_leave_everything_unchanged() {
    let mut s = SubtractiveSynth::new(3);
    let _ = s.handle_event(Event::NoteOn(60, 900));
    let pool_before = s.pool.clone();
    let gain_before = s.gain;
    let filter_before = s.filter;
    for tick in 0..1000u32 {
        let d = s.handle_event(Event::ControlChange((tick % 128) as u8, (tick % 127) as u8));
        assert_eq!(d.mapped, None);
        assert_eq!(d.actions, Vec::new());
    }
    assert_eq!(s.pool, pool_before);
    assert_eq!(s.gain, gain_before);
    assert_eq!(s.filter, filter_before);
    assert_eq!(s.lfo_freq_mhz, 10000);
    assert_eq!(s.tremolo_mdb, 0);
}

#[test]
fn a_configured_map_turns_knob_moves_into_updates() {
    let mut s = SubtractiveSynth::new(2).control_map(KnobRow);
    let d = s.handle_event(Event::ControlChange(22, 127));
    assert_eq!(d.mapped, Some(Message::SetAttack(5000)));
    assert_eq!(s.pool.voice(0).env.attack_ms, 5000);
    assert_eq!(s.pool.voice(1).env.attack_ms, 5000);
    let d = s.handle_event(Event::ControlChange(26, 127));
    assert_eq!(d.mapped, Some(Message::SetLFOFreq(10000)));
    // An unmapped knob is ignored.
    let d = s.handle_event(Event::ControlChange(99, 64));
    assert_eq!(d.mapped, None);
    assert_eq!(s.pool.voice(0).env.attack_ms, 5000);
}

#[test]
fn a_mapped_event_message_goes_through_the_router_once() {
    let mut s = SubtractiveSynth::new(2).control_map(NoteTrigger);
    // The map answers with a wrapped note-on: the note is triggered.
    let d = s.handle_event(Event::ControlChange(1, 0));
    assert_eq!(d.actions, vec![VoiceAction::Trigger { slot: 0, note: 70 }]);
    assert!(s.pool.is_held(70));
    // The map answers with a wrapped controller change: the router does not
    // consult the map again, so nothing happens.
    let d = s.handle_event(Event::ControlChange(2, 0));
    assert_eq!(d.actions, Vec::new());
    assert_eq!(s.pool.held_count(), 1);
}

#[test]
fn wrapped_events_reach_the_router_through_messages() {
    let mut s = SubtractiveSynth::new(2);
    let d = s.handle_message(Message::SendMidiEvent(Event::NoteOn(64, 800)));
    assert_eq!(d.actions, vec![VoiceAction::Trigger { slot: 0, note: 64 }]);
    let d = s.handle_message(Message::SendMidiEvent(Event::PitchBend(250)));
    assert_eq!(d.actions, vec![VoiceAction::Bend { millisteps: 500 }]);
    assert_eq!(s.pool.voice(0).osc1.bend_millisteps, 500);
}

#[test]
fn pitch_bend_round_trip_restores_the_pitch_exactly() {
    let mut s = SubtractiveSynth::new(2);
    let _ = s.handle_event(Event::NoteOn(60, 900));
    let osc1_before = s.pool.voice(0).osc1;
    let osc2_before = s.pool.voice(0).osc2;
    let _ = s.handle_event(Event::PitchBend(777));
    assert_eq!(s.pool.voice(0).osc1.bend_millisteps, 1554);
    let _ = s.handle_event(Event::PitchBend(0));
    assert_eq!(s.pool.voice(0).osc1, osc1_before);
    assert_eq!(s.pool.voice(0).osc2, osc2_before);
}

#[test]
fn the_builder_applies_settings_in_call_order() {
    let s = SubtractiveSynth::new(4)
        .gain(-6000)
        .osc1(Waveform::Saw(AntialiasType::PolyBlep))
        .osc2(Waveform::Square(AntialiasType::Aliased))
        .osc1_transpose(-12000)
        .osc2_transpose(7000)
        .adsr(5, 50, 500, 100)
        .lfo(5000)
        .vibrato(100)
        .tremolo(3000)
        .second_order(SecondOrderMode::LowPass(8000000));
    assert_eq!(s.gain, 1078845252);
    assert_eq!(s.lfo_freq_mhz, 5000);
    assert_eq!(s.tremolo_mdb, 3000);
    assert_eq!(s.filter, FilterType::SecondOrder);
    assert_eq!(s.second_mode, SecondOrderMode::LowPass(8000000));
    for i in 0..4 {
        let v = s.pool.voice(i);
        assert_eq!(v.osc1.waveform, Waveform::Saw(AntialiasType::PolyBlep));
        assert_eq!(v.osc2.waveform, Waveform::Square(AntialiasType::Aliased));
        assert_eq!(v.osc1.transpose_millisteps, -12000);
        assert_eq!(v.osc2.transpose_millisteps, 7000);
        assert_eq!(v.env.attack_ms, 5);
        assert_eq!(v.env.decay_ms, 50);
        assert_eq!(v.env.sustain_milli, 500);
        assert_eq!(v.env.release_ms, 100);
        assert_eq!(v.osc1.vibrato_millisteps, 100);
    }
    // The builder settings survive into later event handling.
    let mut s = s;
    let _ = s.handle_event(Event::NoteOn(69, 1000));
    assert_eq!(s.pool.voice(0).osc1.waveform, Waveform::Saw(AntialiasType::PolyBlep));
}

#[test]
fn a_tick_drains_its_events_in_delivery_order() {
    let mut s = SubtractiveSynth::new(2);
    let events = vec![
        Event::NoteOn(60, 900),
        Event::SustainPedal(true),
        Event::NoteOff(60, 0),
        Event::SustainPedal(false),
    ];
    let ds = s.handle_events(&events);
    assert_eq!(ds.len(), 4);
    assert_eq!(ds[0].actions, vec![VoiceAction::Trigger { slot: 0, note: 60 }]);
    assert_eq!(ds[1].actions, Vec::new());
    // The pedal held the note through its note-off...
    assert_eq!(ds[2].actions, Vec::new());
    // ...and the pedal release finally let it go. The idle voice gets the
    // same (idempotent) release, as the broadcast reaches every voice whose
    // key is up.
    assert_eq!(
        ds[3].actions,
        vec![VoiceAction::Release { slot: 0 }, VoiceAction::Release { slot: 1 }]
    );
    assert!(!s.pool.voice(0).env.gate);
    assert_eq!(s.pool.held_count(), 0);
}

#[test]
fn a_one_voice_synth_works() {
    let mut s = SubtractiveSynth::new(1);
    let d = s.handle_event(Event::NoteOn(60, 900));
    assert_eq!(d.actions, vec![VoiceAction::Trigger { slot: 0, note: 60 }]);
    let d = s.handle_event(Event::NoteOn(61, 900));
    assert_eq!(d.actions, vec![VoiceAction::Trigger { slot: 0, note: 61 }]);
    assert!(!s.pool.is_held(60));
    assert_eq!(s.mix_voices(&vec![42]), 42);
}
