//! The voice pool: allocation, re-triggering, stealing, and broadcasts.

use subtractive_synth::{VoiceAction, VoicePool, VoiceUpdate, Waveform};

#[test]
fn a_fresh_pool_holds_nothing() {
    let p = VoicePool::new(4);
    assert_eq!(p.num_voices(), 4);
    assert_eq!(p.held_count(), 0);
    assert!(!p.is_held(60));
    assert_eq!(p.slot_of(60), None);
    assert!(!p.voice(0).key_held);
    assert!(!p.voice(0).env.gate);
}

#[test]
fn notes_fill_free_slots_in_order() {
    let mut p = VoicePool::new(3);
    assert_eq!(p.note_on(60), 0);
    assert_eq!(p.note_on(61), 1);
    assert_eq!(p.note_on(62), 2);
    assert_eq!(p.held_count(), 3);
    assert_eq!(p.slot_of(61), Some(1));
    assert!(p.voice(1).key_held);
    assert!(p.voice(1).env.gate);
    assert_eq!(p.voice(1).osc1.pitch, Some(61));
    assert_eq!(p.voice(1).osc2.pitch, Some(61));
}

#[test]
fn retriggering_a_held_note_reuses_its_voice() {
    let mut p = VoicePool::new(2);
    let first = p.note_on(60);
    let second = p.note_on(60);
    assert_eq!(first, second);
    assert_eq!(p.held_count(), 1);
    // The other voice is still free for the next note.
    assert_eq!(p.note_on(61), 1);
    assert_eq!(p.held_count(), 2);
}

#[test]
fn a_full_pool_steals_the_least_recently_triggered_voice() {
    let mut p = VoicePool::new(2);
    assert_eq!(p.note_on(60), 0);
    assert_eq!(p.note_on(61), 1);
    // The pool is full: the third note steals slot 0 and cuts note 60 off.
    assert_eq!(p.note_on(62), 0);
    assert_eq!(p.held_count(), 2);
    assert!(!p.is_held(60));
    assert_eq!(p.slot_of(62), Some(0));
    assert_eq!(p.slot_of(61), Some(1));
    // A fourth note steals slot 1, now the oldest trigger.
    assert_eq!(p.note_on(63), 1);
    assert!(!p.is_held(61));
}

#[test]
fn retriggering_refreshes_the_steal_order() {
    let mut p = VoicePool::new(2);
    assert_eq!(p.note_on(60), 0);
    assert_eq!(p.note_on(61), 1);
    // Re-trigger note 60: note 61 becomes the oldest trigger.
    assert_eq!(p.note_on(60), 0);
    assert_eq!(p.note_on(62), 1);
    assert!(p.is_held(60));
    assert!(!p.is_held(61));
}

#[test]
fn note_off_frees_the_voice_for_the_longest_wait() {
    let mut p = VoicePool::new(2);
    assert_eq!(p.note_on(60), 0);
    assert_eq!(p.note_on(61), 1);
    assert_eq!(p.note_off(60), Some(0));
    assert_eq!(p.note_off(61), Some(1));
    // Slot 0 has been free the longest and is taken first.
    assert_eq!(p.note_on(62), 0);
    assert_eq!(p.note_on(63), 1);
}

#[test]
fn a_stray_note_off_is_a_no_op() {
    let mut p = VoicePool::new(2);
    assert_eq!(p.note_off(60), None);
    let slot = p.note_on(60);
    assert_eq!(p.note_off(61), None);
    assert_eq!(p.held_count(), 1);
    assert_eq!(p.note_off(60), Some(slot));
    // The second note-off for the same note finds nothing.
    assert_eq!(p.note_off(60), None);
    assert_eq!(p.held_count(), 0);
}

#[test]
fn note_off_releases_only_without_sustain() {
    let mut p = VoicePool::new(1);
    let slot = p.note_on(60);
    let _ = p.set_pedal(true);
    assert_eq!(p.note_off(60), Some(slot));
    // The pedal is holding the voice: its envelope gate stays down.
    assert!(p.voice(slot).env.gate);
    assert!(!p.voice(slot).key_held);
    let acts = p.set_pedal(false);
    assert_eq!(acts, vec![VoiceAction::Release { slot: 0 }]);
    assert!(!p.voice(slot).env.gate);
}

#[test]
fn pedal_release_reports_voices_with_lifted_keys() {
    let mut p = VoicePool::new(3);
    let _ = p.note_on(60);
    let _ = p.note_on(61);
    let _ = p.note_on(62);
    let _ = p.set_pedal(true);
    let _ = p.note_off(60);
    let _ = p.note_off(62);
    let acts = p.set_pedal(false);
    assert_eq!(
        acts,
        vec![VoiceAction::Release { slot: 0 }, VoiceAction::Release { slot: 2 }]
    );
    // Note 61's key is still down: its voice keeps sounding.
    assert!(p.voice(1).env.gate);
}

#[test]
fn pressing_the_pedal_releases_nothing() {
    let mut p = VoicePool::new(2);
    let _ = p.note_on(60);
    let acts = p.set_pedal(true);
    assert_eq!(acts, Vec::new());
}

#[test]
fn pitch_bend_reaches_both_oscillators_of_every_voice() {
    let mut p = VoicePool::new(2);
    let _ = p.note_on(60);
    p.pitch_bend(500);
    assert_eq!(p.voice(0).osc1.bend_millisteps, 1000);
    assert_eq!(p.voice(0).osc2.bend_millisteps, 1000);
    assert_eq!(p.voice(1).osc1.bend_millisteps, 1000);
    p.pitch_bend(-250);
    assert_eq!(p.voice(0).osc1.bend_millisteps, -500);
}

#[test]
fn pitch_bend_clamps_to_the_wheel_range() {
    let mut p = VoicePool::new(1);
    p.pitch_bend(5000);
    assert_eq!(p.voice(0).osc1.bend_millisteps, 2000);
    p.pitch_bend(-5000);
    assert_eq!(p.voice(0).osc2.bend_millisteps, -2000);
}

#[test]
fn bend_round_trip_restores_the_tuning() {
    let mut p = VoicePool::new(1);
    let _ = p.note_on(72);
    let before_osc1 = p.voice(0).osc1;
    let before_osc2 = p.voice(0).osc2;
    p.pitch_bend(800);
    assert_ne!(p.voice(0).osc1, before_osc1);
    p.pitch_bend(0);
    assert_eq!(p.voice(0).osc1, before_osc1);
    assert_eq!(p.voice(0).osc2, before_osc2);
}

#[test]
fn parameter_updates_fan_out_to_every_voice() {
    let mut p = VoicePool::new(3);
    let _ = p.note_on(60);
    p.broadcast(VoiceUpdate::Osc1Waveform(Waveform::WhiteNoise));
    p.broadcast(VoiceUpdate::Attack(250));
    p.broadcast(VoiceUpdate::Vibrato(125));
    for i in 0..3 {
        assert_eq!(p.voice(i).osc1.waveform, Waveform::WhiteNoise);
        assert_eq!(p.voice(i).osc2.waveform, Waveform::Sine);
        assert_eq!(p.voice(i).env.attack_ms, 250);
        assert_eq!(p.voice(i).osc1.vibrato_millisteps, 125);
        assert_eq!(p.voice(i).osc2.vibrato_millisteps, 125);
    }
}

#[test]
fn any_note_number_is_accepted() {
    let mut p = VoicePool::new(1);
    let slot = p.note_on(200);
    assert_eq!(p.slot_of(200), Some(slot));
    assert_eq!(p.voice(slot).osc1.pitch, Some(200));
}
