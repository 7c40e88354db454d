//! The load-bearing laws of the core, each stated over the same model
//! functions that the executable operations are proved to implement.

use crate::event::Event;
use crate::fixed::{spec_scale, GAIN_ONE};
use crate::message::{FirstOrderMode, Message, SecondOrderMode};
use crate::pool::{find_note, lemma_find_note, PoolModel};
use crate::synth::{spec_run_events, SynthModel};
use crate::voice::Voice;
use vstd::prelude::*;

verus! {

/// Polyphony is bounded by the pool: at most as many distinct notes are held
/// as the pool has voices, and every held note has exactly one voice.
pub proof fn lemma_polyphony_bound(p: PoolModel)
    requires
        p.wf(),
    ensures
        p.bindings.len() <= p.voices.len(),
        forall|i: int, j: int|
            0 <= i < j < p.bindings.len() ==> (#[trigger] p.bindings[i]).0 != (
            #[trigger] p.bindings[j]).0,
{
}

/// A note arriving at a full pool steals the least-recently-triggered voice
/// rather than being dropped: the pool stays fully occupied, the new note is
/// held by the voice that held the oldest note, and the oldest note is cut
/// off.
pub proof fn lemma_full_pool_steals(p: PoolModel, note: u8)
    requires
        p.wf(),
        p.free.len() == 0,
        !p.is_held(note),
    ensures
        p.spec_note_on(note).0.wf(),
        p.spec_note_on(note).0.bindings.len() == p.bindings.len(),
        p.spec_note_on(note).0.is_held(note),
        p.spec_note_on(note).1 == p.bindings[0].1,
        !p.spec_note_on(note).0.is_held(p.bindings[0].0),
{
    crate::pool::lemma_note_on_wf(p, note);
    lemma_find_note(p.bindings, note);
    let s = p.bindings[0].1;
    let old_note = p.bindings[0].0;
    let b2 = p.bindings.drop_first();
    let b3 = b2.push((note, s));
    assert(forall|k: int| 0 <= k < b2.len() ==> #[trigger] b2[k] == p.bindings[k + 1]);
    // The new note is held: its binding is the last entry.
    lemma_find_note(b3, note);
    assert(b3[b3.len() - 1].0 == note);
    // The stolen note is held by nobody: it differed from every other note,
    // and from the new note.
    lemma_find_note(b3, old_note);
    assert forall|k: int| 0 <= k < b3.len() implies (#[trigger] b3[k]).0 != old_note by {
        if k < b2.len() {
            assert(b3[k] == p.bindings[k + 1]);
        } else {
            assert(b3[k] == (note, s));
        }
    }
}

/// Re-triggering a held note reuses its voice and consumes no further pool
/// slot: the same notes are bound to the same voices afterwards — only the
/// trigger order moves — and the free list is untouched.
pub proof fn lemma_retrigger_reuses_voice(p: PoolModel, note: u8)
    requires
        p.wf(),
        p.is_held(note),
    ensures
        p.spec_note_on(note).0.wf(),
        p.spec_note_on(note).0.bindings.len() == p.bindings.len(),
        p.spec_note_on(note).0.bindings.to_multiset() == p.bindings.to_multiset(),
        p.spec_note_on(note).0.free == p.free,
        Some(p.spec_note_on(note).1) == p.slot_of(note),
    decreases p.bindings.len(),
{
    crate::pool::lemma_note_on_wf(p, note);
    lemma_find_note(p.bindings, note);
    let j = find_note(p.bindings, note);
    let s = p.bindings[j].1;
    assert(p.bindings[j] == (note, s));
    let b2 = p.bindings.remove(j);
    vstd::seq_lib::to_multiset_remove(p.bindings, j);
    vstd::seq_lib::to_multiset_build(b2, (note, s));
    broadcast use vstd::multiset::group_multiset_axioms;

    p.bindings.to_multiset_ensures();
    assert(p.bindings.contains(p.bindings[j]));
    assert(p.bindings.to_multiset().count((note, s)) >= 1);
    assert(b2.push((note, s)).to_multiset() =~= p.bindings.to_multiset());
}

/// After a note-on, the note's binding is the youngest: it sits at the back
/// of the trigger order, no earlier binding carries the note, and the chosen
/// voice has been triggered.
pub proof fn lemma_note_on_binds(p: PoolModel, note: u8)
    requires
        p.wf(),
    ensures
        p.spec_note_on(note).0.bindings.len() >= 1,
        p.spec_note_on(note).0.bindings.last() == (note, p.spec_note_on(note).1),
        forall|k: int|
            0 <= k < p.spec_note_on(note).0.bindings.len() - 1 ==> (
            #[trigger] p.spec_note_on(note).0.bindings[k]).0 != note,
        p.spec_note_on(note).0.slot_of(note) == Some(p.spec_note_on(note).1),
        p.spec_note_on(note).0.voices[p.spec_note_on(note).1 as int] == p.voices[p.spec_note_on(
            note,
        ).1 as int].spec_note_on(note),
{
    crate::pool::lemma_note_on_wf(p, note);
    lemma_find_note(p.bindings, note);
    let (q, slot) = p.spec_note_on(note);
    let j = find_note(p.bindings, note);
    if j >= 0 {
        let b2 = p.bindings.remove(j);
        p.bindings.remove_ensures(j);
        assert forall|k: int| 0 <= k < b2.len() implies (#[trigger] b2[k]).0 != note by {
            if k < j {
                assert(b2[k] == p.bindings[k]);
            } else {
                assert(b2[k] == p.bindings[k + 1]);
            }
        }
    } else if p.free.len() == 0 {
        let b2 = p.bindings.drop_first();
        assert(forall|k: int| 0 <= k < b2.len() ==> #[trigger] b2[k] == p.bindings[k + 1]);
    }
    lemma_find_note(q.bindings, note);
    assert(q.bindings.last().0 == note);
    let f = find_note(q.bindings, note);
    assert(f == q.bindings.len() - 1) by {
        if f < q.bindings.len() - 1 {
            assert(q.bindings[f].0 != note);
        }
    }
}

/// The sustain-pedal semantics, at the level of one voice. Lifting the key
/// while the pedal holds the voice does not release it; the pedal coming up
/// afterwards does. In the other order — pedal up first while the key is
/// still down — the voice is not released early; the key lift releases it.
pub proof fn lemma_sustain_semantics(v: Voice, note: u8)
    ensures
        v.spec_note_on(note).spec_set_pedal(true).spec_note_off().env.gate,
        !v.spec_note_on(note).spec_set_pedal(true).spec_note_off().spec_set_pedal(false).env.gate,
        v.spec_note_on(note).spec_set_pedal(true).spec_set_pedal(false).env.gate,
        !v.spec_note_on(note).spec_set_pedal(true).spec_set_pedal(false).spec_note_off().env.gate,
{
}

/// The sustain-pedal semantics, carried through the pool's own event
/// transitions: strike a note, press the pedal, lift the key — the voice is
/// still not released; release the pedal — the voice starts its release.
pub proof fn lemma_sustain_semantics_pool(p: PoolModel, note: u8)
    requires
        p.wf(),
    ensures
        ({
            let (p1, slot) = p.spec_note_on(note);
            let p2 = p1.spec_set_pedal(true);
            let p3 = p2.spec_note_off(note).0;
            let p4 = p3.spec_set_pedal(false);
            &&& p2.spec_note_off(note).1 == Some(slot)
            &&& p3.voices[slot as int].env.gate
            &&& !p4.voices[slot as int].env.gate
        }),
{
    lemma_note_on_binds(p, note);
    crate::pool::lemma_note_on_wf(p, note);
    let (p1, slot) = p.spec_note_on(note);
    let p2 = p1.spec_set_pedal(true);
    let p3 = p2.spec_note_off(note).0;
    let p4 = p3.spec_set_pedal(false);
    lemma_find_note(p1.bindings, note);
    assert(p2.bindings == p1.bindings);
    let j = find_note(p2.bindings, note);
    assert(j == p1.bindings.len() - 1) by {
        if j < p1.bindings.len() - 1 {
            assert(p1.bindings[j].0 != note);
        }
        if j == -1 {
            assert(p1.bindings[p1.bindings.len() - 1].0 != note);
        }
    }
    assert(p2.bindings[j].1 == slot);
    assert(p2.voices[slot as int] == p1.voices[slot as int].spec_set_pedal(true));
    assert(p3.voices[slot as int] == p2.voices[slot as int].spec_note_off());
    assert(p4.voices[slot as int] == p3.voices[slot as int].spec_set_pedal(false));
}

/// Selecting a filter family changes which filter's output reaches the
/// tremolo stage on the very next tick: after a selection message, the
/// router hands on exactly the selected filter's sample.
pub proof fn lemma_filter_selection_routes(
    s: SynthModel,
    first_mode: FirstOrderMode,
    second_mode: SecondOrderMode,
    first_out: i64,
    second_out: i64,
)
    ensures
        s.spec_apply_message(Message::SetFilterFirstOrder(first_mode)).0.spec_route(
            first_out,
            second_out,
        ) == first_out,
        s.spec_apply_message(Message::SetFilterSecondOrder(second_mode)).0.spec_route(
            first_out,
            second_out,
        ) == second_out,
{
}

/// Silence scales to silence: a silent post-chain sample leaves the tick's
/// output at zero whatever gain is configured.
pub proof fn lemma_silence_scales_to_silence(g: u64)
    ensures
        spec_scale(g, 0) == 0,
{
    vstd::arithmetic::mul::lemma_mul_by_zero_is_zero(g as int);
    vstd::arithmetic::div_mod::lemma_div_basics(GAIN_ONE as int);
}

/// Every broadcast transition of the pool preserves its structural
/// soundness: fan-outs touch voices, never the bindings.
pub proof fn lemma_broadcasts_preserve_wf(p: PoolModel, on: bool, bend: i32, u: crate::voice::VoiceUpdate)
    requires
        p.wf(),
    ensures
        p.spec_set_pedal(on).wf(),
        p.spec_pitch_bend(bend).wf(),
        p.spec_broadcast(u).wf(),
{
}

/// Every event transition preserves the synthesizer's structural soundness.
pub proof fn lemma_dispatch_nomap_preserves_wf(s: SynthModel, e: Event)
    requires
        s.wf(),
    ensures
        s.spec_dispatch_nomap(e).0.wf(),
{
    match e {
        Event::NoteOn(note, _velocity) => {
            crate::pool::lemma_note_on_wf(s.pool, note);
        },
        Event::NoteOff(note, _velocity) => {
            crate::pool::lemma_note_off_wf(s.pool, note);
        },
        Event::SustainPedal(_on) => {},
        Event::PitchBend(_v) => {},
        Event::ControlChange(_controller, _value) => {},
    }
}

/// Every message transition preserves the synthesizer's structural
/// soundness; in particular, every gain the decibel law produces is
/// representable.
pub proof fn lemma_apply_message_preserves_wf(s: SynthModel, m: Message)
    requires
        s.wf(),
    ensures
        s.spec_apply_message(m).0.wf(),
{
    match m {
        Message::SetGain(mdb) => {
            crate::fixed::lemma_gain_ratio_le_max(mdb);
        },
        Message::SendMidiEvent(e) => {
            lemma_dispatch_nomap_preserves_wf(s, e);
        },
        _ => {},
    }
}

/// The router's transition preserves the synthesizer's structural soundness,
/// whatever the control map answered.
pub proof fn lemma_dispatch_preserves_wf(s: SynthModel, e: Event, mapped: Option<Message>)
    requires
        s.wf(),
    ensures
        s.spec_dispatch(e, mapped).0.wf(),
{
    match e {
        Event::ControlChange(_controller, _value) => {
            if s.has_controls {
                match mapped {
                    Some(m) => lemma_apply_message_preserves_wf(s, m),
                    None => {},
                }
            }
        },
        _ => {
            lemma_dispatch_nomap_preserves_wf(s, e);
        },
    }
}

/// With no control map configured, controller-change events are idempotent
/// no-ops: a run of any length leaves every parameter and every voice
/// unchanged, whatever answers the router is handed.
pub proof fn lemma_unmapped_controls_are_noops(
    s: SynthModel,
    es: Seq<Event>,
    mapped: Seq<Option<Message>>,
)
    requires
        !s.has_controls,
        es.len() == mapped.len(),
        forall|k: int|
            0 <= k < es.len() ==> (#[trigger] es[k]) matches Event::ControlChange(_c, _v),
    ensures
        spec_run_events(s, es, mapped) == s,
    decreases es.len(),
{
    if es.len() > 0 {
        assert(es[0] matches Event::ControlChange(_c, _v));
        assert(s.spec_dispatch(es[0], mapped[0]).0 == s);
        assert(forall|k: int|
            0 <= k < es.drop_first().len() ==> #[trigger] es.drop_first()[k] == es[k + 1]);
        lemma_unmapped_controls_are_noops(s, es.drop_first(), mapped.drop_first());
    }
}

/// A pitch bend applied and wound back to center restores a voice's
/// original tuning exactly, for a voice that was not already bent.
pub proof fn lemma_bend_round_trip(v: Voice, amount: i32)
    requires
        v.osc1.bend_millisteps == 0,
        v.osc2.bend_millisteps == 0,
    ensures
        v.spec_pitch_bend(amount).spec_pitch_bend(0) == v,
{
}

/// The bend round trip holds for the whole pool: bending every voice and
/// winding the wheel back restores the pool exactly, when no voice was
/// already bent.
pub proof fn lemma_bend_round_trip_pool(p: PoolModel, amount: i32)
    requires
        forall|i: int|
            0 <= i < p.voices.len() ==> (#[trigger] p.voices[i]).osc1.bend_millisteps == 0
                && p.voices[i].osc2.bend_millisteps == 0,
    ensures
        p.spec_pitch_bend(amount).spec_pitch_bend(0) == p,
{
    let once = p.spec_pitch_bend(amount);
    let back = once.spec_pitch_bend(0);
    assert forall|i: int| 0 <= i < p.voices.len() implies #[trigger] back.voices[i]
        == p.voices[i] by {
        lemma_bend_round_trip(p.voices[i], amount);
    }
    assert(back.voices =~= p.voices);
}

} // verus!
