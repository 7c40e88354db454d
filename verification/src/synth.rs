//! The synthesizer: voice pool, modulation source, post chain and router.
//!
//! The synthesizer owns the voice pool, the modulation oscillator's setting,
//! the filter selector with both filters' modes, the tremolo depth and the
//! master gain, and dispatches incoming events by kind: note events go to
//! the voice allocator, controller changes go through the optional control
//! map, and everything else is broadcast to every voice.
//!
//! # One tick
//!
//! Per output sample the embedding program:
//!
//! 1. hands every event pending for the tick to [`SubtractiveSynth::handle_event`],
//!    in delivery order, and relays the returned actions and mapped messages
//!    to the external units;
//! 2. advances the modulation oscillator and captures its one output sample;
//! 3. advances every voice's tone generators with that sample, averages each
//!    pair with [`crate::mix_oscillators`], and advances each voice's
//!    envelope on the average;
//! 4. combines the envelope outputs with [`SubtractiveSynth::mix_voices`],
//!    which scales the sum by one over the voice count;
//! 5. advances both filters on the mix — both every tick, so the unselected
//!    one stays warm — and picks the selected output with
//!    [`SubtractiveSynth::route_filter`];
//! 6. advances the tremolo stage on the routed sample and the modulation
//!    sample;
//! 7. applies the master gain with [`SubtractiveSynth::output_stage`] and
//!    emits the result.

use crate::event::Event;
use crate::fixed::{
    gain_ratio_q32, scale_q32, spec_div_tz, spec_gain_ratio, spec_scale, spec_sum, GAIN_MAX,
    GAIN_ONE, MAX_VOICES, SAMPLE_LIMIT,
};
use crate::message::{FilterType, FirstOrderMode, Message, SecondOrderMode};
use crate::pool::{spec_release_actions, PoolModel, VoicePool};
use crate::voice::{spec_bend_millisteps, Voice, VoiceAction, VoiceUpdate};
use vstd::prelude::*;

verus! {

/// A user-supplied mapping from controller-change events to parameter
/// messages: the strategy object injected at construction time.
///
/// An implementation is consulted once per controller-change event with the
/// controller number and value, both 0 to 127 by convention. Returning a
/// message applies it immediately; returning `None` ignores the event.
pub trait ControlMap {
    /// Maps one controller move to a parameter message, or to nothing.
    fn map_control(&self, controller: u8, value: u8) -> Option<Message>;
}

/// The control map of a synthesizer that was built without one; it is never
/// consulted.
#[derive(Clone, Copy, Debug, PartialEq, Eq, Structural)]
pub struct NoControls;

impl ControlMap for NoControls {
    fn map_control(&self, _controller: u8, _value: u8) -> Option<Message> {
        None
    }
}

/// What dispatching one event or message produced: the parameter message the
/// control map yielded, if any, and the voice actions the embedding program
/// must relay to the external units, in order.
#[derive(Clone, Debug, PartialEq)]
pub struct Dispatch {
    /// The message the control map returned for a controller-change event.
    pub mapped: Option<Message>,
    /// The note-lifecycle side effects, in the order they occurred.
    pub actions: Vec<VoiceAction>,
}

/// The mathematical state of a [`SubtractiveSynth`].
pub struct SynthModel {
    /// The voice pool.
    pub pool: PoolModel,
    /// Whether a control map is configured.
    pub has_controls: bool,
    /// The master gain as a linear ratio, scaled by `GAIN_ONE`.
    pub gain: u64,
    /// The modulation oscillator's frequency, in millihertz.
    pub lfo_freq_mhz: u32,
    /// Which filter's output reaches the tremolo stage.
    pub filter: FilterType,
    /// The single-pole filter's mode.
    pub first_mode: FirstOrderMode,
    /// The two-pole filter's mode.
    pub second_mode: SecondOrderMode,
    /// The tremolo depth, in thousandths of a decibel.
    pub tremolo_mdb: i32,
}

impl SynthModel {
    /// Structural soundness: the pool is sound and the gain representable.
    pub open spec fn wf(self) -> bool {
        &&& self.pool.wf()
        &&& self.gain <= GAIN_MAX
    }

    /// The state a fresh synthesizer starts in: `n` default voices, no
    /// control map, unity gain, a 10 Hz modulation oscillator, and the
    /// single-pole filter selected with both filters wide open at 20 kHz.
    ///
    /// The voice mix is already scaled by one over the voice count in
    /// [`SubtractiveSynth::mix_voices`], so the master gain starts at unity
    /// rather than carrying that headroom itself.
    pub open spec fn spec_initial(n: nat) -> SynthModel {
        SynthModel {
            pool: PoolModel {
                voices: Seq::new(n, |i: int| Voice::spec_default()),
                bindings: Seq::empty(),
                free: Seq::new(n, |i: int| i as usize),
            },
            has_controls: false,
            gain: GAIN_ONE,
            lfo_freq_mhz: 10000,
            filter: FilterType::FirstOrder,
            first_mode: FirstOrderMode::LowPass(20000000),
            second_mode: SecondOrderMode::LowPass(20000000),
            tremolo_mdb: 0,
        }
    }

    /// The router's transition for an event, with the control map left out
    /// of the picture: a controller change is ignored. This is how events
    /// wrapped in a mapped message are dispatched, so that a map cannot
    /// re-enter itself.
    pub open spec fn spec_dispatch_nomap(self, e: Event) -> (SynthModel, Seq<VoiceAction>) {
        match e {
            Event::NoteOn(note, _velocity) => {
                let (p, slot) = self.pool.spec_note_on(note);
                (
                    SynthModel { pool: p, ..self },
                    seq![VoiceAction::Trigger { slot, note }],
                )
            },
            Event::NoteOff(note, _velocity) => {
                let (p, unbound) = self.pool.spec_note_off(note);
                let acts = match unbound {
                    Some(slot) => if self.pool.voices[slot as int].sustain_held {
                        Seq::<VoiceAction>::empty()
                    } else {
                        seq![VoiceAction::Release { slot }]
                    },
                    None => Seq::<VoiceAction>::empty(),
                };
                (SynthModel { pool: p, ..self }, acts)
            },
            Event::SustainPedal(on) => {
                let acts = if on {
                    Seq::<VoiceAction>::empty()
                } else {
                    spec_release_actions(self.pool.voices)
                };
                (SynthModel { pool: self.pool.spec_set_pedal(on), ..self }, acts)
            },
            Event::PitchBend(v) => (
                SynthModel { pool: self.pool.spec_pitch_bend(v), ..self },
                seq![VoiceAction::Bend { millisteps: spec_bend_millisteps(v) }],
            ),
            Event::ControlChange(_controller, _value) => (self, Seq::<VoiceAction>::empty()),
        }
    }

    /// The parameter-application transition: every message variant has a
    /// defined target, and updates fan out to every voice uniformly. Gain
    /// messages arrive in thousandths of a decibel and are stored as a
    /// linear ratio. Filter messages both select a filter and set its mode,
    /// as one coupled change.
    pub open spec fn spec_apply_message(self, m: Message) -> (SynthModel, Seq<VoiceAction>) {
        match m {
            Message::SetGain(mdb) => (
                SynthModel { gain: spec_gain_ratio(mdb), ..self },
                Seq::<VoiceAction>::empty(),
            ),
            Message::SetOsc1(w) => (
                SynthModel { pool: self.pool.spec_broadcast(VoiceUpdate::Osc1Waveform(w)), ..self },
                Seq::<VoiceAction>::empty(),
            ),
            Message::SetOsc2(w) => (
                SynthModel { pool: self.pool.spec_broadcast(VoiceUpdate::Osc2Waveform(w)), ..self },
                Seq::<VoiceAction>::empty(),
            ),
            Message::SetOsc1Transpose(t) => (
                SynthModel {
                    pool: self.pool.spec_broadcast(VoiceUpdate::Osc1Transpose(t)),
                    ..self
                },
                Seq::<VoiceAction>::empty(),
            ),
            Message::SetOsc2Transpose(t) => (
                SynthModel {
                    pool: self.pool.spec_broadcast(VoiceUpdate::Osc2Transpose(t)),
                    ..self
                },
                Seq::<VoiceAction>::empty(),
            ),
            Message::SetAttack(ms) => (
                SynthModel { pool: self.pool.spec_broadcast(VoiceUpdate::Attack(ms)), ..self },
                Seq::<VoiceAction>::empty(),
            ),
            Message::SetDecay(ms) => (
                SynthModel { pool: self.pool.spec_broadcast(VoiceUpdate::Decay(ms)), ..self },
                Seq::<VoiceAction>::empty(),
            ),
            Message::SetSustain(milli) => (
                SynthModel { pool: self.pool.spec_broadcast(VoiceUpdate::Sustain(milli)), ..self },
                Seq::<VoiceAction>::empty(),
            ),
            Message::SetRelease(ms) => (
                SynthModel { pool: self.pool.spec_broadcast(VoiceUpdate::Release(ms)), ..self },
                Seq::<VoiceAction>::empty(),
            ),
            Message::SetLFOFreq(mhz) => (
                SynthModel { lfo_freq_mhz: mhz, ..self },
                Seq::<VoiceAction>::empty(),
            ),
            Message::SetVibrato(v) => (
                SynthModel { pool: self.pool.spec_broadcast(VoiceUpdate::Vibrato(v)), ..self },
                Seq::<VoiceAction>::empty(),
            ),
            Message::SetTremolo(mdb) => (
                SynthModel { tremolo_mdb: mdb, ..self },
                Seq::<VoiceAction>::empty(),
            ),
            Message::SetFilterFirstOrder(mode) => (
                SynthModel { filter: FilterType::FirstOrder, first_mode: mode, ..self },
                Seq::<VoiceAction>::empty(),
            ),
            Message::SetFilterSecondOrder(mode) => (
                SynthModel { filter: FilterType::SecondOrder, second_mode: mode, ..self },
                Seq::<VoiceAction>::empty(),
            ),
            Message::SendMidiEvent(e) => self.spec_dispatch_nomap(e),
        }
    }

    /// The router's transition for an event. `mapped` is what the control
    /// map returned if the event is a controller change and a map is
    /// configured; with no map configured, a controller change leaves the
    /// state untouched.
    pub open spec fn spec_dispatch(self, e: Event, mapped: Option<Message>) -> (
        SynthModel,
        Seq<VoiceAction>,
    ) {
        match e {
            Event::ControlChange(_controller, _value) => if self.has_controls {
                match mapped {
                    Some(m) => self.spec_apply_message(m),
                    None => (self, Seq::<VoiceAction>::empty()),
                }
            } else {
                (self, Seq::<VoiceAction>::empty())
            },
            _ => self.spec_dispatch_nomap(e),
        }
    }

    /// The message-handling transition: a wrapped event goes through the
    /// router, with the control map in play; every other message is applied
    /// directly.
    pub open spec fn spec_handle_message(self, m: Message, mapped: Option<Message>) -> (
        SynthModel,
        Seq<VoiceAction>,
    ) {
        match m {
            Message::SendMidiEvent(e) => self.spec_dispatch(e, mapped),
            _ => self.spec_apply_message(m),
        }
    }

    /// Which filter output the post chain routes onward.
    pub open spec fn spec_route(self, first_out: i64, second_out: i64) -> i64 {
        match self.filter {
            FilterType::FirstOrder => first_out,
            FilterType::SecondOrder => second_out,
        }
    }
}

/// The synthesizer state after a run of events, each dispatched with the
/// control-map answer the router was handed for it.
pub open spec fn spec_run_events(
    s: SynthModel,
    es: Seq<Event>,
    mapped: Seq<Option<Message>>,
) -> SynthModel
    decreases es.len(),
{
    if es.len() == 0 {
        s
    } else {
        spec_run_events(s.spec_dispatch(es[0], mapped[0]).0, es.drop_first(), mapped.drop_first())
    }
}

/// Extending a run by one event dispatches that event from the run's final
/// state.
pub proof fn lemma_run_events_snoc(
    s: SynthModel,
    es: Seq<Event>,
    mapped: Seq<Option<Message>>,
    e: Event,
    m: Option<Message>,
)
    requires
        es.len() == mapped.len(),
    ensures
        spec_run_events(s, es.push(e), mapped.push(m)) == spec_run_events(
            s,
            es,
            mapped,
        ).spec_dispatch(e, m).0,
    decreases es.len(),
{
    if es.len() == 0 {
        assert(es.push(e)[0] == e);
        assert(mapped.push(m)[0] == m);
        assert(es.push(e).drop_first() =~= Seq::<Event>::empty());
        assert(mapped.push(m).drop_first() =~= Seq::<Option<Message>>::empty());
        let s1 = s.spec_dispatch(e, m).0;
        assert(spec_run_events(s1, Seq::<Event>::empty(), Seq::<Option<Message>>::empty()) == s1);
        assert(spec_run_events(s, es.push(e), mapped.push(m)) == s1);
        assert(spec_run_events(s, es, mapped) == s);
    } else {
        assert(es.push(e)[0] == es[0]);
        assert(mapped.push(m)[0] == mapped[0]);
        assert(es.push(e).drop_first() =~= es.drop_first().push(e));
        assert(mapped.push(m).drop_first() =~= mapped.drop_first().push(m));
        let s1 = s.spec_dispatch(es[0], mapped[0]).0;
        lemma_run_events_snoc(s1, es.drop_first(), mapped.drop_first(), e, m);
        assert(spec_run_events(s, es.push(e), mapped.push(m)) == spec_run_events(
            s1,
            es.drop_first().push(e),
            mapped.drop_first().push(m),
        ));
        assert(spec_run_events(s, es, mapped) == spec_run_events(
            s1,
            es.drop_first(),
            mapped.drop_first(),
        ));
    }
}

/// A polyphonic subtractive synthesizer's control core.
pub struct SubtractiveSynth<C: ControlMap> {
    /// The voice pool and note allocator.
    pub pool: VoicePool,
    /// The control map, if one was configured.
    pub controls: Option<C>,
    /// The master gain as a linear ratio, scaled by `GAIN_ONE`.
    pub gain: u64,
    /// The modulation oscillator's frequency, in millihertz.
    pub lfo_freq_mhz: u32,
    /// Which filter's output reaches the tremolo stage.
    pub filter: FilterType,
    /// The single-pole filter's mode.
    pub first_mode: FirstOrderMode,
    /// The two-pole filter's mode.
    pub second_mode: SecondOrderMode,
    /// The tremolo depth, in thousandths of a decibel.
    pub tremolo_mdb: i32,
}

impl<C: ControlMap> View for SubtractiveSynth<C> {
    type V = SynthModel;

    open spec fn view(&self) -> SynthModel {
        SynthModel {
            pool: self.pool@,
            has_controls: self.controls is Some,
            gain: self.gain,
            lfo_freq_mhz: self.lfo_freq_mhz,
            filter: self.filter,
            first_mode: self.first_mode,
            second_mode: self.second_mode,
            tremolo_mdb: self.tremolo_mdb,
        }
    }
}

impl SubtractiveSynth<NoControls> {
    /// Builds a synthesizer that can play `num_voices` notes at one time,
    /// with no control map configured.
    pub fn new(num_voices: usize) -> (r: SubtractiveSynth<NoControls>)
        requires
            1 <= num_voices <= MAX_VOICES,
        ensures
            r.wf(),
            r@ == SynthModel::spec_initial(num_voices as nat),
    {
        let r = SubtractiveSynth {
            pool: VoicePool::new(num_voices),
            controls: None,
            gain: GAIN_ONE,
            lfo_freq_mhz: 10000,
            filter: FilterType::FirstOrder,
            first_mode: FirstOrderMode::LowPass(20000000),
            second_mode: SecondOrderMode::LowPass(20000000),
            tremolo_mdb: 0,
        };
        proof {
            let m = SynthModel::spec_initial(num_voices as nat);
            assert(r@.pool.voices =~= m.pool.voices);
            assert(r@.pool.bindings =~= m.pool.bindings);
            assert(r@.pool.free =~= m.pool.free);
        }
        r
    }
}

impl<C: ControlMap> SubtractiveSynth<C> {
    /// Structural soundness; established at construction and preserved by
    /// every operation.
    pub open spec fn wf(self) -> bool {
        self@.wf()
    }

    /// Sets the control map, keeping the rest of the state, and returns the
    /// same synthesizer.
    pub fn control_map<D: ControlMap>(self, map: D) -> (r: SubtractiveSynth<D>)
        ensures
            r@ == (SynthModel { has_controls: true, ..self@ }),
            self.wf() ==> r.wf(),
    {
        SubtractiveSynth {
            pool: self.pool,
            controls: Some(map),
            gain: self.gain,
            lfo_freq_mhz: self.lfo_freq_mhz,
            filter: self.filter,
            first_mode: self.first_mode,
            second_mode: self.second_mode,
            tremolo_mdb: self.tremolo_mdb,
        }
    }

    /// The number of voices the synthesizer was built with.
    pub fn num_voices(&self) -> (n: usize)
        ensures
            n == self@.pool.voices.len(),
    {
        self.pool.num_voices()
    }

    /// Applies a message that is not consulted against the control map: a
    /// parameter update, or a wrapped event dispatched without the map.
    fn apply_message(&mut self, m: Message) -> (acts: Vec<VoiceAction>)
        requires
            old(self).wf(),
        ensures
            final(self).wf(),
            final(self)@ == old(self)@.spec_apply_message(m).0,
            acts@ == old(self)@.spec_apply_message(m).1,
            final(self).controls == old(self).controls,
    {
        match m {
            Message::SetGain(mdb) => {
                self.gain = gain_ratio_q32(mdb);
                Vec::new()
            },
            Message::SetOsc1(w) => {
                self.pool.broadcast(VoiceUpdate::Osc1Waveform(w));
                Vec::new()
            },
            Message::SetOsc2(w) => {
                self.pool.broadcast(VoiceUpdate::Osc2Waveform(w));
                Vec::new()
            },
            Message::SetOsc1Transpose(t) => {
                self.pool.broadcast(VoiceUpdate::Osc1Transpose(t));
                Vec::new()
            },
            Message::SetOsc2Transpose(t) => {
                self.pool.broadcast(VoiceUpdate::Osc2Transpose(t));
                Vec::new()
            },
            Message::SetAttack(ms) => {
                self.pool.broadcast(VoiceUpdate::Attack(ms));
                Vec::new()
            },
            Message::SetDecay(ms) => {
                self.pool.broadcast(VoiceUpdate::Decay(ms));
                Vec::new()
            },
            Message::SetSustain(milli) => {
                self.pool.broadcast(VoiceUpdate::Sustain(milli));
                Vec::new()
            },
            Message::SetRelease(ms) => {
                self.pool.broadcast(VoiceUpdate::Release(ms));
                Vec::new()
            },
            Message::SetLFOFreq(mhz) => {
                self.lfo_freq_mhz = mhz;
                Vec::new()
            },
            Message::SetVibrato(v) => {
                self.pool.broadcast(VoiceUpdate::Vibrato(v));
                Vec::new()
            },
            Message::SetTremolo(mdb) => {
                self.tremolo_mdb = mdb;
                Vec::new()
            },
            Message::SetFilterFirstOrder(mode) => {
                self.filter = FilterType::FirstOrder;
                self.first_mode = mode;
                Vec::new()
            },
            Message::SetFilterSecondOrder(mode) => {
                self.filter = FilterType::SecondOrder;
                self.second_mode = mode;
                Vec::new()
            },
            Message::SendMidiEvent(e) => self.dispatch_nomap(e),
        }
    }

    /// Dispatches an event without consulting the control map.
    fn dispatch_nomap(&mut self, e: Event) -> (acts: Vec<VoiceAction>)
        requires
            old(self).wf(),
        ensures
            final(self).wf(),
            final(self)@ == old(self)@.spec_dispatch_nomap(e).0,
            acts@ == old(self)@.spec_dispatch_nomap(e).1,
            final(self).controls == old(self).controls,
    {
        match e {
            Event::NoteOn(note, _velocity) => {
                let slot = self.pool.note_on(note);
                let mut acts: Vec<VoiceAction> = Vec::new();
                acts.push(VoiceAction::Trigger { slot, note });
                acts
            },
            Event::NoteOff(note, _velocity) => {
                let mut acts: Vec<VoiceAction> = Vec::new();
                match self.pool.slot_of(note) {
                    Some(slot) => {
                        proof {
                            crate::pool::lemma_find_note(self@.pool.bindings, note);
                            let j = crate::pool::find_note(self@.pool.bindings, note);
                            assert(slot == self@.pool.bindings[j].1);
                        }
                        let sustained = self.pool.voice(slot).sustain_held;
                        let _ = self.pool.note_off(note);
                        if !sustained {
                            acts.push(VoiceAction::Release { slot });
                        }
                    },
                    None => {
                        let _ = self.pool.note_off(note);
                    },
                }
                acts
            },
            Event::SustainPedal(on) => self.pool.set_pedal(on),
            Event::PitchBend(v) => {
                self.pool.pitch_bend(v);
                let millisteps: i32 = if v < -1000 {
                    -2000
                } else if v > 1000 {
                    2000
                } else {
                    2 * v
                };
                let mut acts: Vec<VoiceAction> = Vec::new();
                acts.push(VoiceAction::Bend { millisteps });
                acts
            },
            Event::ControlChange(_controller, _value) => Vec::new(),
        }
    }

    /// Dispatches one event by kind: note events to the voice allocator, a
    /// controller change through the control map (ignored when no map is
    /// configured — that is a defined no-op, not an error), everything else
    /// broadcast to every voice.
    pub fn handle_event(&mut self, e: Event) -> (d: Dispatch)
        requires
            old(self).wf(),
        ensures
            final(self).wf(),
            final(self)@ == old(self)@.spec_dispatch(e, d.mapped).0,
            d.actions@ == old(self)@.spec_dispatch(e, d.mapped).1,
            !old(self)@.has_controls ==> d.mapped is None,
            final(self).controls == old(self).controls,
    {
        match e {
            Event::ControlChange(controller, value) => {
                let mapped: Option<Message> = match &self.controls {
                    Some(map) => map.map_control(controller, value),
                    None => None,
                };
                match mapped {
                    Some(m) => {
                        let acts = self.apply_message(m);
                        Dispatch { mapped: Some(m), actions: acts }
                    },
                    None => Dispatch { mapped: None, actions: Vec::new() },
                }
            },
            _ => Dispatch { mapped: None, actions: self.dispatch_nomap(e) },
        }
    }

    /// Performs the action a message specifies. A wrapped event goes through
    /// the router with the control map in play.
    pub fn handle_message(&mut self, m: Message) -> (d: Dispatch)
        requires
            old(self).wf(),
        ensures
            final(self).wf(),
            final(self)@ == old(self)@.spec_handle_message(m, d.mapped).0,
            d.actions@ == old(self)@.spec_handle_message(m, d.mapped).1,
            !old(self)@.has_controls ==> d.mapped is None,
            final(self).controls == old(self).controls,
    {
        match m {
            Message::SendMidiEvent(e) => self.handle_event(e),
            _ => Dispatch { mapped: None, actions: self.apply_message(m) },
        }
    }

    /// Drains one tick's pending events, in delivery order, and returns what
    /// each one produced, in the same order. The final state is the run of
    /// all the events over the dispatch transition.
    pub fn handle_events(&mut self, events: &Vec<Event>) -> (ds: Vec<Dispatch>)
        requires
            old(self).wf(),
        ensures
            final(self).wf(),
            ds@.len() == events@.len(),
            final(self)@ == spec_run_events(
                old(self)@,
                events@,
                ds@.map_values(|d: Dispatch| d.mapped),
            ),
            !old(self)@.has_controls ==> forall|k: int|
                0 <= k < ds@.len() ==> (#[trigger] ds@[k]).mapped is None,
            final(self).controls == old(self).controls,
    {
        let mut ds: Vec<Dispatch> = Vec::new();
        let n = events.len();
        let mut i: usize = 0;
        while i < n
            invariant
                i <= n,
                n == events@.len(),
                ds@.len() == i,
                self.wf(),
                self.controls == old(self).controls,
                self@ == spec_run_events(
                    old(self)@,
                    events@.subrange(0, i as int),
                    ds@.map_values(|d: Dispatch| d.mapped),
                ),
                !old(self)@.has_controls ==> forall|k: int|
                    0 <= k < ds@.len() ==> (#[trigger] ds@[k]).mapped is None,
            decreases n - i,
        {
            let ghost pre = self@;
            let ghost prefix = events@.subrange(0, i as int);
            let ghost ms = ds@.map_values(|d: Dispatch| d.mapped);
            let d = self.handle_event(events[i]);
            proof {
                lemma_run_events_snoc(old(self)@, prefix, ms, events@[i as int], d.mapped);
                assert(events@.subrange(0, i + 1 as int) =~= prefix.push(events@[i as int]));
                assert(ds@.push(d).map_values(|x: Dispatch| x.mapped) =~= ms.push(d.mapped));
            }
            ds.push(d);
            i = i + 1;
        }
        proof {
            assert(events@.subrange(0, n as int) =~= events@);
        }
        ds
    }

    /// Combines the voices' envelope outputs for one tick: their sum, scaled
    /// by one over the voice count so the mix stays bounded whatever the
    /// polyphony.
    pub fn mix_voices(&self, outs: &Vec<i64>) -> (r: i64)
        requires
            self.wf(),
            outs@.len() == self@.pool.voices.len(),
            forall|k: int| 0 <= k < outs@.len() ==> -SAMPLE_LIMIT <= #[trigger] outs@[k] <= SAMPLE_LIMIT,
        ensures
            r == spec_div_tz(spec_sum(outs@), self@.pool.voices.len() as int),
    {
        let n = outs.len();
        let mut acc: i64 = 0;
        let mut i: usize = 0;
        while i < n
            invariant
                i <= n,
                n == outs@.len(),
                n <= MAX_VOICES,
                forall|k: int|
                    0 <= k < outs@.len() ==> -SAMPLE_LIMIT <= #[trigger] outs@[k] <= SAMPLE_LIMIT,
                acc == spec_sum(outs@.subrange(0, i as int)),
                -(i as int) * (SAMPLE_LIMIT as int) <= acc <= (i as int) * (SAMPLE_LIMIT as int),
            decreases n - i,
        {
            proof {
                let pfx1 = outs@.subrange(0, i + 1 as int);
                assert(pfx1.drop_last() =~= outs@.subrange(0, i as int));
                assert(pfx1.last() == outs@[i as int]);
                assert((i as int) * (SAMPLE_LIMIT as int) + SAMPLE_LIMIT == ((i + 1) as int) * (
                SAMPLE_LIMIT as int)) by (nonlinear_arith);
                assert(((i + 1) as int) * (SAMPLE_LIMIT as int) <= (MAX_VOICES as int) * (
                SAMPLE_LIMIT as int)) by (nonlinear_arith)
                    requires
                        i + 1 <= MAX_VOICES,
                ;
            }
            acc = acc + outs[i];
            i = i + 1;
        }
        proof {
            assert(outs@.subrange(0, n as int) =~= outs@);
            assert((n as int) * (SAMPLE_LIMIT as int) <= (MAX_VOICES as int) * (SAMPLE_LIMIT as int))
                by (nonlinear_arith)
                requires
                    n <= MAX_VOICES,
            ;
        }
        crate::fixed::div_tz(acc, self.pool.num_voices() as u64)
    }

    /// Picks which filter's output continues to the tremolo stage: the one
    /// selected by the last filter message. Both filters advance every tick;
    /// only this routing changes on a switch, effective the very next tick.
    pub fn route_filter(&self, first_out: i64, second_out: i64) -> (r: i64)
        ensures
            r == self@.spec_route(first_out, second_out),
    {
        match self.filter {
            FilterType::FirstOrder => first_out,
            FilterType::SecondOrder => second_out,
        }
    }

    /// Applies the master gain to the tick's post-chain output. Silence
    /// scales to silence: a zero sample stays zero whatever the gain.
    pub fn output_stage(&self, post_out: i64) -> (r: i64)
        requires
            self.wf(),
            -SAMPLE_LIMIT <= post_out <= SAMPLE_LIMIT,
        ensures
            r == spec_scale(self@.gain, post_out),
            post_out == 0 ==> r == 0,
    {
        scale_q32(self.gain, post_out)
    }

    /// Sets the gain, in thousandths of a decibel, and returns the same
    /// synthesizer.
    pub fn gain(self, gain_mdb: i32) -> (r: Self)
        requires
            self.wf(),
        ensures
            r.wf(),
            r@ == self@.spec_apply_message(Message::SetGain(gain_mdb)).0,
            r.controls == self.controls,
    {
        let mut s = self;
        let _ = s.handle_message(Message::SetGain(gain_mdb));
        s
    }

    /// Sets the first oscillator's waveform and returns the same
    /// synthesizer.
    pub fn osc1(self, waveform: crate::oscillator::Waveform) -> (r: Self)
        requires
            self.wf(),
        ensures
            r.wf(),
            r@ == self@.spec_apply_message(Message::SetOsc1(waveform)).0,
            r.controls == self.controls,
    {
        let mut s = self;
        let _ = s.handle_message(Message::SetOsc1(waveform));
        s
    }

    /// Sets the second oscillator's waveform and returns the same
    /// synthesizer.
    pub fn osc2(self, waveform: crate::oscillator::Waveform) -> (r: Self)
        requires
            self.wf(),
        ensures
            r.wf(),
            r@ == self@.spec_apply_message(Message::SetOsc2(waveform)).0,
            r.controls == self.controls,
    {
        let mut s = self;
        let _ = s.handle_message(Message::SetOsc2(waveform));
        s
    }

    /// Sets the first oscillator's transposition, in thousandths of a step,
    /// and returns the same synthesizer.
    pub fn osc1_transpose(self, millisteps: i32) -> (r: Self)
        requires
            self.wf(),
        ensures
            r.wf(),
            r@ == self@.spec_apply_message(Message::SetOsc1Transpose(millisteps)).0,
            r.controls == self.controls,
    {
        let mut s = self;
        let _ = s.handle_message(Message::SetOsc1Transpose(millisteps));
        s
    }

    /// Sets the second oscillator's transposition, in thousandths of a step,
    /// and returns the same synthesizer.
    pub fn osc2_transpose(self, millisteps: i32) -> (r: Self)
        requires
            self.wf(),
        ensures
            r.wf(),
            r@ == self@.spec_apply_message(Message::SetOsc2Transpose(millisteps)).0,
            r.controls == self.controls,
    {
        let mut s = self;
        let _ = s.handle_message(Message::SetOsc2Transpose(millisteps));
        s
    }

    /// Sets the envelope: attack, decay and release in milliseconds, the
    /// sustain level in thousandths of full amplitude. Returns the same
    /// synthesizer.
    pub fn adsr(
        self,
        attack_ms: u32,
        decay_ms: u32,
        sustain_milli: u32,
        release_ms: u32,
    ) -> (r: Self)
        requires
            self.wf(),
        ensures
            r.wf(),
            r@ == self@.spec_apply_message(Message::SetAttack(attack_ms)).0.spec_apply_message(
                Message::SetDecay(decay_ms),
            ).0.spec_apply_message(Message::SetSustain(sustain_milli)).0.spec_apply_message(
                Message::SetRelease(release_ms),
            ).0,
            r.controls == self.controls,
    {
        let mut s = self;
        let _ = s.handle_message(Message::SetAttack(attack_ms));
        let _ = s.handle_message(Message::SetDecay(decay_ms));
        let _ = s.handle_message(Message::SetSustain(sustain_milli));
        let _ = s.handle_message(Message::SetRelease(release_ms));
        s
    }

    /// Sets the modulation oscillator's frequency, in millihertz, and
    /// returns the same synthesizer.
    pub fn lfo(self, freq_mhz: u32) -> (r: Self)
        requires
            self.wf(),
        ensures
            r.wf(),
            r@ == self@.spec_apply_message(Message::SetLFOFreq(freq_mhz)).0,
            r.controls == self.controls,
    {
        let mut s = self;
        let _ = s.handle_message(Message::SetLFOFreq(freq_mhz));
        s
    }

    /// Sets the vibrato depth, in thousandths of a step, and returns the
    /// same synthesizer.
    pub fn vibrato(self, millisteps: i32) -> (r: Self)
        requires
            self.wf(),
        ensures
            r.wf(),
            r@ == self@.spec_apply_message(Message::SetVibrato(millisteps)).0,
            r.controls == self.controls,
    {
        let mut s = self;
        let _ = s.handle_message(Message::SetVibrato(millisteps));
        s
    }

    /// Sets the tremolo depth, in thousandths of a decibel, and returns the
    /// same synthesizer.
    pub fn tremolo(self, depth_mdb: i32) -> (r: Self)
        requires
            self.wf(),
        ensures
            r.wf(),
            r@ == self@.spec_apply_message(Message::SetTremolo(depth_mdb)).0,
            r.controls == self.controls,
    {
        let mut s = self;
        let _ = s.handle_message(Message::SetTremolo(depth_mdb));
        s
    }

    /// Selects the single-pole filter with the given mode and returns the
    /// same synthesizer.
    pub fn first_order(self, mode: FirstOrderMode) -> (r: Self)
        requires
            self.wf(),
        ensures
            r.wf(),
            r@ == self@.spec_apply_message(Message::SetFilterFirstOrder(mode)).0,
            r.controls == self.controls,
    {
        let mut s = self;
        let _ = s.handle_message(Message::SetFilterFirstOrder(mode));
        s
    }

    /// Selects the two-pole filter with the given mode and returns the same
    /// synthesizer.
    pub fn second_order(self, mode: SecondOrderMode) -> (r: Self)
        requires
            self.wf(),
        ensures
            r.wf(),
            r@ == self@.spec_apply_message(Message::SetFilterSecondOrder(mode)).0,
            r.controls == self.controls,
    {
        let mut s = self;
        let _ = s.handle_message(Message::SetFilterSecondOrder(mode));
        s
    }
}

} // verus!
