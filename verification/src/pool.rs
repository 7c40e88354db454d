//! The voice pool: a fixed set of voices and the allocator that maps held
//! notes to them.
//!
//! The pool owns exactly as many voices as it was built with; voices are
//! reused for the pool's whole lifetime. Held notes are kept in trigger
//! order, oldest first, and unbound slots in the order they were freed,
//! longest-free first. Allocation follows one documented policy:
//!
//! 1. a note that is already held re-triggers its own voice and moves it to
//!    the back of the trigger order;
//! 2. otherwise the longest-free voice is used;
//! 3. otherwise — the pool is full — the least-recently-triggered voice is
//!    stolen, silently cutting off its previous note. A note beyond the
//!    pool's capacity therefore degrades polyphony gracefully instead of
//!    being dropped or failing.
//!
//! A note-off for a note that is not held is a defined no-op, never an
//! error: the note may have been stolen already, or never seen.

use crate::voice::{Voice, VoiceAction, VoiceUpdate};
use vstd::prelude::*;

verus! {

/// The mathematical state of a [`VoicePool`]: the voices, the held-note
/// bindings in trigger order, and the unbound slots in freeing order.
pub struct PoolModel {
    /// Every voice, by slot index.
    pub voices: Seq<Voice>,
    /// One `(note, slot)` pair per held note, oldest trigger first.
    pub bindings: Seq<(u8, usize)>,
    /// The unbound slots, longest-free first.
    pub free: Seq<usize>,
}

/// The index of the binding that holds `note`, or -1 if no binding does.
pub open spec fn find_note(s: Seq<(u8, usize)>, note: u8) -> int
    decreases s.len(),
{
    if s.len() == 0 {
        -1
    } else if s[0].0 == note {
        0
    } else {
        let r = find_note(s.drop_first(), note);
        if r == -1 {
            -1
        } else {
            r + 1
        }
    }
}

/// What `find_note` returns: -1 exactly when no binding holds the note,
/// otherwise the first index that does.
pub proof fn lemma_find_note(s: Seq<(u8, usize)>, note: u8)
    ensures
        find_note(s, note) == -1 || 0 <= find_note(s, note) < s.len(),
        find_note(s, note) == -1 <==> (forall|k: int|
            0 <= k < s.len() ==> (#[trigger] s[k]).0 != note),
        find_note(s, note) >= 0 ==> s[find_note(s, note)].0 == note,
        forall|k: int|
            0 <= k < find_note(s, note) ==> (#[trigger] s[k]).0 != note,
    decreases s.len(),
{
    if s.len() > 0 {
        let t = s.drop_first();
        lemma_find_note(t, note);
        assert(forall|k: int| 0 <= k < t.len() ==> #[trigger] t[k] == s[k + 1]);
        if s[0].0 != note {
            let r = find_note(t, note);
            if r == -1 {
                assert forall|k: int| 0 <= k < s.len() implies (#[trigger] s[k]).0 != note by {
                    if k > 0 {
                        assert(t[k - 1] == s[k]);
                    }
                }
            } else {
                assert(find_note(s, note) == r + 1);
                assert(t[r] == s[r + 1]);
                assert forall|k: int| 0 <= k < r + 1 implies (#[trigger] s[k]).0 != note by {
                    if k > 0 {
                        assert(t[k - 1] == s[k]);
                        assert(t[k - 1].0 != note);
                    }
                }
            }
            if forall|k: int| 0 <= k < s.len() ==> (#[trigger] s[k]).0 != note {
                assert forall|k: int| 0 <= k < t.len() implies (#[trigger] t[k]).0 != note by {
                    assert(t[k] == s[k + 1]);
                    assert(s[k + 1].0 != note);
                }
                assert(r == -1);
            }
        }
    }
}

impl PoolModel {
    /// Structural soundness of the pool: slot indices are in range, each
    /// held note maps to at most one voice, a voice is claimed by at most
    /// one note, no bound slot is free, and every slot is either bound or
    /// free.
    pub open spec fn wf(self) -> bool {
        &&& 1 <= self.voices.len() <= crate::fixed::MAX_VOICES
        &&& self.bindings.len() + self.free.len() == self.voices.len()
        &&& forall|i: int|
            0 <= i < self.bindings.len() ==> (#[trigger] self.bindings[i]).1 < self.voices.len()
        &&& forall|i: int| 0 <= i < self.free.len() ==> (#[trigger] self.free[i]) < self.voices.len()
        &&& forall|i: int, j: int|
            0 <= i < j < self.bindings.len() ==> (#[trigger] self.bindings[i]).0 != (
            #[trigger] self.bindings[j]).0
        &&& forall|i: int, j: int|
            0 <= i < j < self.bindings.len() ==> (#[trigger] self.bindings[i]).1 != (
            #[trigger] self.bindings[j]).1
        &&& forall|i: int, j: int|
            0 <= i < j < self.free.len() ==> (#[trigger] self.free[i]) != (#[trigger] self.free[j])
        &&& forall|i: int, j: int|
            0 <= i < self.bindings.len() && 0 <= j < self.free.len() ==> (
            #[trigger] self.bindings[i]).1 != (#[trigger] self.free[j])
    }

    /// Whether `note` is currently held.
    pub open spec fn is_held(self, note: u8) -> bool {
        find_note(self.bindings, note) >= 0
    }

    /// The slot bound to `note`, if any.
    pub open spec fn slot_of(self, note: u8) -> Option<usize> {
        let j = find_note(self.bindings, note);
        if j >= 0 {
            Some(self.bindings[j].1)
        } else {
            None
        }
    }

    /// The allocator's note-on transition: the new pool state and the slot
    /// chosen by the reuse policy.
    pub open spec fn spec_note_on(self, note: u8) -> (PoolModel, usize) {
        let j = find_note(self.bindings, note);
        if j >= 0 {
            // Re-trigger: the note keeps its voice; the binding moves to the
            // back of the trigger order.
            let s = self.bindings[j].1;
            (PoolModel {
                voices: self.voices.update(s as int, self.voices[s as int].spec_note_on(note)),
                bindings: self.bindings.remove(j).push((note, s)),
                free: self.free,
            }, s)
        } else if self.free.len() > 0 {
            // A free voice exists: take the longest-free one.
            let s = self.free[0];
            (PoolModel {
                voices: self.voices.update(s as int, self.voices[s as int].spec_note_on(note)),
                bindings: self.bindings.push((note, s)),
                free: self.free.drop_first(),
            }, s)
        } else {
            // Steal the least-recently-triggered voice.
            let s = self.bindings[0].1;
            (PoolModel {
                voices: self.voices.update(s as int, self.voices[s as int].spec_note_on(note)),
                bindings: self.bindings.drop_first().push((note, s)),
                free: self.free,
            }, s)
        }
    }

    /// The allocator's note-off transition: the new pool state and the slot
    /// that was unbound, if the note was held at all.
    pub open spec fn spec_note_off(self, note: u8) -> (PoolModel, Option<usize>) {
        let j = find_note(self.bindings, note);
        if j >= 0 {
            let s = self.bindings[j].1;
            (PoolModel {
                voices: self.voices.update(s as int, self.voices[s as int].spec_note_off()),
                bindings: self.bindings.remove(j),
                free: self.free.push(s),
            }, Some(s))
        } else {
            (self, None)
        }
    }

    /// The sustain pedal broadcast: every voice sees the pedal move.
    pub open spec fn spec_set_pedal(self, on: bool) -> PoolModel {
        PoolModel { voices: self.voices.map_values(|v: Voice| v.spec_set_pedal(on)), ..self }
    }

    /// The pitch-bend broadcast: every voice sees the same bend.
    pub open spec fn spec_pitch_bend(self, v: i32) -> PoolModel {
        PoolModel { voices: self.voices.map_values(|w: Voice| w.spec_pitch_bend(v)), ..self }
    }

    /// The parameter fan-out: every voice receives the same update.
    pub open spec fn spec_broadcast(self, u: VoiceUpdate) -> PoolModel {
        PoolModel { voices: self.voices.map_values(|w: Voice| w.spec_apply(u)), ..self }
    }
}

/// The release actions a pedal release produces: one per voice whose key is
/// no longer held, in slot order.
pub open spec fn spec_release_actions(voices: Seq<Voice>) -> Seq<VoiceAction>
    decreases voices.len(),
{
    if voices.len() == 0 {
        Seq::empty()
    } else {
        let init = spec_release_actions(voices.drop_last());
        if !voices.last().key_held {
            init.push(VoiceAction::Release { slot: (voices.len() - 1) as usize })
        } else {
            init
        }
    }
}

/// A fixed-capacity pool of voices with the note-to-voice allocator.
#[derive(Clone, Debug, PartialEq)]
pub struct VoicePool {
    /// The voices, by slot index.
    pub voices: Vec<Voice>,
    /// One `(note, slot)` pair per held note, oldest trigger first.
    pub bindings: Vec<(u8, usize)>,
    /// The unbound slots, longest-free first.
    pub free: Vec<usize>,
}

impl View for VoicePool {
    type V = PoolModel;

    open spec fn view(&self) -> PoolModel {
        PoolModel { voices: self.voices@, bindings: self.bindings@, free: self.free@ }
    }
}

impl VoicePool {
    /// Structural soundness; established at construction and preserved by
    /// every operation.
    pub open spec fn wf(self) -> bool {
        self@.wf()
    }

    /// Builds a pool of `num_voices` default voices, all free, none held.
    pub fn new(num_voices: usize) -> (r: VoicePool)
        requires
            1 <= num_voices <= crate::fixed::MAX_VOICES,
        ensures
            r.wf(),
            r@.voices.len() == num_voices,
            forall|i: int| 0 <= i < num_voices ==> r@.voices[i] == Voice::spec_default(),
            r@.bindings.len() == 0,
            r@.free.len() == num_voices,
            forall|i: int| 0 <= i < num_voices ==> r@.free[i] == i,
    {
        let mut voices: Vec<Voice> = Vec::new();
        let mut free: Vec<usize> = Vec::new();
        let mut i: usize = 0;
        while i < num_voices
            invariant
                i <= num_voices,
                voices@.len() == i,
                free@.len() == i,
                forall|k: int| 0 <= k < i ==> voices@[k] == Voice::spec_default(),
                forall|k: int| 0 <= k < i ==> free@[k] == k,
            decreases num_voices - i,
        {
            voices.push(Voice::new());
            free.push(i);
            i = i + 1;
        }
        VoicePool { voices, bindings: Vec::new(), free }
    }

    /// The number of voices the pool was built with.
    pub fn num_voices(&self) -> (n: usize)
        ensures
            n == self@.voices.len(),
    {
        self.voices.len()
    }

    /// The number of notes currently held.
    pub fn held_count(&self) -> (n: usize)
        ensures
            n == self@.bindings.len(),
    {
        self.bindings.len()
    }

    /// Reads the voice in slot `i`.
    pub fn voice(&self, i: usize) -> (v: Voice)
        requires
            i < self@.voices.len(),
        ensures
            v == self@.voices[i as int],
    {
        self.voices[i]
    }

    /// The index into `bindings` that holds `note`, if any.
    fn binding_index(&self, note: u8) -> (r: Option<usize>)
        ensures
            match r {
                Some(j) => j == find_note(self@.bindings, note) && j < self@.bindings.len(),
                None => find_note(self@.bindings, note) == -1,
            },
    {
        proof {
            lemma_find_note(self@.bindings, note);
        }
        let mut j: usize = 0;
        while j < self.bindings.len()
            invariant
                j <= self@.bindings.len(),
                forall|k: int| 0 <= k < j ==> (#[trigger] self@.bindings[k]).0 != note,
            decreases self@.bindings.len() - j,
        {
            if self.bindings[j].0 == note {
                proof {
                    lemma_find_note(self@.bindings, note);
                    let f = find_note(self@.bindings, note);
                    if f == -1 {
                        assert(self@.bindings[j as int].0 != note);
                    } else if f < j {
                        assert(self@.bindings[f].0 != note);
                    } else if f > j {
                        assert(self@.bindings[j as int].0 != note);
                    }
                }
                return Some(j);
            }
            j = j + 1;
        }
        None
    }

    /// Whether `note` is currently held by some voice.
    pub fn is_held(&self, note: u8) -> (r: bool)
        ensures
            r == self@.is_held(note),
    {
        self.binding_index(note).is_some()
    }

    /// The slot whose voice is playing `note`, if any.
    pub fn slot_of(&self, note: u8) -> (r: Option<usize>)
        ensures
            r == self@.slot_of(note),
    {
        match self.binding_index(note) {
            Some(j) => Some(self.bindings[j].1),
            None => None,
        }
    }

    /// Selects a voice for `note` by the reuse policy, binds the note to it,
    /// triggers it, and returns its slot. Never fails: a full pool steals
    /// its least-recently-triggered voice.
    pub fn note_on(&mut self, note: u8) -> (slot: usize)
        requires
            old(self).wf(),
        ensures
            final(self).wf(),
            final(self)@ == old(self)@.spec_note_on(note).0,
            slot == old(self)@.spec_note_on(note).1,
            slot < old(self)@.voices.len(),
    {
        proof {
            lemma_find_note(self@.bindings, note);
        }
        let slot: usize;
        match self.binding_index(note) {
            Some(j) => {
                let s = self.bindings[j].1;
                let _ = self.bindings.remove(j);
                self.bindings.push((note, s));
                slot = s;
            },
            None => {
                if self.free.len() > 0 {
                    let s = self.free.remove(0);
                    self.bindings.push((note, s));
                    slot = s;
                } else {
                    let (_, s) = self.bindings.remove(0);
                    self.bindings.push((note, s));
                    slot = s;
                }
            },
        }
        let mut v = self.voices[slot];
        v.note_on(note);
        self.voices[slot] = v;
        proof {
            lemma_note_on_wf(old(self)@, note);
        }
        slot
    }

    /// Unbinds `note` and starts its voice's release handling, returning the
    /// slot that held it. A note that is not held — stolen already, or never
    /// seen — is a defined no-op and returns `None`.
    pub fn note_off(&mut self, note: u8) -> (r: Option<usize>)
        requires
            old(self).wf(),
        ensures
            final(self).wf(),
            final(self)@ == old(self)@.spec_note_off(note).0,
            r == old(self)@.spec_note_off(note).1,
    {
        proof {
            lemma_find_note(self@.bindings, note);
        }
        match self.binding_index(note) {
            Some(j) => {
                let (_, s) = self.bindings.remove(j);
                self.free.push(s);
                let mut v = self.voices[s];
                v.note_off();
                self.voices[s] = v;
                proof {
                    lemma_note_off_wf(old(self)@, note);
                }
                Some(s)
            },
            None => {
                proof {
                    assert(final(self)@ =~= old(self)@);
                }
                None
            },
        }
    }

    /// Broadcasts a sustain-pedal move to every voice. A pedal release
    /// returns the release actions for the voices it let go, in slot order;
    /// a pedal press returns none.
    pub fn set_pedal(&mut self, on: bool) -> (acts: Vec<VoiceAction>)
        requires
            old(self).wf(),
        ensures
            final(self).wf(),
            final(self)@ == old(self)@.spec_set_pedal(on),
            acts@ == if on {
                Seq::<VoiceAction>::empty()
            } else {
                spec_release_actions(old(self)@.voices)
            },
    {
        let mut acts: Vec<VoiceAction> = Vec::new();
        let n = self.voices.len();
        let mut i: usize = 0;
        while i < n
            invariant
                i <= n,
                n == old(self)@.voices.len(),
                self@.voices.len() == n,
                self@.bindings == old(self)@.bindings,
                self@.free == old(self)@.free,
                forall|k: int|
                    0 <= k < i ==> self@.voices[k] == (#[trigger] old(self)@.voices[k]).spec_set_pedal(
                        on,
                    ),
                forall|k: int| i <= k < n ==> self@.voices[k] == old(self)@.voices[k],
                acts@ == if on {
                    Seq::<VoiceAction>::empty()
                } else {
                    spec_release_actions(old(self)@.voices.subrange(0, i as int))
                },
            decreases n - i,
        {
            let mut v = self.voices[i];
            if !on && !v.key_held {
                acts.push(VoiceAction::Release { slot: i });
            }
            v.set_pedal(on);
            self.voices[i] = v;
            proof {
                let pfx1 = old(self)@.voices.subrange(0, i + 1 as int);
                assert(pfx1.drop_last() =~= old(self)@.voices.subrange(0, i as int));
                assert(pfx1.last() == old(self)@.voices[i as int]);
            }
            i = i + 1;
        }
        proof {
            assert(old(self)@.voices.subrange(0, n as int) =~= old(self)@.voices);
            assert(self@.voices =~= old(self)@.voices.map_values(
                |v: Voice| v.spec_set_pedal(on),
            ));
        }
        acts
    }

    /// Broadcasts a pitch bend to every voice.
    pub fn pitch_bend(&mut self, v: i32)
        requires
            old(self).wf(),
        ensures
            final(self).wf(),
            final(self)@ == old(self)@.spec_pitch_bend(v),
    {
        let n = self.voices.len();
        let mut i: usize = 0;
        while i < n
            invariant
                i <= n,
                n == old(self)@.voices.len(),
                self@.voices.len() == n,
                self@.bindings == old(self)@.bindings,
                self@.free == old(self)@.free,
                forall|k: int|
                    0 <= k < i ==> self@.voices[k] == (#[trigger] old(self)@.voices[k]).spec_pitch_bend(
                        v,
                    ),
                forall|k: int| i <= k < n ==> self@.voices[k] == old(self)@.voices[k],
            decreases n - i,
        {
            let mut w = self.voices[i];
            w.pitch_bend(v);
            self.voices[i] = w;
            i = i + 1;
        }
        proof {
            assert(self@.voices =~= old(self)@.voices.map_values(
                |w: Voice| w.spec_pitch_bend(v),
            ));
        }
    }

    /// Fans one parameter update out to every voice uniformly.
    pub fn broadcast(&mut self, u: VoiceUpdate)
        requires
            old(self).wf(),
        ensures
            final(self).wf(),
            final(self)@ == old(self)@.spec_broadcast(u),
    {
        let n = self.voices.len();
        let mut i: usize = 0;
        while i < n
            invariant
                i <= n,
                n == old(self)@.voices.len(),
                self@.voices.len() == n,
                self@.bindings == old(self)@.bindings,
                self@.free == old(self)@.free,
                forall|k: int|
                    0 <= k < i ==> self@.voices[k] == (#[trigger] old(self)@.voices[k]).spec_apply(u),
                forall|k: int| i <= k < n ==> self@.voices[k] == old(self)@.voices[k],
            decreases n - i,
        {
            let mut w = self.voices[i];
            w.apply(u);
            self.voices[i] = w;
            i = i + 1;
        }
        proof {
            assert(self@.voices =~= old(self)@.voices.map_values(|w: Voice| w.spec_apply(u)));
        }
    }
}

/// The note-on transition preserves the pool's structural soundness.
pub proof fn lemma_note_on_wf(m: PoolModel, note: u8)
    requires
        m.wf(),
    ensures
        m.spec_note_on(note).0.wf(),
        m.spec_note_on(note).1 < m.voices.len(),
{
    lemma_find_note(m.bindings, note);
    let j = find_note(m.bindings, note);
    if j >= 0 {
        let s = m.bindings[j].1;
        let b2 = m.bindings.remove(j);
        m.bindings.remove_ensures(j);
        let b3 = b2.push((note, s));
        // Every other binding carries a different note than `note` and a
        // different slot than `s`.
        assert forall|k: int| 0 <= k < b2.len() implies (#[trigger] b2[k]).0 != note && b2[k].1
            != s by {
            if k < j {
                assert(b2[k] == m.bindings[k]);
            } else {
                assert(b2[k] == m.bindings[k + 1]);
            }
        }
    } else if m.free.len() > 0 {
        let s = m.free[0];
        let b3 = m.bindings.push((note, s));
        assert forall|k: int| 0 <= k < m.bindings.len() implies (#[trigger] m.bindings[k]).0 != note
            && m.bindings[k].1 != s by {
            assert(m.free[0] == s);
        }
        assert(forall|k: int|
            0 <= k < m.free.drop_first().len() ==> #[trigger] m.free.drop_first()[k] == m.free[k
                + 1]);
    } else {
        let s = m.bindings[0].1;
        let b2 = m.bindings.drop_first();
        let b3 = b2.push((note, s));
        assert(forall|k: int| 0 <= k < b2.len() ==> #[trigger] b2[k] == m.bindings[k + 1]);
        assert forall|k: int| 0 <= k < b2.len() implies (#[trigger] b2[k]).0 != note && b2[k].1
            != s by {
            assert(b2[k] == m.bindings[k + 1]);
        }
    }
}

/// The note-off transition preserves the pool's structural soundness.
pub proof fn lemma_note_off_wf(m: PoolModel, note: u8)
    requires
        m.wf(),
    ensures
        m.spec_note_off(note).0.wf(),
{
    lemma_find_note(m.bindings, note);
    let j = find_note(m.bindings, note);
    if j >= 0 {
        let s = m.bindings[j].1;
        let b2 = m.bindings.remove(j);
        m.bindings.remove_ensures(j);
        let f2 = m.free.push(s);
        assert forall|k: int| 0 <= k < b2.len() implies (#[trigger] b2[k]).1 != s by {
            if k < j {
                assert(b2[k] == m.bindings[k]);
            } else {
                assert(b2[k] == m.bindings[k + 1]);
            }
        }
        assert forall|k: int| 0 <= k < m.free.len() implies (#[trigger] m.free[k]) != s by {}
    }
}

} // verus!
