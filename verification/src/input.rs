//! Edge-triggered input tracking: a pure state machine over a mapping from
//! input identifier (key or mouse button) to a tri-state status, updated
//! from raw press/release events and decayed once per simulation tick.
//!
//! An identifier with no entry was never pressed or is fully released. A
//! press inserts `JustPressed`; the end-of-tick decay demotes it to
//! `Pressed`. A release overwrites with `JustReleased`; the next decay
//! removes the entry. A consumer therefore sees "just pressed" and "just
//! released" each for exactly one tick, with "pressed" continuous in
//! between. OS auto-repeat presses must be filtered out before they reach
//! this state machine.
use vstd::prelude::*;

use crate::key::Key;
use crate::MouseButton;

verus! {

#[derive(PartialEq, Eq, Clone, Copy, Debug, Structural)]
pub enum PressedState {
    JustPressed,
    Pressed,
    JustReleased,
}

/// A trackable input: a keyboard key or a mouse button.
#[derive(PartialEq, Eq, Clone, Copy, Debug, Structural)]
pub enum InputId {
    Key(Key),
    Mouse(MouseButton),
}

/// The mapping an association list denotes; later entries would win, but a
/// well-formed list has unique keys.
pub open spec fn entries_map(s: Seq<(InputId, PressedState)>) -> Map<InputId, PressedState>
    decreases s.len(),
{
    if s.len() == 0 {
        Map::empty()
    } else {
        entries_map(s.drop_last()).insert(s.last().0, s.last().1)
    }
}

/// No key occurs twice.
pub open spec fn entries_unique(s: Seq<(InputId, PressedState)>) -> bool {
    forall|i: int, j: int| 0 <= i < j < s.len() ==> (#[trigger] s[i]).0 != (#[trigger] s[j]).0
}

/// The map after one end-of-tick decay: just-released entries disappear,
/// just-pressed entries become pressed, pressed entries stay.
pub open spec fn decay_map(m: Map<InputId, PressedState>) -> Map<InputId, PressedState> {
    Map::new(
        |k: InputId| m.contains_key(k) && m[k] != PressedState::JustReleased,
        |k: InputId|
            if m[k] == PressedState::JustPressed {
                PressedState::Pressed
            } else {
                m[k]
            },
    )
}

proof fn lemma_entries_map_contains(s: Seq<(InputId, PressedState)>, k: InputId)
    ensures
        entries_map(s).contains_key(k) <==> exists|i: int|
            0 <= i < s.len() && (#[trigger] s[i]).0 == k,
    decreases s.len(),
{
    if s.len() > 0 {
        lemma_entries_map_contains(s.drop_last(), k);
        if entries_map(s).contains_key(k) {
            if s.last().0 == k {
                assert(s[s.len() - 1].0 == k);
            } else {
                let i = choose|i: int| 0 <= i < s.drop_last().len() && (#[trigger] s.drop_last()[i]).0 == k;
                assert(s[i].0 == k);
            }
        }
        if exists|i: int| 0 <= i < s.len() && (#[trigger] s[i]).0 == k {
            let i = choose|i: int| 0 <= i < s.len() && (#[trigger] s[i]).0 == k;
            if i < s.len() - 1 {
                assert(s.drop_last()[i].0 == k);
            }
        }
    }
}

proof fn lemma_entries_map_lookup(s: Seq<(InputId, PressedState)>, i: int)
    requires
        entries_unique(s),
        0 <= i < s.len(),
    ensures
        entries_map(s).contains_key(s[i].0),
        entries_map(s)[s[i].0] == s[i].1,
    decreases s.len(),
{
    if i == s.len() - 1 {
    } else {
        assert(s.drop_last()[i] == s[i]);
        lemma_entries_map_lookup(s.drop_last(), i);
        assert(s[i].0 != s.last().0);
    }
}

/// Updating the entry at `i` in place changes exactly that key's value.
proof fn lemma_entries_map_update(s: Seq<(InputId, PressedState)>, i: int, v: PressedState)
    requires
        entries_unique(s),
        0 <= i < s.len(),
    ensures
        entries_map(s.update(i, (s[i].0, v))) == entries_map(s).insert(s[i].0, v),
        entries_unique(s.update(i, (s[i].0, v))),
    decreases s.len(),
{
    let k = s[i].0;
    let s2 = s.update(i, (k, v));
    assert forall|a: int, b: int| 0 <= a < b < s2.len() implies (#[trigger] s2[a]).0 != (
    #[trigger] s2[b]).0 by {
        assert(s2[a].0 == s[a].0 && s2[b].0 == s[b].0);
    }
    if i == s.len() - 1 {
        assert(s2.drop_last() =~= s.drop_last());
        assert(entries_map(s2) =~= entries_map(s).insert(k, v));
    } else {
        assert(s2.drop_last() =~= s.drop_last().update(i, (k, v)));
        assert(s.drop_last()[i] == s[i]);
        lemma_entries_map_update(s.drop_last(), i, v);
        assert(s2.last() == s.last());
        assert(k != s.last().0);
        assert(entries_map(s2) =~= entries_map(s).insert(k, v));
    }
}

/// The edge-triggered input state: a dense association list with unique
/// keys, viewed as a map from identifier to status.
pub struct InputState {
    pub entries: Vec<(InputId, PressedState)>,
}

impl InputState {
    pub open spec fn wf(self) -> bool {
        entries_unique(self.entries@)
    }

    /// The mapping this state denotes.
    pub open spec fn view(self) -> Map<InputId, PressedState> {
        entries_map(self.entries@)
    }

    pub fn new() -> (r: Self)
        ensures
            r.wf(),
            r@ == Map::<InputId, PressedState>::empty(),
    {
        Self { entries: Vec::new() }
    }

    fn find(&self, id: InputId) -> (r: Option<usize>)
        ensures
            match r {
                Some(i) => i < self.entries@.len() && self.entries@[i as int].0 == id,
                None => forall|i: int|
                    0 <= i < self.entries@.len() ==> (#[trigger] self.entries@[i]).0 != id,
            },
    {
        let n = self.entries.len();
        for i in 0..n
            invariant
                n == self.entries@.len(),
                forall|j: int| 0 <= j < i ==> (#[trigger] self.entries@[j]).0 != id,
        {
            if self.entries[i].0 == id {
                return Some(i);
            }
        }
        None
    }

    /// Record a raw press event: the identifier is tracked as just pressed,
    /// whatever it was before.
    pub fn press(&mut self, id: InputId)
        requires
            old(self).wf(),
            old(self).entries@.len() < usize::MAX,
        ensures
            final(self).wf(),
            final(self)@ == old(self)@.insert(id, PressedState::JustPressed),
    {
        self.set_state(id, PressedState::JustPressed);
    }

    /// Record a raw release event: the identifier is tracked as just
    /// released, even if it was never seen as pressed.
    pub fn release(&mut self, id: InputId)
        requires
            old(self).wf(),
            old(self).entries@.len() < usize::MAX,
        ensures
            final(self).wf(),
            final(self)@ == old(self)@.insert(id, PressedState::JustReleased),
    {
        self.set_state(id, PressedState::JustReleased);
    }

    fn set_state(&mut self, id: InputId, v: PressedState)
        requires
            old(self).wf(),
            old(self).entries@.len() < usize::MAX,
        ensures
            final(self).wf(),
            final(self)@ == old(self)@.insert(id, v),
    {
        let found = self.find(id);
        match found {
            Some(i) => {
                proof {
                    lemma_entries_map_update(self.entries@, i as int, v);
                }
                self.entries[i] = (id, v);
            },
            None => {
                proof {
                    lemma_entries_map_contains(self.entries@, id);
                    assert forall|a: int, b: int|
                        0 <= a < b < self.entries@.push((id, v)).len() implies (
                    #[trigger] self.entries@.push((id, v))[a]).0 != (#[trigger] self.entries@.push(
                        (id, v),
                    )[b]).0 by {
                        if b < self.entries@.len() {
                            assert(self.entries@[a].0 != self.entries@[b].0);
                        }
                    }
                    assert(self.entries@.push((id, v)).drop_last() =~= self.entries@);
                }
                self.entries.push((id, v));
            },
        }
    }

    /// End-of-tick housekeeping, run exactly once per simulation tick:
    /// every just-pressed entry becomes pressed and every just-released
    /// entry is removed.
    pub fn decay(&mut self)
        requires
            old(self).wf(),
        ensures
            final(self).wf(),
            final(self)@ == decay_map(old(self)@),
    {
        let ghost orig = self.entries@;
        let n = self.entries.len();
        let mut out: Vec<(InputId, PressedState)> = Vec::new();
        for i in 0..n
            invariant
                n == orig.len(),
                self.entries@ == orig,
                entries_unique(orig),
                entries_unique(out@),
                forall|j: int|
                    0 <= j < out@.len() ==> exists|k: int|
                        0 <= k < i && (#[trigger] out@[j]).0 == orig[k].0,
                entries_map(out@) == decay_map(entries_map(orig.take(i as int))),
        {
            let (id, st) = self.entries[i];
            proof {
                assert(orig.take(i + 1).drop_last() =~= orig.take(i as int));
                assert(orig.take(i + 1).last() == orig[i as int]);
                lemma_entries_map_contains(orig.take(i as int), id);
                assert forall|a: int| 0 <= a < i implies (#[trigger] orig[a]).0 != id by {
                    assert(orig[a].0 != orig[i as int].0);
                }
                assert(forall|a: int|
                    0 <= a < orig.take(i as int).len() ==> (#[trigger] orig.take(i as int)[a]).0
                        == orig[a].0);
            }
            match st {
                PressedState::JustReleased => {
                    proof {
                        assert(entries_map(out@) =~= decay_map(
                            entries_map(orig.take(i + 1)),
                        ));
                    }
                },
                PressedState::JustPressed | PressedState::Pressed => {
                    proof {
                        lemma_entries_map_contains(out@, id);
                        assert(out@.push((id, PressedState::Pressed)).drop_last() =~= out@);
                        assert forall|a: int, b: int|
                            0 <= a < b < out@.push((id, PressedState::Pressed)).len() implies (
                        #[trigger] out@.push((id, PressedState::Pressed))[a]).0 != (
                        #[trigger] out@.push((id, PressedState::Pressed))[b]).0 by {
                            if b < out@.len() {
                                assert(out@[a].0 != out@[b].0);
                            }
                        }
                        assert(entries_map(out@.push((id, PressedState::Pressed))) =~= decay_map(
                            entries_map(orig.take(i + 1)),
                        ));
                    }
                    out.push((id, PressedState::Pressed));
                },
            }
        }
        proof {
            assert(orig.take(n as int) =~= orig);
        }
        self.entries = out;
    }

    /// An independent copy of the state, for a per-tick snapshot.
    pub fn duplicate(&self) -> (r: Self)
        ensures
            r.entries@ == self.entries@,
            r@ == self@,
            self.wf() ==> r.wf(),
    {
        let n = self.entries.len();
        let mut v: Vec<(InputId, PressedState)> = Vec::new();
        for i in 0..n
            invariant
                n == self.entries@.len(),
                v@ =~= self.entries@.take(i as int),
        {
            let e = self.entries[i];
            v.push(e);
            proof {
                assert(v@ =~= self.entries@.take(i + 1));
            }
        }
        proof {
            assert(self.entries@.take(n as int) =~= self.entries@);
        }
        Self { entries: v }
    }

    /// Held down: just pressed or still pressed.
    pub fn is_pressed(&self, id: InputId) -> (r: bool)
        requires
            self.wf(),
        ensures
            r == (self@.contains_key(id) && self@[id] != PressedState::JustReleased),
    {
        let found = self.find(id);
        proof {
            lemma_entries_map_contains(self.entries@, id);
            if let Some(i) = found {
                lemma_entries_map_lookup(self.entries@, i as int);
            }
        }
        match found {
            Some(i) => {
                let st = self.entries[i].1;
                st != PressedState::JustReleased
            },
            None => false,
        }
    }

    /// Pressed during the current tick, and not yet decayed.
    pub fn is_just_pressed(&self, id: InputId) -> (r: bool)
        requires
            self.wf(),
        ensures
            r == (self@.contains_key(id) && self@[id] == PressedState::JustPressed),
    {
        self.has_state(id, PressedState::JustPressed)
    }

    /// Released during the current tick, and not yet decayed.
    pub fn is_just_released(&self, id: InputId) -> (r: bool)
        requires
            self.wf(),
        ensures
            r == (self@.contains_key(id) && self@[id] == PressedState::JustReleased),
    {
        self.has_state(id, PressedState::JustReleased)
    }

    fn has_state(&self, id: InputId, v: PressedState) -> (r: bool)
        requires
            self.wf(),
        ensures
            r == (self@.contains_key(id) && self@[id] == v),
    {
        let found = self.find(id);
        proof {
            lemma_entries_map_contains(self.entries@, id);
            if let Some(i) = found {
                lemma_entries_map_lookup(self.entries@, i as int);
            }
        }
        match found {
            Some(i) => {
                let st = self.entries[i].1;
                st == v
            },
            None => false,
        }
    }
}

/// The input map after `k` decay cycles.
pub open spec fn decay_k(m: Map<InputId, PressedState>, k: nat) -> Map<InputId, PressedState>
    decreases k,
{
    if k == 0 {
        m
    } else {
        decay_map(decay_k(m, (k - 1) as nat))
    }
}

/// One press followed by any number of decay cycles and no release: the
/// identifier reads as just-pressed exactly until the first decay has run,
/// and as pressed throughout.
pub proof fn lemma_press_then_decays(m: Map<InputId, PressedState>, id: InputId, k: nat)
    ensures
        decay_k(m.insert(id, PressedState::JustPressed), k).contains_key(id),
        decay_k(m.insert(id, PressedState::JustPressed), k)[id] == if k == 0 {
            PressedState::JustPressed
        } else {
            PressedState::Pressed
        },
    decreases k,
{
    if k > 0 {
        lemma_press_then_decays(m, id, (k - 1) as nat);
    }
}

/// A release makes the identifier read as just-released at once, and the
/// next decay removes its entry entirely.
pub proof fn lemma_release_then_decay(m: Map<InputId, PressedState>, id: InputId)
    ensures
        m.insert(id, PressedState::JustReleased)[id] == PressedState::JustReleased,
        !decay_map(m.insert(id, PressedState::JustReleased)).contains_key(id),
{
}

} // verus!
