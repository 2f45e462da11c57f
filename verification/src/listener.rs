use vstd::prelude::*;

use crate::key::{side_neutral, spec_side_neutral, Key, KeySet};

verus! {

/// A keyboard event as the global listener sees it.
#[derive(Clone, Copy, Debug, PartialEq, Eq, Structural)]
pub enum KeyEvent {
    Press(Key),
    Release(Key),
    /// Any other input event (mouse, wheel, ...), which the listener ignores.
    Other,
}

/// What the listener asks of its caller after an event.
#[derive(Clone, Copy, Debug, PartialEq, Eq, Structural)]
pub enum ListenerAction {
    /// Nothing to do.
    Nothing,
    /// The hotkey has just become fully held: turn the swap on.
    Activate,
    /// The hotkey is no longer fully held: turn the swap off.
    Deactivate,
}

/// The abstract state of the listener: the keys held down (sidedness
/// removed) and whether the hotkey is currently considered active.
pub struct ListenerState {
    pub held: Set<Key>,
    pub active: bool,
}

/// One step of the listener on `event`, with `target` the hotkey's keys.
///
/// A press or release updates the set of held keys; the hotkey is active
/// exactly when the held keys are the hotkey's keys. The listener signals
/// when the hotkey becomes active and when it stops being active.
pub open spec fn listener_step(s: ListenerState, target: Set<Key>, event: KeyEvent) -> (ListenerState, ListenerAction) {
    match event {
        KeyEvent::Other => (s, ListenerAction::Nothing),
        _ => {
            let held = match event {
                KeyEvent::Press(k) => s.held.insert(spec_side_neutral(k)),
                KeyEvent::Release(k) => s.held.remove(spec_side_neutral(k)),
                KeyEvent::Other => s.held,
            };
            if target == held {
                (
                    ListenerState { held, active: true },
                    if s.active {
                        ListenerAction::Nothing
                    } else {
                        ListenerAction::Activate
                    },
                )
            } else {
                (
                    ListenerState { held, active: false },
                    if s.active {
                        ListenerAction::Deactivate
                    } else {
                        ListenerAction::Nothing
                    },
                )
            }
        },
    }
}

/// The listener's state after a sequence of events, and the action of each.
pub open spec fn listener_run(s: ListenerState, target: Set<Key>, events: Seq<KeyEvent>) -> (ListenerState, Seq<ListenerAction>)
    decreases events.len(),
{
    if events.len() == 0 {
        (s, Seq::empty())
    } else {
        let (mid, a) = listener_step(s, target, events[0]);
        let (last, rest) = listener_run(mid, target, events.drop_first());
        (last, seq![a] + rest)
    }
}

/// Whether the actions turn the swap on and off in turn, starting from
/// `active`: an activation only while inactive, a deactivation only while
/// active.
pub open spec fn actions_alternate(actions: Seq<ListenerAction>, active: bool) -> bool
    decreases actions.len(),
{
    if actions.len() == 0 {
        true
    } else {
        match actions[0] {
            ListenerAction::Nothing => actions_alternate(actions.drop_first(), active),
            ListenerAction::Activate => !active && actions_alternate(actions.drop_first(), true),
            ListenerAction::Deactivate => active && actions_alternate(actions.drop_first(), false),
        }
    }
}

/// Follows the held keys and tells when the hotkey starts and stops being held.
#[derive(Debug)]
pub struct HotkeyListener {
    held: KeySet,
    active: bool,
}

impl View for HotkeyListener {
    type V = ListenerState;

    closed spec fn view(&self) -> ListenerState {
        ListenerState { held: self.held@, active: self.active }
    }
}

impl HotkeyListener {
    /// A listener with no key held and the hotkey inactive.
    pub fn new() -> (l: Self)
        ensures
            l@.held == Set::<Key>::empty(),
            !l@.active,
    {
        HotkeyListener { held: KeySet::new(), active: false }
    }

    /// Whether the hotkey is currently held.
    pub fn is_active(&self) -> (b: bool)
        ensures
            b == self@.active,
    {
        self.active
    }

    /// Takes one event into account, with `listen_for` the hotkey's keys, and
    /// says whether to turn the swap on or off.
    pub fn handle_event(&mut self, event: KeyEvent, listen_for: &KeySet) -> (action: ListenerAction)
        ensures
            (final(self)@, action) == listener_step(old(self)@, listen_for@, event),
    {
        match event {
            KeyEvent::Other => {
                return ListenerAction::Nothing;
            },
            KeyEvent::Press(k) => {
                self.held.insert(side_neutral(k));
            },
            KeyEvent::Release(k) => {
                self.held.remove(side_neutral(k));
            },
        }
        if listen_for.same_keys(&self.held) {
            if !self.active {
                self.active = true;
                ListenerAction::Activate
            } else {
                ListenerAction::Nothing
            }
        } else if self.active {
            self.active = false;
            ListenerAction::Deactivate
        } else {
            ListenerAction::Nothing
        }
    }
}

/// Left and right Control, Meta and Shift are the same to the listener: a
/// press or release of either side has the same effect.
pub proof fn lemma_sides_are_equivalent(s: ListenerState, target: Set<Key>, k: Key)
    ensures
        listener_step(s, target, KeyEvent::Press(k)) == listener_step(
            s,
            target,
            KeyEvent::Press(spec_side_neutral(k)),
        ),
        listener_step(s, target, KeyEvent::Release(k)) == listener_step(
            s,
            target,
            KeyEvent::Release(spec_side_neutral(k)),
        ),
{
}

/// Releasing a key that a press has just added gives back the held keys of
/// before the press.
pub proof fn lemma_release_undoes_press(s: ListenerState, target: Set<Key>, k: Key)
    requires
        !s.held.contains(spec_side_neutral(k)),
    ensures
        listener_step(listener_step(s, target, KeyEvent::Press(k)).0, target, KeyEvent::Release(k)).0.held
            == s.held,
{
    let after_press = listener_step(s, target, KeyEvent::Press(k)).0;
    assert(after_press.held.remove(spec_side_neutral(k)) =~= s.held);
}

/// After any key event, the hotkey is active exactly when the held keys are
/// the hotkey's keys; other events change nothing.
pub proof fn lemma_active_iff_hotkey_held(s: ListenerState, target: Set<Key>, event: KeyEvent)
    ensures
        event != KeyEvent::Other ==> (listener_step(s, target, event).0.active <==> listener_step(
            s,
            target,
            event,
        ).0.held == target),
        event == KeyEvent::Other ==> listener_step(s, target, event) == (s, ListenerAction::Nothing),
{
}

/// Over any sequence of events, the listener turns the swap on and off in
/// turn: never twice on, never twice off, and the first signal is an
/// activation when the hotkey starts inactive.
pub proof fn lemma_signals_alternate(s: ListenerState, target: Set<Key>, events: Seq<KeyEvent>)
    ensures
        actions_alternate(listener_run(s, target, events).1, s.active),
    decreases events.len(),
{
    if events.len() > 0 {
        let (mid, a) = listener_step(s, target, events[0]);
        lemma_signals_alternate(mid, target, events.drop_first());
        let acts = listener_run(s, target, events).1;
        let rest = listener_run(mid, target, events.drop_first()).1;
        assert(acts == seq![a] + rest);
        assert(acts[0] == a);
        assert(acts.drop_first() =~= rest);
    }
}

/// The held keys are always side-neutral: no step ever records a right-hand
/// modifier, so a hotkey made of side-neutral keys can be matched whichever
/// side is pressed.
pub proof fn lemma_held_keys_stay_side_neutral(s: ListenerState, target: Set<Key>, event: KeyEvent)
    requires
        forall|k: Key| #[trigger] s.held.contains(k) ==> spec_side_neutral(k) == k,
    ensures
        forall|k: Key| #[trigger] listener_step(s, target, event).0.held.contains(k) ==> spec_side_neutral(k) == k,
{
}

/// The on/off signals among the actions, in order, without the `Nothing`s.
pub open spec fn signals(actions: Seq<ListenerAction>) -> Seq<ListenerAction>
    decreases actions.len(),
{
    if actions.len() == 0 {
        Seq::empty()
    } else if actions[0] == ListenerAction::Nothing {
        signals(actions.drop_first())
    } else {
        seq![actions[0]] + signals(actions.drop_first())
    }
}

/// The event with the sidedness of its key removed.
pub open spec fn side_neutral_event(e: KeyEvent) -> KeyEvent {
    match e {
        KeyEvent::Press(k) => KeyEvent::Press(spec_side_neutral(k)),
        KeyEvent::Release(k) => KeyEvent::Release(spec_side_neutral(k)),
        KeyEvent::Other => KeyEvent::Other,
    }
}

/// An event that cannot matter in state `s`: a non-key event, or a press of
/// a key that is already held.
pub open spec fn is_noise(s: ListenerState, e: KeyEvent) -> bool {
    match e {
        KeyEvent::Other => true,
        KeyEvent::Press(k) => s.held.contains(spec_side_neutral(k)),
        KeyEvent::Release(_) => false,
    }
}

/// Whether the active flag agrees with the held keys whenever some key is
/// held. A new listener is settled, and every step keeps it so.
pub open spec fn settled(s: ListenerState, target: Set<Key>) -> bool {
    s.held != Set::<Key>::empty() ==> (s.active <==> s.held == target)
}

/// Two event streams that differ only by noise inserted anywhere and by the
/// side of the modifiers in any event, from state `s`.
pub open spec fn same_key_stream(s: ListenerState, target: Set<Key>, e1: Seq<KeyEvent>, e2: Seq<KeyEvent>) -> bool
    decreases e1.len() + e2.len(),
{
    if e1.len() == 0 && e2.len() == 0 {
        true
    } else if e1.len() > 0 && is_noise(s, e1[0]) {
        same_key_stream(s, target, e1.drop_first(), e2)
    } else if e2.len() > 0 && is_noise(s, e2[0]) {
        same_key_stream(s, target, e1, e2.drop_first())
    } else if e1.len() > 0 && e2.len() > 0 && side_neutral_event(e1[0]) == side_neutral_event(e2[0]) {
        same_key_stream(listener_step(s, target, e1[0]).0, target, e1.drop_first(), e2.drop_first())
    } else {
        false
    }
}

/// A new listener is settled, and so is every state a step leads to.
pub proof fn lemma_settled_kept(s: ListenerState, target: Set<Key>, e: KeyEvent)
    ensures
        settled(ListenerState { held: Set::empty(), active: false }, target),
        settled(s, target) ==> settled(listener_step(s, target, e).0, target),
{
}

/// In a settled state, noise changes nothing and signals nothing.
proof fn lemma_noise_step(s: ListenerState, target: Set<Key>, e: KeyEvent)
    requires
        settled(s, target),
        is_noise(s, e),
    ensures
        listener_step(s, target, e) == (s, ListenerAction::Nothing),
{
    if let KeyEvent::Press(k) = e {
        assert(s.held.insert(spec_side_neutral(k)) =~= s.held);
        assert(s.held.contains(spec_side_neutral(k)));
        assert(s.held != Set::<Key>::empty()) by {
            assert(!Set::<Key>::empty().contains(spec_side_neutral(k)));
        }
    }
}

/// A step on an event and on its side-neutral form agree.
proof fn lemma_step_side_neutral_event(s: ListenerState, target: Set<Key>, e: KeyEvent)
    ensures
        listener_step(s, target, e) == listener_step(s, target, side_neutral_event(e)),
{
}

/// Running on a stream whose first action is `a` signals `a` (if any) and
/// then the rest.
proof fn lemma_run_unfold(s: ListenerState, target: Set<Key>, events: Seq<KeyEvent>)
    requires
        events.len() > 0,
    ensures
        ({
            let (mid, a) = listener_step(s, target, events[0]);
            &&& listener_run(s, target, events).0 == listener_run(mid, target, events.drop_first()).0
            &&& signals(listener_run(s, target, events).1) == if a == ListenerAction::Nothing {
                signals(listener_run(mid, target, events.drop_first()).1)
            } else {
                seq![a] + signals(listener_run(mid, target, events.drop_first()).1)
            }
        }),
{
    let (mid, a) = listener_step(s, target, events[0]);
    let acts = listener_run(s, target, events).1;
    let rest = listener_run(mid, target, events.drop_first()).1;
    assert(acts == seq![a] + rest);
    assert(acts[0] == a);
    assert(acts.drop_first() =~= rest);
}

/// Inserting non-key events or presses of keys already held anywhere in a
/// stream, or swapping the side of modifiers in any event, changes neither
/// the on/off signals of the listener nor where it ends up.
pub proof fn lemma_noise_does_not_change_signals(
    s: ListenerState,
    target: Set<Key>,
    e1: Seq<KeyEvent>,
    e2: Seq<KeyEvent>,
)
    requires
        settled(s, target),
        same_key_stream(s, target, e1, e2),
    ensures
        signals(listener_run(s, target, e1).1) == signals(listener_run(s, target, e2).1),
        listener_run(s, target, e1).0 == listener_run(s, target, e2).0,
    decreases e1.len() + e2.len(),
{
    if e1.len() == 0 && e2.len() == 0 {
    } else if e1.len() > 0 && is_noise(s, e1[0]) {
        lemma_noise_step(s, target, e1[0]);
        lemma_run_unfold(s, target, e1);
        lemma_noise_does_not_change_signals(s, target, e1.drop_first(), e2);
    } else if e2.len() > 0 && is_noise(s, e2[0]) {
        lemma_noise_step(s, target, e2[0]);
        lemma_run_unfold(s, target, e2);
        lemma_noise_does_not_change_signals(s, target, e1, e2.drop_first());
    } else {
        lemma_step_side_neutral_event(s, target, e1[0]);
        lemma_step_side_neutral_event(s, target, e2[0]);
        lemma_settled_kept(s, target, e1[0]);
        lemma_run_unfold(s, target, e1);
        lemma_run_unfold(s, target, e2);
        lemma_noise_does_not_change_signals(
            listener_step(s, target, e1[0]).0,
            target,
            e1.drop_first(),
            e2.drop_first(),
        );
    }
}

/// A press always records its key (sidedness removed) as held, whatever is
/// held already, and changes nothing about any other key; a release always
/// forgets its key and nothing else.
pub proof fn lemma_press_and_release_record_keys(s: ListenerState, target: Set<Key>, k: Key, x: Key)
    ensures
        listener_step(s, target, KeyEvent::Press(k)).0.held.contains(spec_side_neutral(k)),
        x != spec_side_neutral(k) ==> (listener_step(s, target, KeyEvent::Press(k)).0.held.contains(x)
            == s.held.contains(x)),
        !listener_step(s, target, KeyEvent::Release(k)).0.held.contains(spec_side_neutral(k)),
        x != spec_side_neutral(k) ==> (listener_step(s, target, KeyEvent::Release(k)).0.held.contains(x)
            == s.held.contains(x)),
{
}

/// The press that completes the hotkey, from an inactive listener, signals
/// activation; the release of one of its keys while active signals
/// deactivation.
pub proof fn lemma_completing_press_activates(s: ListenerState, target: Set<Key>, k: Key)
    ensures
        !s.active && s.held.insert(spec_side_neutral(k)) == target ==> listener_step(
            s,
            target,
            KeyEvent::Press(k),
        ).1 == ListenerAction::Activate,
        s.active && target.contains(spec_side_neutral(k)) ==> listener_step(
            s,
            target,
            KeyEvent::Release(k),
        ).1 == ListenerAction::Deactivate,
{
    if s.active && target.contains(spec_side_neutral(k)) {
        let held = s.held.remove(spec_side_neutral(k));
        assert(!held.contains(spec_side_neutral(k)));
        assert(held != target);
    }
}

} // verus!
