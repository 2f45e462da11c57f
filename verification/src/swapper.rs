use vstd::prelude::*;

use crate::key::Key;
use crate::listener::KeyEvent;

verus! {

/// Whether two byte strings are equal.
pub fn bytes_equal(a: &Vec<u8>, b: &Vec<u8>) -> (r: bool)
    ensures
        r == (a@ == b@),
{
    if a.len() != b.len() {
        return false;
    }
    let mut i: usize = 0;
    while i < a.len()
        invariant
            a@.len() == b@.len(),
            i <= a@.len(),
            forall|j: int| 0 <= j < i ==> a@[j] == b@[j],
        decreases a@.len() - i,
    {
        if a[i] != b[i] {
            return false;
        }
        i = i + 1;
    }
    assert(a@ =~= b@);
    true
}

/// How turning the swap on begins.
#[derive(Clone, Copy, Debug, PartialEq, Eq, Structural)]
pub enum SwapStart {
    /// No input to swap to is set: nothing happens and the call succeeds.
    NoSwapTarget,
    /// Ask the sound server for its current default input, then switch.
    QueryDefault,
}

/// How switching the default input ended.
#[derive(Clone, Copy, Debug, PartialEq, Eq, Structural)]
pub enum SwitchOutcome {
    /// The input is now the default.
    Switched,
    /// The sound server has no input of that name (any more).
    NoSuchSource,
    /// Any other failure.
    Failed,
}

/// The two inputs a swapper knows of: the default input it found when the
/// swap was last turned on, and the input to swap to.
pub struct SwapSources {
    pub original: Seq<u8>,
    pub target: Seq<u8>,
}

/// The sources after the swap was turned on while `default` was the default
/// input.
pub open spec fn after_swap_on(s: SwapSources, default: Seq<u8>) -> SwapSources {
    SwapSources { original: default, target: s.target }
}

/// The sources after a switch to `source` ended with `outcome`: an input to
/// swap to that the server does not know is forgotten.
pub open spec fn after_switch(s: SwapSources, source: Seq<u8>, outcome: SwitchOutcome) -> SwapSources {
    if outcome == SwitchOutcome::NoSuchSource && source == s.target {
        SwapSources { original: s.original, target: Seq::empty() }
    } else {
        s
    }
}

/// How turning the swap on begins, for a given input to swap to.
pub open spec fn swap_start(target: Seq<u8>) -> SwapStart {
    if target.len() == 0 {
        SwapStart::NoSwapTarget
    } else {
        SwapStart::QueryDefault
    }
}

/// Swaps the default PulseAudio input to a chosen one and back again.
///
/// The sound server calls happen outside; this holds the sources and makes
/// every decision between the calls.
#[derive(Debug)]
pub struct PAInputSwapper {
    original_source: Vec<u8>,
    /// The name of the input to swap to; empty when none is set.
    swap_to: Vec<u8>,
}

impl PAInputSwapper {
    /// The two inputs the swapper knows of.
    pub closed spec fn sources(&self) -> SwapSources {
        SwapSources { original: self.original_source@, target: self.swap_to@ }
    }

    /// The name of the input to swap to; empty when none is set.
    pub fn swap_to(&self) -> (name: &Vec<u8>)
        ensures
            name@ == self.sources().target,
    {
        &self.swap_to
    }

    /// Sets the input to swap to; the recorded original input stays.
    pub fn set_swap_to(&mut self, name: Vec<u8>)
        ensures
            final(self).sources() == (SwapSources { original: old(self).sources().original, target: name@ }),
    {
        self.swap_to = name;
    }

    /// A swapper with no input to swap to and no original input recorded.
    pub fn new() -> (s: Self)
        ensures
            s.sources().original == Seq::<u8>::empty(),
            s.sources().target == Seq::<u8>::empty(),
    {
        PAInputSwapper { original_source: Vec::new(), swap_to: Vec::new() }
    }

    /// How turning the swap on begins.
    pub fn swap_on_start(&self) -> (r: SwapStart)
        ensures
            r == swap_start(self.sources().target),
    {
        if self.swap_to.len() == 0 {
            SwapStart::NoSwapTarget
        } else {
            SwapStart::QueryDefault
        }
    }

    /// Records `default_source`, the default input the server reported, and
    /// gives the input to switch to.
    pub fn swap_on_default(&mut self, default_source: Vec<u8>) -> (target: Vec<u8>)
        ensures
            final(self).sources() == after_swap_on(old(self).sources(), default_source@),
            target@ == old(self).sources().target,
    {
        self.original_source = default_source;
        self.swap_to.clone()
    }

    /// The input that turning the swap off switches back to.
    pub fn swap_off_source(&self) -> (source: Vec<u8>)
        ensures
            source@ == self.sources().original,
    {
        self.original_source.clone()
    }

    /// Takes into account how a switch to `source` ended.
    pub fn switch_done(&mut self, source: &Vec<u8>, outcome: SwitchOutcome)
        ensures
            final(self).sources() == after_switch(old(self).sources(), source@, outcome),
    {
        if outcome == SwitchOutcome::NoSuchSource && bytes_equal(&self.swap_to, source) {
            self.swap_to = Vec::new();
        }
    }
}

/// Swaps the default Windows capture device to a chosen one and back again.
///
/// The system calls happen outside; this holds the device ids and makes
/// every decision between the calls.
#[derive(Debug)]
pub struct WinInputSwapper {
    original_source: String,
    /// The id of the device to swap to; empty when none is set.
    swap_to: String,
}

impl WinInputSwapper {
    /// The device id that was the default when the swap was last turned on.
    pub closed spec fn original(&self) -> Seq<char> {
        self.original_source@
    }

    /// The id of the device to swap to.
    pub closed spec fn target(&self) -> Seq<char> {
        self.swap_to@
    }

    /// The id of the device to swap to; empty when none is set.
    pub fn swap_to(&self) -> (id: &String)
        ensures
            id@ == self.target(),
    {
        &self.swap_to
    }

    /// Sets the device to swap to; the recorded original device stays.
    pub fn set_swap_to(&mut self, id: String)
        ensures
            final(self).target() == id@,
            final(self).original() == old(self).original(),
    {
        self.swap_to = id;
    }

    /// A swapper that swaps to `swap_to`, with no original device recorded.
    pub fn new(swap_to: String) -> (s: Self)
        ensures
            s.original() == Seq::<char>::empty(),
            s.target() == swap_to@,
    {
        WinInputSwapper { original_source: String::new(), swap_to }
    }

    /// Whether turning the swap on has anything to do: it has not when no
    /// device to swap to is set.
    pub fn swap_on_start(&self) -> (r: SwapStart)
        ensures
            r == (if self.target().len() == 0 {
                SwapStart::NoSwapTarget
            } else {
                SwapStart::QueryDefault
            }),
    {
        if self.swap_to.as_str().is_empty() {
            SwapStart::NoSwapTarget
        } else {
            SwapStart::QueryDefault
        }
    }

    /// Records `default_device`, the current default capture device, and
    /// gives the device to switch to.
    pub fn swap_on_default(&mut self, default_device: String) -> (target: String)
        ensures
            final(self).original() == default_device@,
            final(self).target() == old(self).target(),
            target@ == old(self).target(),
    {
        self.original_source = default_device;
        self.swap_to.clone()
    }

    /// The device that turning the swap off switches back to.
    pub fn swap_off_source(&self) -> (source: String)
        ensures
            source@ == self.original(),
    {
        self.original_source.clone()
    }

    /// Whether dropping the swapper must switch back to the original device:
    /// only when one was recorded.
    pub fn restore_on_drop(&self) -> (b: bool)
        ensures
            b == (self.original().len() > 0),
    {
        !self.original_source.as_str().is_empty()
    }
}

/// The key that swaps the input while held, in the command-line swapper.
pub const CONTROLLER_KEY: Key = Key::F4;

/// What the command-line swapper does on a key event.
#[derive(Clone, Copy, Debug, PartialEq, Eq, Structural)]
pub enum CallbackAction {
    Nothing,
    SwapOn,
    SwapOff,
}

/// The command-line swapper's reaction to `event` while `active`: pressing
/// the controller key turns the swap on, releasing it turns it off, and
/// nothing else has any effect.
pub open spec fn cli_reaction(active: bool, event: KeyEvent) -> CallbackAction {
    match event {
        KeyEvent::Press(k) => if k == CONTROLLER_KEY && !active {
            CallbackAction::SwapOn
        } else {
            CallbackAction::Nothing
        },
        KeyEvent::Release(k) => if k == CONTROLLER_KEY && active {
            CallbackAction::SwapOff
        } else {
            CallbackAction::Nothing
        },
        KeyEvent::Other => CallbackAction::Nothing,
    }
}

/// Whether the swap is on after `action`, when every swap succeeds.
pub open spec fn cli_active_after(active: bool, action: CallbackAction) -> bool {
    match action {
        CallbackAction::SwapOn => true,
        CallbackAction::SwapOff => false,
        CallbackAction::Nothing => active,
    }
}

/// The reactions to a sequence of events, starting from `active`, when
/// every swap succeeds.
pub open spec fn cli_run(active: bool, events: Seq<KeyEvent>) -> Seq<CallbackAction>
    decreases events.len(),
{
    if events.len() == 0 {
        Seq::empty()
    } else {
        let a = cli_reaction(active, events[0]);
        seq![a] + cli_run(cli_active_after(active, a), events.drop_first())
    }
}

/// Whether the reactions turn the swap on and off in turn, starting from
/// `active`.
pub open spec fn reactions_alternate(actions: Seq<CallbackAction>, active: bool) -> bool
    decreases actions.len(),
{
    if actions.len() == 0 {
        true
    } else {
        match actions[0] {
            CallbackAction::Nothing => reactions_alternate(actions.drop_first(), active),
            CallbackAction::SwapOn => !active && reactions_alternate(actions.drop_first(), true),
            CallbackAction::SwapOff => active && reactions_alternate(actions.drop_first(), false),
        }
    }
}

/// The command-line swapper: swaps the default PulseAudio input while the
/// controller key is held. Failures of the sound server stop the program, so
/// the swap is on exactly after a successful turn-on.
#[derive(Debug)]
pub struct InputSwapper {
    original_source: Vec<u8>,
    /// The name of the input to swap to.
    swap_to: Vec<u8>,
    active: bool,
}

impl InputSwapper {
    /// The two inputs the swapper knows of.
    pub closed spec fn sources(&self) -> SwapSources {
        SwapSources { original: self.original_source@, target: self.swap_to@ }
    }

    /// Whether the swap is on.
    pub closed spec fn is_on(&self) -> bool {
        self.active
    }

    /// The name of the input to swap to.
    pub fn swap_to(&self) -> (name: &Vec<u8>)
        ensures
            name@ == self.sources().target,
    {
        &self.swap_to
    }

    /// Sets the input to swap to; the recorded original input and whether
    /// the swap is on stay.
    pub fn set_swap_to(&mut self, name: Vec<u8>)
        ensures
            final(self).sources() == (SwapSources { original: old(self).sources().original, target: name@ }),
            final(self).is_on() == old(self).is_on(),
    {
        self.swap_to = name;
    }

    /// A swapper to `swap_to`, with the swap off.
    pub fn new(swap_to: Vec<u8>) -> (s: Self)
        ensures
            s.sources().original == Seq::<u8>::empty(),
            s.sources().target == swap_to@,
            !s.is_on(),
    {
        InputSwapper { original_source: Vec::new(), swap_to, active: false }
    }

    /// What to do on a key event.
    pub fn key_callback(&self, event: KeyEvent) -> (r: CallbackAction)
        ensures
            r == cli_reaction(self.is_on(), event),
    {
        match event {
            KeyEvent::Press(k) => {
                if k == CONTROLLER_KEY && !self.active {
                    CallbackAction::SwapOn
                } else {
                    CallbackAction::Nothing
                }
            },
            KeyEvent::Release(k) => {
                if k == CONTROLLER_KEY && self.active {
                    CallbackAction::SwapOff
                } else {
                    CallbackAction::Nothing
                }
            },
            KeyEvent::Other => CallbackAction::Nothing,
        }
    }

    /// Whether turning the swap on has anything to do: not when it is on.
    pub fn swap_on_start(&self) -> (b: bool)
        ensures
            b == !self.is_on(),
    {
        !self.active
    }

    /// Records `default_source`, the default input the server reported, and
    /// gives the input to switch to.
    pub fn swap_on_default(&mut self, default_source: Vec<u8>) -> (target: Vec<u8>)
        ensures
            final(self).sources() == after_swap_on(old(self).sources(), default_source@),
            final(self).is_on() == old(self).is_on(),
            target@ == old(self).sources().target,
    {
        self.original_source = default_source;
        self.swap_to.clone()
    }

    /// Marks the swap as on, once the switch succeeded.
    pub fn swap_on_done(&mut self)
        ensures
            final(self).sources() == old(self).sources(),
            final(self).is_on(),
    {
        self.active = true;
    }

    /// The input to switch back to when turning the swap off, or `None`
    /// when the swap is not on and there is nothing to do.
    pub fn swap_off_start(&self) -> (r: Option<Vec<u8>>)
        ensures
            match r {
                Some(source) => self.is_on() && source@ == self.sources().original,
                None => !self.is_on(),
            },
    {
        if !self.active {
            None
        } else {
            Some(self.original_source.clone())
        }
    }

    /// Marks the swap as off, once the switch back succeeded.
    pub fn swap_off_done(&mut self)
        ensures
            final(self).sources() == old(self).sources(),
            !final(self).is_on(),
    {
        self.active = false;
    }
}

/// Turning the swap off switches back to the input that was the default when
/// it was turned on, whatever became of the switch to the swap input.
pub proof fn lemma_swap_off_restores(s: SwapSources, default: Seq<u8>, outcome: SwitchOutcome)
    ensures
        after_switch(after_swap_on(s, default), s.target, outcome).original == default,
{
}

/// When the server does not know the input to swap to, the swapper forgets
/// it, and the next turn-on does nothing.
pub proof fn lemma_missing_target_is_forgotten(s: SwapSources)
    ensures
        swap_start(after_switch(s, s.target, SwitchOutcome::NoSuchSource).target)
            == SwapStart::NoSwapTarget,
{
}

/// A switch to any input other than the one to swap to changes nothing.
pub proof fn lemma_other_switch_keeps_sources(s: SwapSources, source: Seq<u8>, outcome: SwitchOutcome)
    requires
        source != s.target,
    ensures
        after_switch(s, source, outcome) == s,
{
}

/// In the command-line swapper, the swap is turned on and off in turn, and
/// only the controller key does anything.
pub proof fn lemma_cli_reactions_alternate(active: bool, events: Seq<KeyEvent>)
    ensures
        cli_run(active, events).len() == events.len(),
        reactions_alternate(cli_run(active, events), active),
        forall|i: int|
            0 <= i < events.len() && #[trigger] cli_run(active, events)[i] != CallbackAction::Nothing
                ==> (events[i] == KeyEvent::Press(CONTROLLER_KEY) || events[i] == KeyEvent::Release(
                CONTROLLER_KEY,
            )),
    decreases events.len(),
{
    if events.len() > 0 {
        let a = cli_reaction(active, events[0]);
        let next = cli_active_after(active, a);
        lemma_cli_reactions_alternate(next, events.drop_first());
        let run = cli_run(active, events);
        let rest = cli_run(next, events.drop_first());
        assert(run == seq![a] + rest);
        assert(run[0] == a);
        assert(run.drop_first() =~= rest);
        assert forall|i: int|
            0 <= i < events.len() && #[trigger] cli_run(active, events)[i] != CallbackAction::Nothing
            implies (events[i] == KeyEvent::Press(CONTROLLER_KEY) || events[i] == KeyEvent::Release(
            CONTROLLER_KEY,
        )) by {
            if i > 0 {
                assert(run[i] == rest[i - 1]);
                assert(events.drop_first()[i - 1] == events[i]);
            }
        }
    }
}

/// Only a switch that failed because the server has no such input forgets
/// anything: a switch that succeeded or failed in any other way leaves both
/// the recorded original input and the input to swap to as they were, and
/// even the failing one never touches the recorded original input.
pub proof fn lemma_only_missing_source_forgets(s: SwapSources, source: Seq<u8>, outcome: SwitchOutcome)
    ensures
        outcome != SwitchOutcome::NoSuchSource ==> after_switch(s, source, outcome) == s,
        after_switch(s, source, outcome).original == s.original,
        after_switch(s, source, outcome).target == s.target || (outcome == SwitchOutcome::NoSuchSource
            && source == s.target && after_switch(s, source, outcome).target.len() == 0),
{
}

/// Turning the swap on does nothing exactly when no input to swap to is set
/// (its name is empty); with any name set it asks for the default input.
pub proof fn lemma_swap_start_needs_target(target: Seq<u8>)
    ensures
        target.len() == 0 ==> swap_start(target) == SwapStart::NoSwapTarget,
        target.len() > 0 ==> swap_start(target) == SwapStart::QueryDefault,
{
}

/// The command-line swapper turns the swap on at a press of F4 while off,
/// off at a release of F4 while on, and does nothing on any other event.
pub proof fn lemma_cli_reaction_cases(active: bool, event: KeyEvent)
    ensures
        event == KeyEvent::Press(Key::F4) && !active ==> cli_reaction(active, event) == CallbackAction::SwapOn,
        event == KeyEvent::Release(Key::F4) && active ==> cli_reaction(active, event)
            == CallbackAction::SwapOff,
        !(event == KeyEvent::Press(Key::F4) && !active) && !(event == KeyEvent::Release(Key::F4)
            && active) ==> cli_reaction(active, event) == CallbackAction::Nothing,
{
}

} // verus!
