//! The input tracker: which controls are held, as told by key transitions.
//!
//! The host reports each key that went down or up as a [`KeyEvent`]. Five keys
//! are bound to the five controls of the ball; a transition of any other key
//! is ignored. An [`InputState`] holds one flag per control, true while the
//! key bound to it is held. Where several transitions of one key arrive
//! together, the last one decides.

use vstd::prelude::*;

verus! {

/// The identity of a key, as far as the game tells keys apart.
#[derive(Clone, Copy, PartialEq, Eq, Structural, Debug)]
pub enum Key {
    /// The up arrow.
    Up,
    /// The down arrow.
    Down,
    /// The left arrow.
    Left,
    /// The right arrow.
    Right,
    /// The space bar.
    Space,
    /// Any other key, or a transition that names no key.
    Other,
}

/// One of the five things the player can ask of the ball.
#[derive(Clone, Copy, PartialEq, Eq, Structural, Debug)]
pub enum Control {
    Forward,
    Backward,
    Left,
    Right,
    Jump,
}

/// A key went down (`pressed`) or came up.
#[derive(Clone, Copy, PartialEq, Eq, Structural, Debug)]
pub struct KeyEvent {
    pub key: Key,
    pub pressed: bool,
}

/// The control that a key is bound to, if any.
pub open spec fn control_of(key: Key) -> Option<Control> {
    match key {
        Key::Up => Some(Control::Forward),
        Key::Down => Some(Control::Backward),
        Key::Left => Some(Control::Left),
        Key::Right => Some(Control::Right),
        Key::Space => Some(Control::Jump),
        Key::Other => None,
    }
}

/// Whether `control` is held once `events` have arrived in this order, given
/// that it was held (`initial`) or not before them: the last transition of the
/// key bound to `control` decides, and without one nothing changes.
pub open spec fn held_after(events: Seq<KeyEvent>, control: Control, initial: bool) -> bool
    decreases events.len(),
{
    if events.len() == 0 {
        initial
    } else if control_of(events.last().key) == Some(control) {
        events.last().pressed
    } else {
        held_after(events.drop_last(), control, initial)
    }
}

impl Key {
    /// The control that this key is bound to, if any.
    pub fn control(self) -> (r: Option<Control>)
        ensures
            r == control_of(self),
    {
        match self {
            Key::Up => Some(Control::Forward),
            Key::Down => Some(Control::Backward),
            Key::Left => Some(Control::Left),
            Key::Right => Some(Control::Right),
            Key::Space => Some(Control::Jump),
            Key::Other => None,
        }
    }
}

/// One flag per control: true while the key bound to it is held.
#[derive(Clone, Copy, PartialEq, Eq, Structural, Debug)]
pub struct InputState {
    pub forward: bool,
    pub backward: bool,
    pub left: bool,
    pub right: bool,
    pub jump: bool,
}

impl InputState {
    /// The state in which no control is held.
    pub open spec fn released() -> InputState {
        InputState { forward: false, backward: false, left: false, right: false, jump: false }
    }

    /// This state with the flag of `control` set to `pressed`.
    pub open spec fn with(self, control: Control, pressed: bool) -> InputState {
        match control {
            Control::Forward => InputState { forward: pressed, ..self },
            Control::Backward => InputState { backward: pressed, ..self },
            Control::Left => InputState { left: pressed, ..self },
            Control::Right => InputState { right: pressed, ..self },
            Control::Jump => InputState { jump: pressed, ..self },
        }
    }

    /// The state that follows this one when `event` arrives.
    pub open spec fn after_event(self, event: KeyEvent) -> InputState {
        match control_of(event.key) {
            Some(control) => self.with(control, event.pressed),
            None => self,
        }
    }

    /// The state that follows this one when `events` arrive in this order.
    pub open spec fn after_events(self, events: Seq<KeyEvent>) -> InputState {
        InputState {
            forward: held_after(events, Control::Forward, self.forward),
            backward: held_after(events, Control::Backward, self.backward),
            left: held_after(events, Control::Left, self.left),
            right: held_after(events, Control::Right, self.right),
            jump: held_after(events, Control::Jump, self.jump),
        }
    }

    /// The state in which no control is held.
    pub fn new() -> (r: InputState)
        ensures
            r == InputState::released(),
    {
        InputState { forward: false, backward: false, left: false, right: false, jump: false }
    }

    /// Takes in one key transition: the flag of the control that the key is
    /// bound to becomes `event.pressed`; a key bound to nothing changes
    /// nothing.
    pub fn apply(&mut self, event: KeyEvent)
        ensures
            *final(self) == old(self).after_event(event),
    {
        match event.key.control() {
            Some(Control::Forward) => {
                self.forward = event.pressed;
            },
            Some(Control::Backward) => {
                self.backward = event.pressed;
            },
            Some(Control::Left) => {
                self.left = event.pressed;
            },
            Some(Control::Right) => {
                self.right = event.pressed;
            },
            Some(Control::Jump) => {
                self.jump = event.pressed;
            },
            None => {},
        }
    }

    /// Takes in the key transitions of one frame, in the order of arrival.
    pub fn process(&mut self, events: &[KeyEvent])
        ensures
            *final(self) == old(self).after_events(events@),
    {
        let mut i: usize = 0;
        while i < events.len()
            invariant
                i <= events.len(),
                *self == old(self).after_events(events@.take(i as int)),
            decreases events.len() - i,
        {
            proof {
                lemma_after_events_push(*old(self), events@.take(i as int), events[i as int]);
                assert(events@.take(i as int).push(events[i as int]) == events@.take(i + 1));
            }
            self.apply(events[i]);
            i = i + 1;
        }
        assert(events@.take(i as int) == events@);
    }
}

/// Taking in `events` and then `event` is taking in the sequence with `event`
/// at its end.
pub proof fn lemma_after_events_push(state: InputState, events: Seq<KeyEvent>, event: KeyEvent)
    ensures
        state.after_events(events.push(event)) == state.after_events(events).after_event(event),
{
    assert(events.push(event).drop_last() == events);
}

/// Frames compose: taking in `first` and then `second` is taking in the two in
/// one go.
pub proof fn lemma_after_events_concat(
    state: InputState,
    first: Seq<KeyEvent>,
    second: Seq<KeyEvent>,
)
    ensures
        state.after_events(first + second) == state.after_events(first).after_events(second),
    decreases second.len(),
{
    if second.len() == 0 {
        assert(first + second == first);
    } else {
        let init = second.drop_last();
        assert(first + second == (first + init).push(second.last()));
        assert(second == init.push(second.last()));
        lemma_after_events_concat(state, first, init);
        lemma_after_events_push(state, first + init, second.last());
        lemma_after_events_push(state.after_events(first), init, second.last());
    }
}

/// Transitions of keys that are bound to nothing leave every flag as it was.
pub proof fn lemma_unbound_keys_ignored(state: InputState, events: Seq<KeyEvent>)
    requires
        forall|i: int| 0 <= i < events.len() ==> control_of(#[trigger] events[i].key).is_none(),
    ensures
        state.after_events(events) == state,
    decreases events.len(),
{
    if events.len() > 0 {
        lemma_unbound_keys_ignored(state, events.drop_last());
    }
}

} // verus!
