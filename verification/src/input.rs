//! Keyboard and mouse-button state.

use std::collections::HashSet;
use vstd::prelude::*;

use crate::event::{ElementState, KeyCode, MouseButton, PhysicalKey, WindowEvent};

verus! {

broadcast use vstd::std_specs::hash::group_hash_axioms;

/// The number under which a mouse button is stored; distinct buttons get
/// distinct numbers.
pub open spec fn spec_button_code(button: MouseButton) -> u32 {
    match button {
        MouseButton::Left => 0,
        MouseButton::Right => 1,
        MouseButton::Middle => 2,
        MouseButton::Back => 3,
        MouseButton::Forward => 4,
        MouseButton::Other(n) => (5 + n) as u32,
    }
}

/// No two buttons share a code.
pub proof fn lemma_button_code_injective(a: MouseButton, b: MouseButton)
    ensures
        spec_button_code(a) == spec_button_code(b) ==> a == b,
{
}

fn button_code(button: MouseButton) -> (code: u32)
    ensures
        code == spec_button_code(button),
{
    match button {
        MouseButton::Left => 0,
        MouseButton::Right => 1,
        MouseButton::Middle => 2,
        MouseButton::Back => 3,
        MouseButton::Forward => 4,
        MouseButton::Other(n) => 5 + n as u32,
    }
}

/// The keys and mouse buttons currently held down.
pub struct InputView {
    pub keys: Set<KeyCode>,
    pub mouse_buttons: Set<MouseButton>,
}

/// Keyboard and mouse-button state built from window events.
pub struct Input {
    keys: HashSet<KeyCode>,
    mouse_buttons: HashSet<u32>,
}

impl View for Input {
    type V = InputView;

    closed spec fn view(&self) -> InputView {
        InputView {
            keys: self.keys@,
            mouse_buttons: Set::new(|b: MouseButton| self.mouse_buttons@.contains(spec_button_code(b))),
        }
    }
}

/// Whether the input state consumes `event`.
pub open spec fn spec_handles(event: WindowEvent) -> bool {
    match event {
        WindowEvent::KeyboardInput { key: PhysicalKey::Code(_), .. } => true,
        WindowEvent::MouseInput { .. } => true,
        WindowEvent::MouseWheel => true,
        _ => false,
    }
}

/// Adds `x` to `s` when `state` is `Pressed`, removes it otherwise.
pub open spec fn spec_press<A>(s: Set<A>, x: A, state: ElementState) -> Set<A> {
    match state {
        ElementState::Pressed => s.insert(x),
        ElementState::Released => s.remove(x),
    }
}

/// The held keys and buttons after `event`.
pub open spec fn spec_after_event(v: InputView, event: WindowEvent) -> InputView {
    match event {
        WindowEvent::KeyboardInput { key: PhysicalKey::Code(k), state } => InputView {
            keys: spec_press(v.keys, k, state),
            mouse_buttons: v.mouse_buttons,
        },
        WindowEvent::MouseInput { button, state } => InputView {
            keys: v.keys,
            mouse_buttons: spec_press(v.mouse_buttons, button, state),
        },
        _ => v,
    }
}

impl Input {
    /// An input state with nothing held.
    pub fn new() -> (input: Self)
        ensures
            input@.keys == Set::<KeyCode>::empty(),
            input@.mouse_buttons == Set::<MouseButton>::empty(),
    {
        let input = Input { keys: HashSet::new(), mouse_buttons: HashSet::new() };
        assert(input@.mouse_buttons =~= Set::<MouseButton>::empty());
        input
    }

    /// Records a key or button going down or up. Returns whether the event
    /// was a keyboard event with a known key, a mouse-button event or a
    /// wheel event; any other event leaves the state as it was.
    pub fn process_event(&mut self, event: &WindowEvent) -> (handled: bool)
        ensures
            handled == spec_handles(*event),
            final(self)@ == spec_after_event(old(self)@, *event),
    {
        match event {
            WindowEvent::KeyboardInput { key: PhysicalKey::Code(k), state } => {
                match state {
                    ElementState::Pressed => {
                        self.keys.insert(*k);
                    },
                    ElementState::Released => {
                        self.keys.remove(k);
                    },
                }
                proof {
                    assert(self@.keys =~= spec_after_event(old(self)@, *event).keys);
                    assert(self@.mouse_buttons =~= old(self)@.mouse_buttons);
                }
                true
            },
            WindowEvent::MouseInput { button, state } => {
                let code = button_code(*button);
                match state {
                    ElementState::Pressed => {
                        self.mouse_buttons.insert(code);
                    },
                    ElementState::Released => {
                        self.mouse_buttons.remove(&code);
                    },
                }
                proof {
                    let expected = spec_after_event(old(self)@, *event).mouse_buttons;
                    assert forall|b: MouseButton| self@.mouse_buttons.contains(b) <==> expected.contains(b) by {
                        lemma_button_code_injective(b, *button);
                    }
                    assert(self@.mouse_buttons =~= expected);
                }
                true
            },
            WindowEvent::MouseWheel => true,
            _ => false,
        }
    }

    /// Whether `key` is held down.
    pub fn is_key_pressed(&self, key: KeyCode) -> (pressed: bool)
        ensures
            pressed == self@.keys.contains(key),
    {
        self.keys.contains(&key)
    }

    /// Whether `button` is held down.
    pub fn is_mouse_button_pressed(&self, button: MouseButton) -> (pressed: bool)
        ensures
            pressed == self@.mouse_buttons.contains(button),
    {
        let code = button_code(button);
        self.mouse_buttons.contains(&code)
    }
}

/// A key-down event for a key with a code.
pub open spec fn spec_key_event(key: KeyCode, state: ElementState) -> WindowEvent {
    WindowEvent::KeyboardInput { key: PhysicalKey::Code(key), state }
}

/// A key is held after it goes down and not after it goes up; other keys
/// and the mouse buttons are untouched by either.
pub proof fn law_key_press_release(v: InputView, key: KeyCode, other: KeyCode)
    ensures
        spec_after_event(v, spec_key_event(key, ElementState::Pressed)).keys.contains(key),
        !spec_after_event(v, spec_key_event(key, ElementState::Released)).keys.contains(key),
        other != key ==> (spec_after_event(v, spec_key_event(key, ElementState::Pressed)).keys.contains(
            other,
        ) == v.keys.contains(other)),
        other != key ==> (spec_after_event(v, spec_key_event(key, ElementState::Released)).keys.contains(
            other,
        ) == v.keys.contains(other)),
        spec_after_event(v, spec_key_event(key, ElementState::Pressed)).mouse_buttons == v.mouse_buttons,
        spec_after_event(v, spec_key_event(key, ElementState::Released)).mouse_buttons == v.mouse_buttons,
{
}

/// A button is held after it goes down and not after it goes up; other
/// buttons and the keys are untouched by either.
pub proof fn law_button_press_release(
    v: InputView,
    button: MouseButton,
    other: MouseButton,
    state: ElementState,
)
    ensures
        spec_after_event(v, WindowEvent::MouseInput { button, state }).mouse_buttons.contains(button)
            == (state == ElementState::Pressed),
        other != button ==> (spec_after_event(
            v,
            WindowEvent::MouseInput { button, state },
        ).mouse_buttons.contains(other) == v.mouse_buttons.contains(other)),
        spec_after_event(v, WindowEvent::MouseInput { button, state }).keys == v.keys,
{
}

/// Pressing a key that is already held changes nothing, and pressing then
/// releasing a key leaves the state as if the key had only been released.
pub proof fn law_press_idempotent_and_release_undoes(v: InputView, key: KeyCode)
    ensures
        spec_after_event(
            spec_after_event(v, spec_key_event(key, ElementState::Pressed)),
            spec_key_event(key, ElementState::Pressed),
        ) == spec_after_event(v, spec_key_event(key, ElementState::Pressed)),
        spec_after_event(
            spec_after_event(v, spec_key_event(key, ElementState::Pressed)),
            spec_key_event(key, ElementState::Released),
        ) == spec_after_event(v, spec_key_event(key, ElementState::Released)),
{
    let pressed = spec_after_event(v, spec_key_event(key, ElementState::Pressed));
    assert(spec_after_event(pressed, spec_key_event(key, ElementState::Pressed)).keys =~= pressed.keys);
    assert(spec_after_event(pressed, spec_key_event(key, ElementState::Released)).keys
        =~= v.keys.remove(key));
}

/// Events the input state does not handle leave it as it was.
pub proof fn law_unhandled_events_change_nothing(v: InputView, event: WindowEvent)
    requires
        !spec_handles(event),
    ensures
        spec_after_event(v, event) == v,
{
}

/// The held keys and buttons after a whole sequence of events, in order.
pub open spec fn spec_after_events(v: InputView, events: Seq<WindowEvent>) -> InputView
    decreases events.len(),
{
    if events.len() == 0 {
        v
    } else {
        spec_after_event(spec_after_events(v, events.drop_last()), events.last())
    }
}

/// The state of the last keyboard event for `key` in `events`, if any.
pub open spec fn spec_last_key_state(events: Seq<WindowEvent>, key: KeyCode) -> Option<ElementState>
    decreases events.len(),
{
    if events.len() == 0 {
        None
    } else {
        match events.last() {
            WindowEvent::KeyboardInput { key: PhysicalKey::Code(k), state } => if k == key {
                Some(state)
            } else {
                spec_last_key_state(events.drop_last(), key)
            },
            _ => spec_last_key_state(events.drop_last(), key),
        }
    }
}

/// The state of the last event for `button` in `events`, if any.
pub open spec fn spec_last_button_state(events: Seq<WindowEvent>, button: MouseButton) -> Option<
    ElementState,
>
    decreases events.len(),
{
    if events.len() == 0 {
        None
    } else {
        match events.last() {
            WindowEvent::MouseInput { button: b, state } => if b == button {
                Some(state)
            } else {
                spec_last_button_state(events.drop_last(), button)
            },
            _ => spec_last_button_state(events.drop_last(), button),
        }
    }
}

/// After any sequence of events, a key is held exactly when the last event
/// for it was a press, and is as before when no event was for it; presses
/// are not counted and events for other keys or buttons never matter. The
/// same holds of mouse buttons.
pub proof fn law_held_after_events(
    v: InputView,
    events: Seq<WindowEvent>,
    key: KeyCode,
    button: MouseButton,
)
    ensures
        spec_after_events(v, events).keys.contains(key) == match spec_last_key_state(events, key) {
            Some(state) => state == ElementState::Pressed,
            None => v.keys.contains(key),
        },
        spec_after_events(v, events).mouse_buttons.contains(button) == match spec_last_button_state(
            events,
            button,
        ) {
            Some(state) => state == ElementState::Pressed,
            None => v.mouse_buttons.contains(button),
        },
    decreases events.len(),
{
    if events.len() > 0 {
        law_held_after_events(v, events.drop_last(), key, button);
    }
}

} // verus!
