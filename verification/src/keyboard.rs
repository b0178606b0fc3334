//! The keys the game listens to, read from the engine's keyboard state.

use vstd::prelude::*;
use bevy::input::keyboard::KeyCode;
use bevy::input::Input;

verus! {

/// The engine's record of which buttons are down, `bevy::input::Input`.
/// Declared so that verified code can pass it on; nothing inside it is
/// visible here.
#[verifier::external_type_specification]
#[verifier::external_body]
#[verifier::reject_recursive_types(T)]
pub struct ExInput<T: Copy + Eq + core::hash::Hash + Send + Sync + 'static>(Input<T>);

/// The engine's names for the keys of a keyboard,
/// `bevy::input::keyboard::KeyCode`. Declared so that it can stand as the
/// parameter of `Input`; verified code never looks at a value of it.
#[verifier::external_type_specification]
#[verifier::external_body]
pub struct ExKeyCode(KeyCode);

/// A key the game reacts to.
#[derive(Clone, Copy, Debug, PartialEq, Eq)]
pub enum Key {
    A,
    D,
    Left,
    Right,
    Space,
    Up,
    ControlLeft,
    ControlRight,
}

/// The keys of the game that `keyboard` records as down.
pub uninterp spec fn held_keys(keyboard: Input<KeyCode>) -> Set<Key>;

/// The keys of the game that `keyboard` records as having gone down since
/// the engine last cleared it, which it does once a frame.
pub uninterp spec fn fresh_keys(keyboard: Input<KeyCode>) -> Set<Key>;

/// Calls `Input::pressed` with the engine's code for `key`. That method
/// looks the code up in the set of buttons that are down and changes nothing,
/// so the answer is membership of `key` in `held_keys`.
#[verifier::external_body]
fn pressed(keyboard: &Input<KeyCode>, key: Key) -> (held: bool)
    ensures
        held == held_keys(*keyboard).contains(key),
{
    let code = match key {
        Key::A => KeyCode::A,
        Key::D => KeyCode::D,
        Key::Left => KeyCode::Left,
        Key::Right => KeyCode::Right,
        Key::Space => KeyCode::Space,
        Key::Up => KeyCode::Up,
        Key::ControlLeft => KeyCode::ControlLeft,
        Key::ControlRight => KeyCode::ControlRight,
    };
    keyboard.pressed(code)
}

/// Calls `Input::just_pressed` with the engine's code for `key`. That method
/// looks the code up in the set of buttons that went down since the last
/// clearing and changes nothing, so the answer is membership of `key` in
/// `fresh_keys`.
#[verifier::external_body]
fn just_pressed(keyboard: &Input<KeyCode>, key: Key) -> (fresh: bool)
    ensures
        fresh == fresh_keys(*keyboard).contains(key),
{
    let code = match key {
        Key::A => KeyCode::A,
        Key::D => KeyCode::D,
        Key::Left => KeyCode::Left,
        Key::Right => KeyCode::Right,
        Key::Space => KeyCode::Space,
        Key::Up => KeyCode::Up,
        Key::ControlLeft => KeyCode::ControlLeft,
        Key::ControlRight => KeyCode::ControlRight,
    };
    keyboard.just_pressed(code)
}

/// What the player asks for in one frame.
#[derive(Clone, Copy, Debug, PartialEq, Eq)]
pub struct Controls {
    /// Walk to the left.
    pub left: bool,
    /// Walk to the right.
    pub right: bool,
    /// Jump: set only in the frame in which a jump key goes down.
    pub jump: bool,
    /// Throw: set in every frame in which a fire key is down.
    pub fire: bool,
}

/// The key bindings: A or the left arrow walks left, D or the right arrow
/// walks right, a fresh press of the space bar or the up arrow jumps, and
/// either control key, while down, throws.
pub open spec fn bindings(held: Set<Key>, fresh: Set<Key>) -> Controls {
    Controls {
        left: held.contains(Key::A) || held.contains(Key::Left),
        right: held.contains(Key::D) || held.contains(Key::Right),
        jump: fresh.contains(Key::Space) || fresh.contains(Key::Up),
        fire: held.contains(Key::ControlLeft) || held.contains(Key::ControlRight),
    }
}

impl Controls {
    /// The controls that a keyboard state stands for.
    pub open spec fn of(keyboard: Input<KeyCode>) -> Controls {
        bindings(held_keys(keyboard), fresh_keys(keyboard))
    }

    /// The walking direction: minus one for left, plus one for right, and
    /// their sum, zero, when both or neither are asked for.
    pub open spec fn direction(self) -> int {
        (if self.right { 1int } else { 0int }) - (if self.left { 1int } else { 0int })
    }

    /// No key at all.
    pub fn idle() -> (controls: Controls)
        ensures
            controls == (Controls { left: false, right: false, jump: false, fire: false }),
    {
        Controls { left: false, right: false, jump: false, fire: false }
    }

    /// Reads the controls off the engine's keyboard state.
    pub fn read(keyboard: &Input<KeyCode>) -> (controls: Controls)
        ensures
            controls == Controls::of(*keyboard),
    {
        Controls {
            left: pressed(keyboard, Key::A) || pressed(keyboard, Key::Left),
            right: pressed(keyboard, Key::D) || pressed(keyboard, Key::Right),
            jump: just_pressed(keyboard, Key::Space) || just_pressed(keyboard, Key::Up),
            fire: pressed(keyboard, Key::ControlLeft) || pressed(keyboard, Key::ControlRight),
        }
    }
}

} // verus!
