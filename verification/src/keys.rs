//! Keys, as a terminal and as a window report them.

use core::hash::Hash;

use bevy::input::keyboard::KeyCode;
use bevy::input::ButtonInput;
use vstd::prelude::*;

verus! {

/// A key press that a terminal reports: the character that was typed, or an arrow.
#[derive(Clone, Copy, Debug, PartialEq, Eq)]
pub enum TermKey {
    Char(char),
    Up,
    Down,
    Left,
    Right,
    Other,
}

/// A key on the keyboard that a window reports, whatever is printed on it in other layouts.
#[derive(Clone, Copy, Debug, PartialEq, Eq, Structural)]
pub enum PhysicalKey {
    KeyA,
    KeyC,
    KeyD,
    KeyE,
    KeyF,
    KeyG,
    KeyI,
    KeyJ,
    KeyK,
    KeyL,
    KeyQ,
    KeyR,
    KeyS,
    KeyT,
    KeyV,
    KeyW,
    ArrowUp,
    ArrowDown,
    ArrowLeft,
    ArrowRight,
    Digit1,
    Digit2,
    Digit3,
    Digit4,
    Digit5,
    Digit6,
    /// Any key without a binding.
    Other,
}

/// One of the two Shift keys.
#[derive(Clone, Copy, Debug, PartialEq, Eq, Structural)]
pub enum ShiftKey {
    ShiftLeft,
    ShiftRight,
}

/// `bevy::input::keyboard::KeyCode`, the code of a physical key.
#[verifier::external_type_specification]
#[verifier::external_body]
pub struct ExKeyCode(KeyCode);

/// `bevy::input::ButtonInput`, the buttons that are held and those that went down in this
/// frame.
#[verifier::external_type_specification]
#[verifier::external_body]
#[verifier::reject_recursive_types(T)]
pub struct ExButtonInput<T: Clone + Eq + Hash + Send + Sync + 'static>(ButtonInput<T>);

/// The keys that went down in this frame. All keys without a binding count as
/// [`PhysicalKey::Other`].
pub uninterp spec fn just_pressed_keys(keys: ButtonInput<KeyCode>) -> Set<PhysicalKey>;

/// The Shift keys that are held down.
pub uninterp spec fn held_shifts(keys: ButtonInput<KeyCode>) -> Set<ShiftKey>;

/// Calls `ButtonInput::just_pressed`, which looks the key up among those that went down in
/// this frame. `key` stands for the code of the same name; the codes below are in the order
/// of the variants of [`PhysicalKey`].
#[verifier::external_body]
pub(crate) fn just_pressed(keys: &ButtonInput<KeyCode>, key: PhysicalKey) -> (down: bool)
    requires
        key != PhysicalKey::Other,
    ensures
        down == just_pressed_keys(*keys).contains(key),
{
    let codes = [
        KeyCode::KeyA, KeyCode::KeyC, KeyCode::KeyD, KeyCode::KeyE, KeyCode::KeyF, KeyCode::KeyG,
        KeyCode::KeyI, KeyCode::KeyJ, KeyCode::KeyK, KeyCode::KeyL, KeyCode::KeyQ, KeyCode::KeyR,
        KeyCode::KeyS, KeyCode::KeyT, KeyCode::KeyV, KeyCode::KeyW,
        KeyCode::ArrowUp, KeyCode::ArrowDown, KeyCode::ArrowLeft, KeyCode::ArrowRight,
        KeyCode::Digit1, KeyCode::Digit2, KeyCode::Digit3,
        KeyCode::Digit4, KeyCode::Digit5, KeyCode::Digit6,
    ];
    keys.just_pressed(codes[key as usize])
}

/// Calls `ButtonInput::get_just_pressed`, an iterator over the keys that went down in this
/// frame, and asks whether it yields any. It does unless there is no such key.
#[verifier::external_body]
pub(crate) fn any_just_pressed(keys: &ButtonInput<KeyCode>) -> (any: bool)
    ensures
        any == !just_pressed_keys(*keys).is_empty(),
{
    keys.get_just_pressed().next().is_some()
}

/// Calls `ButtonInput::pressed`, which looks the key up among those that are held down.
/// `key` stands for the code of the same name.
#[verifier::external_body]
fn pressed(keys: &ButtonInput<KeyCode>, key: ShiftKey) -> (held: bool)
    ensures
        held == held_shifts(*keys).contains(key),
{
    let code = match key {
        ShiftKey::ShiftLeft => KeyCode::ShiftLeft,
        ShiftKey::ShiftRight => KeyCode::ShiftRight,
    };
    keys.pressed(code)
}

/// Either Shift key is held down.
pub open spec fn shift_is_held(keys: ButtonInput<KeyCode>) -> bool {
    held_shifts(keys).contains(ShiftKey::ShiftLeft) || held_shifts(keys).contains(
        ShiftKey::ShiftRight,
    )
}

pub fn shift_held(keys: &ButtonInput<KeyCode>) -> (held: bool)
    ensures
        held == shift_is_held(*keys),
{
    pressed(keys, ShiftKey::ShiftLeft) || pressed(keys, ShiftKey::ShiftRight)
}

} // verus!
