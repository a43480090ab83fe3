//! Which key asks for what.

use vstd::prelude::*;

use crate::keys::{PhysicalKey, TermKey};

verus! {

/// Maximum inventory slots for the player.
pub const MAX_INVENTORY_SIZE: usize = 6;

/// What a key asks for.
#[derive(Clone, Copy, Debug, PartialEq, Eq, Structural)]
pub enum Command {
    /// Open the pause menu.
    OpenMenu,
    /// Move the cursor.
    Cursor { dx: i32, dy: i32 },
    /// Put the cursor on the player.
    CenterCursor,
    /// Move the cursor one step toward the nearest hostile.
    AutoAim,
    /// Walk one tile.
    Walk { dx: i32, dy: i32 },
    Wait,
    Reload,
    /// Kick everyone around.
    Roundhouse,
    ThrowSand,
    /// Throw whatever comes to hand.
    ThrowRandom,
    ToggleGodMode,
    /// Use the item in a slot, counted from zero.
    UseSlot { index: usize },
}

/// The command that a key is bound to.
pub open spec fn binding(key: TermKey) -> Option<Command> {
    match key {
        TermKey::Char('q') => Some(Command::OpenMenu),
        TermKey::Char('i') => Some(Command::Cursor { dx: 0, dy: 1 }),
        TermKey::Char('k') => Some(Command::Cursor { dx: 0, dy: (-1) as i32 }),
        TermKey::Char('j') => Some(Command::Cursor { dx: (-1) as i32, dy: 0 }),
        TermKey::Char('l') => Some(Command::Cursor { dx: 1, dy: 0 }),
        TermKey::Char('c') => Some(Command::CenterCursor),
        TermKey::Char('v') => Some(Command::AutoAim),
        TermKey::Char('w') | TermKey::Up => Some(Command::Walk { dx: 0, dy: 1 }),
        TermKey::Char('s') | TermKey::Down => Some(Command::Walk { dx: 0, dy: (-1) as i32 }),
        TermKey::Char('a') | TermKey::Left => Some(Command::Walk { dx: (-1) as i32, dy: 0 }),
        TermKey::Char('d') | TermKey::Right => Some(Command::Walk { dx: 1, dy: 0 }),
        TermKey::Char('t') => Some(Command::Wait),
        TermKey::Char('r') => Some(Command::Reload),
        TermKey::Char('f') => Some(Command::Roundhouse),
        TermKey::Char('g') => Some(Command::ThrowSand),
        TermKey::Char('e') => Some(Command::ThrowRandom),
        TermKey::Char('G') => Some(Command::ToggleGodMode),
        TermKey::Char(c) => if '1' as int <= c as int <= '6' as int {
            Some(Command::UseSlot { index: (c as int - '1' as int) as usize })
        } else {
            None
        },
        TermKey::Other => None,
    }
}

/// The command that a key gives: the menu can be opened at any time, everything else waits
/// for the player's turn.
pub open spec fn command_of(key: TermKey, awaiting: bool) -> Option<Command> {
    match binding(key) {
        Some(Command::OpenMenu) => Some(Command::OpenMenu),
        bound => if awaiting {
            bound
        } else {
            None
        },
    }
}

pub fn command_for(key: TermKey, awaiting: bool) -> (command: Option<Command>)
    ensures
        command == command_of(key, awaiting),
{
    match key {
        TermKey::Char('q') => Some(Command::OpenMenu),
        _ if !awaiting => None,
        TermKey::Char('i') => Some(Command::Cursor { dx: 0, dy: 1 }),
        TermKey::Char('k') => Some(Command::Cursor { dx: 0, dy: -1 }),
        TermKey::Char('j') => Some(Command::Cursor { dx: -1, dy: 0 }),
        TermKey::Char('l') => Some(Command::Cursor { dx: 1, dy: 0 }),
        TermKey::Char('c') => Some(Command::CenterCursor),
        TermKey::Char('v') => Some(Command::AutoAim),
        TermKey::Char('w') | TermKey::Up => Some(Command::Walk { dx: 0, dy: 1 }),
        TermKey::Char('s') | TermKey::Down => Some(Command::Walk { dx: 0, dy: -1 }),
        TermKey::Char('a') | TermKey::Left => Some(Command::Walk { dx: -1, dy: 0 }),
        TermKey::Char('d') | TermKey::Right => Some(Command::Walk { dx: 1, dy: 0 }),
        TermKey::Char('t') => Some(Command::Wait),
        TermKey::Char('r') => Some(Command::Reload),
        TermKey::Char('f') => Some(Command::Roundhouse),
        TermKey::Char('g') => Some(Command::ThrowSand),
        TermKey::Char('e') => Some(Command::ThrowRandom),
        TermKey::Char('G') => Some(Command::ToggleGodMode),
        TermKey::Char(c) => if '1' <= c && c <= '6' {
            Some(Command::UseSlot { index: c as usize - '1' as usize })
        } else {
            None
        },
        TermKey::Other => None,
    }
}

/// What a terminal reports when a physical key is hit. Shift matters for G alone.
pub open spec fn typed(key: PhysicalKey, shift: bool) -> TermKey {
    match key {
        PhysicalKey::KeyA => TermKey::Char('a'),
        PhysicalKey::KeyC => TermKey::Char('c'),
        PhysicalKey::KeyD => TermKey::Char('d'),
        PhysicalKey::KeyE => TermKey::Char('e'),
        PhysicalKey::KeyF => TermKey::Char('f'),
        PhysicalKey::KeyG => if shift {
            TermKey::Char('G')
        } else {
            TermKey::Char('g')
        },
        PhysicalKey::KeyI => TermKey::Char('i'),
        PhysicalKey::KeyJ => TermKey::Char('j'),
        PhysicalKey::KeyK => TermKey::Char('k'),
        PhysicalKey::KeyL => TermKey::Char('l'),
        PhysicalKey::KeyQ => TermKey::Char('q'),
        PhysicalKey::KeyR => TermKey::Char('r'),
        PhysicalKey::KeyS => TermKey::Char('s'),
        PhysicalKey::KeyT => TermKey::Char('t'),
        PhysicalKey::KeyV => TermKey::Char('v'),
        PhysicalKey::KeyW => TermKey::Char('w'),
        PhysicalKey::ArrowUp => TermKey::Up,
        PhysicalKey::ArrowDown => TermKey::Down,
        PhysicalKey::ArrowLeft => TermKey::Left,
        PhysicalKey::ArrowRight => TermKey::Right,
        PhysicalKey::Digit1 => TermKey::Char('1'),
        PhysicalKey::Digit2 => TermKey::Char('2'),
        PhysicalKey::Digit3 => TermKey::Char('3'),
        PhysicalKey::Digit4 => TermKey::Char('4'),
        PhysicalKey::Digit5 => TermKey::Char('5'),
        PhysicalKey::Digit6 => TermKey::Char('6'),
        PhysicalKey::Other => TermKey::Other,
    }
}

pub fn typed_key(key: PhysicalKey, shift: bool) -> (t: TermKey)
    ensures
        t == typed(key, shift),
{
    match key {
        PhysicalKey::KeyA => TermKey::Char('a'),
        PhysicalKey::KeyC => TermKey::Char('c'),
        PhysicalKey::KeyD => TermKey::Char('d'),
        PhysicalKey::KeyE => TermKey::Char('e'),
        PhysicalKey::KeyF => TermKey::Char('f'),
        PhysicalKey::KeyG => if shift {
            TermKey::Char('G')
        } else {
            TermKey::Char('g')
        },
        PhysicalKey::KeyI => TermKey::Char('i'),
        PhysicalKey::KeyJ => TermKey::Char('j'),
        PhysicalKey::KeyK => TermKey::Char('k'),
        PhysicalKey::KeyL => TermKey::Char('l'),
        PhysicalKey::KeyQ => TermKey::Char('q'),
        PhysicalKey::KeyR => TermKey::Char('r'),
        PhysicalKey::KeyS => TermKey::Char('s'),
        PhysicalKey::KeyT => TermKey::Char('t'),
        PhysicalKey::KeyV => TermKey::Char('v'),
        PhysicalKey::KeyW => TermKey::Char('w'),
        PhysicalKey::ArrowUp => TermKey::Up,
        PhysicalKey::ArrowDown => TermKey::Down,
        PhysicalKey::ArrowLeft => TermKey::Left,
        PhysicalKey::ArrowRight => TermKey::Right,
        PhysicalKey::Digit1 => TermKey::Char('1'),
        PhysicalKey::Digit2 => TermKey::Char('2'),
        PhysicalKey::Digit3 => TermKey::Char('3'),
        PhysicalKey::Digit4 => TermKey::Char('4'),
        PhysicalKey::Digit5 => TermKey::Char('5'),
        PhysicalKey::Digit6 => TermKey::Char('6'),
        PhysicalKey::Other => TermKey::Other,
    }
}

/// The keys that act on the player's turn, the one that is looked at first in front: where
/// several keys go down in one frame, the first of them counts.
pub open spec fn precedence() -> Seq<PhysicalKey> {
    seq![
        PhysicalKey::KeyI,
        PhysicalKey::KeyK,
        PhysicalKey::KeyJ,
        PhysicalKey::KeyL,
        PhysicalKey::KeyC,
        PhysicalKey::KeyV,
        PhysicalKey::KeyW,
        PhysicalKey::ArrowUp,
        PhysicalKey::KeyS,
        PhysicalKey::ArrowDown,
        PhysicalKey::KeyA,
        PhysicalKey::ArrowLeft,
        PhysicalKey::KeyD,
        PhysicalKey::ArrowRight,
        PhysicalKey::KeyT,
        PhysicalKey::KeyR,
        PhysicalKey::KeyF,
        PhysicalKey::KeyG,
        PhysicalKey::KeyE,
        PhysicalKey::Digit1,
        PhysicalKey::Digit2,
        PhysicalKey::Digit3,
        PhysicalKey::Digit4,
        PhysicalKey::Digit5,
        PhysicalKey::Digit6,
    ]
}

/// The list that [`precedence`] describes.
pub fn turn_keys() -> (keys: Vec<PhysicalKey>)
    ensures
        keys@ == precedence(),
{
    vec![
        PhysicalKey::KeyI,
        PhysicalKey::KeyK,
        PhysicalKey::KeyJ,
        PhysicalKey::KeyL,
        PhysicalKey::KeyC,
        PhysicalKey::KeyV,
        PhysicalKey::KeyW,
        PhysicalKey::ArrowUp,
        PhysicalKey::KeyS,
        PhysicalKey::ArrowDown,
        PhysicalKey::KeyA,
        PhysicalKey::ArrowLeft,
        PhysicalKey::KeyD,
        PhysicalKey::ArrowRight,
        PhysicalKey::KeyT,
        PhysicalKey::KeyR,
        PhysicalKey::KeyF,
        PhysicalKey::KeyG,
        PhysicalKey::KeyE,
        PhysicalKey::Digit1,
        PhysicalKey::Digit2,
        PhysicalKey::Digit3,
        PhysicalKey::Digit4,
        PhysicalKey::Digit5,
        PhysicalKey::Digit6,
    ]
}

/// `i` is the place in [`precedence`] of the key that counts among those of `just`.
pub open spec fn counts(just: Set<PhysicalKey>, i: int) -> bool {
    &&& 0 <= i < precedence().len()
    &&& just.contains(precedence()[i])
    &&& forall|j: int| 0 <= j < i ==> !just.contains(#[trigger] precedence()[j])
}

/// The command that the keys of one frame give in a window.
pub open spec fn windowed_command(
    just: Set<PhysicalKey>,
    shift: bool,
    awaiting: bool,
) -> Option<Command> {
    if just.contains(PhysicalKey::KeyQ) {
        Some(Command::OpenMenu)
    } else if awaiting && exists|i: int| counts(just, i) {
        binding(typed(precedence()[choose|i: int| counts(just, i)], shift))
    } else {
        None
    }
}

} // verus!
