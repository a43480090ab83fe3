//! Turns key presses into changes of the game.

use bevy::input::keyboard::KeyCode;
use bevy::input::ButtonInput;
use vstd::prelude::*;

use crate::actions::{advance_turn, command_fits, perform};
use crate::commands::{
    command_for, counts, precedence, turn_keys, typed_key, windowed_command, Command,
};
use crate::keys::{
    any_just_pressed, just_pressed, just_pressed_keys, shift_held, shift_is_held, PhysicalKey,
    TermKey,
};
use crate::rules::{
    accepts, after_death, after_end, after_input, after_key, after_keys, after_menu_keys,
    after_windowed_input, input_fits, key_fits, keys_fit, windowed_input_fits,
};
use crate::state::{
    Frame, GameState, InputMode, InputModel, InputWorld, NextTurn, Player, TurnState,
};

verus! {

/// Whether the character `c` was typed.
fn typed_char(keys: &Vec<TermKey>, c: char) -> (found: bool)
    ensures
        found == keys@.contains(TermKey::Char(c)),
{
    let mut n: usize = 0;
    while n < keys.len()
        invariant
            n <= keys@.len(),
            forall|i: int| 0 <= i < n ==> #[trigger] keys@[i] != TermKey::Char(c),
        decreases keys@.len() - n,
    {
        if let TermKey::Char(t) = keys[n] {
            if t == c {
                assert(keys@[n as int] == TermKey::Char(c));
                return true;
            }
        }
        n = n + 1;
    }
    false
}

/// Handles the death and victory screens.
fn handle_end(world: &mut InputWorld, restart: bool, quit: bool)
    ensures
        final(world)@ == after_end(old(world)@, restart, quit),
{
    if restart {
        world.restart_requested = true;
    }
    if quit {
        world.exit_requested = true;
    }
}

/// Handles the keys of a dead player.
fn handle_death(frame: &Frame, world: &mut InputWorld, restart: bool)
    ensures
        final(world)@ == after_death(*frame, old(world)@, restart),
{
    handle_end(world, restart, false);
    if frame.spectating && frame.awaiting_input() {
        advance_turn(world);
    }
}

/// Handles the keys that reach the menu.
fn handle_menu(frame: &Frame, world: &mut InputWorld, resume: bool, restart: bool)
    ensures
        final(world)@ == after_menu_keys(*frame, old(world)@, resume, restart),
{
    if resume {
        world.input_state.mode = InputMode::Game;
        if frame.game_state == GameState::Paused {
            world.next_game_state = Some(GameState::Playing);
        }
    }
    if restart {
        world.input_state.mode = InputMode::Game;
        world.restart_requested = true;
    }
}

/// Whether the game takes input: it awaits some, and no earlier key has taken the turn.
fn accepts_input(frame: &Frame, world: &InputWorld) -> (b: bool)
    ensures
        b == accepts(*frame, world@),
{
    frame.awaiting_input() && world.next_turn_state != NextTurn::Pending(TurnState::PlayerTurn)
}

/// Handles one key that reaches the game.
pub fn handle_key(frame: &Frame, player: &Player, world: &mut InputWorld, key: TermKey)
    requires
        key_fits(*frame, *player, old(world)@, key),
    ensures
        final(world)@ == after_key(*frame, *player, old(world)@, key),
{
    if world.input_state.welcome_visible {
        world.input_state.welcome_visible = false;
        return;
    }
    if let Some(command) = command_for(key, accepts_input(frame, world)) {
        perform(frame, player, world, command);
    }
}

/// The beginning of keys that fit does too.
proof fn lemma_keys_fit_take(
    frame: Frame,
    player: Player,
    m: InputModel,
    keys: Seq<TermKey>,
    n: int,
)
    requires
        0 <= n <= keys.len(),
        keys_fit(frame, player, m, keys),
    ensures
        keys_fit(frame, player, m, keys.take(n)),
    decreases keys.len(),
{
    if n == keys.len() {
        assert(keys.take(n) =~= keys);
    } else {
        lemma_keys_fit_take(frame, player, m, keys.drop_last(), n);
        assert(keys.drop_last().take(n) =~= keys.take(n));
    }
}

/// Handles the key presses that a terminal reported in one frame, the oldest first.
///
/// Opening the menu is possible at any time. Everything else in the game is only processed
/// while it awaits input. A key that takes the player's turn queues `PlayerTurn`, and the keys
/// behind it do not act any more, so that the action is resolved before the next input is
/// accepted. Once the game is over only quit (Q) and restart (R) work, and for a dead player
/// only restart.
pub fn input_system(frame: &Frame, world: &mut InputWorld, keys: &Vec<TermKey>)
    requires
        input_fits(*frame, old(world)@, keys@),
    ensures
        final(world)@ == after_input(*frame, old(world)@, keys@),
{
    if frame.over() {
        handle_end(world, typed_char(keys, 'r'), typed_char(keys, 'q'));
        return;
    }
    match &frame.player {
        None => {},
        Some(player) => {
            if player.dead {
                handle_death(frame, world, typed_char(keys, 'r'));
            } else if world.input_state.mode == InputMode::EscMenu {
                handle_menu(frame, world, typed_char(keys, 'q'), typed_char(keys, 'r'));
            } else {
                let ghost before = world@;
                let mut n: usize = 0;
                while n < keys.len()
                    invariant
                        n <= keys@.len(),
                        keys_fit(*frame, *player, before, keys@),
                        world@ == after_keys(*frame, *player, before, keys@.take(n as int)),
                    decreases keys@.len() - n,
                {
                    proof {
                        lemma_keys_fit_take(*frame, *player, before, keys@, n + 1);
                        assert(keys@.take(n + 1).drop_last() =~= keys@.take(n as int));
                    }
                    handle_key(frame, player, world, keys[n]);
                    n = n + 1;
                }
                assert(keys@.take(n as int) =~= keys@);
            }
        },
    }
}

/// The command that the keys of this frame give in a window.
fn pressed_command(keys: &ButtonInput<KeyCode>, awaiting: bool) -> (command: Option<Command>)
    ensures
        command == windowed_command(just_pressed_keys(*keys), shift_is_held(*keys), awaiting),
{
    if just_pressed(keys, PhysicalKey::KeyQ) {
        return Some(Command::OpenMenu);
    }
    if !awaiting {
        return None;
    }
    let order = turn_keys();
    let ghost just = just_pressed_keys(*keys);
    let mut n: usize = 0;
    while n < order.len()
        invariant
            n <= order@.len(),
            order@ == precedence(),
            just == just_pressed_keys(*keys),
            awaiting,
            !just.contains(PhysicalKey::KeyQ),
            forall|i: int| 0 <= i < n ==> !just.contains(#[trigger] precedence()[i]),
        decreases order@.len() - n,
    {
        if just_pressed(keys, order[n]) {
            proof {
                assert(counts(just, n as int));
                let chosen = choose|i: int| counts(just, i);
                assert(counts(just, chosen));
                assert(chosen == n);
            }
            return command_for(typed_key(order[n], shift_held(keys)), true);
        }
        n = n + 1;
    }
    None
}

/// Handles the keys that a window reported in one frame. Mirrors [`input_system`]; where
/// several keys went down at once, one of them counts.
pub fn input_system_windowed(frame: &Frame, world: &mut InputWorld, keys: &ButtonInput<KeyCode>)
    requires
        windowed_input_fits(*frame, old(world)@, just_pressed_keys(*keys), shift_is_held(*keys)),
    ensures
        final(world)@ == after_windowed_input(
            *frame,
            old(world)@,
            just_pressed_keys(*keys),
            shift_is_held(*keys),
        ),
{
    if frame.over() {
        let restart = just_pressed(keys, PhysicalKey::KeyR);
        let quit = just_pressed(keys, PhysicalKey::KeyQ);
        handle_end(world, restart, quit);
        return;
    }
    match &frame.player {
        None => {},
        Some(player) => {
            if player.dead {
                handle_death(frame, world, just_pressed(keys, PhysicalKey::KeyR));
            } else if world.input_state.mode == InputMode::EscMenu {
                let resume = just_pressed(keys, PhysicalKey::KeyQ);
                let restart = !resume && just_pressed(keys, PhysicalKey::KeyR);
                handle_menu(frame, world, resume, restart);
            } else if world.input_state.welcome_visible && any_just_pressed(keys) {
                world.input_state.welcome_visible = false;
            } else {
                if let Some(command) = pressed_command(keys, accepts_input(frame, world)) {
                    perform(frame, player, world, command);
                }
            }
        },
    }
}

/// Handles one key that reaches the game, if that is possible.
pub fn try_key(frame: &Frame, player: &Player, world: &mut InputWorld, key: TermKey) -> (ok: bool)
    ensures
        ok == key_fits(*frame, *player, old(world)@, key),
        ok ==> final(world)@ == after_key(*frame, *player, old(world)@, key),
        !ok ==> final(world)@ == old(world)@,
{
    if !world.input_state.welcome_visible {
        if let Some(command) = command_for(key, accepts_input(frame, world)) {
            if !command_fits(frame, player, world, command) {
                return false;
            }
        }
    }
    handle_key(frame, player, world, key);
    true
}

/// [`input_system`] for keys that may lead out of the limits: it stops in front of the first
/// key that does.
pub fn try_input_system(frame: &Frame, world: &mut InputWorld, keys: &Vec<TermKey>) -> (ok: bool)
    ensures
        ok == input_fits(*frame, old(world)@, keys@),
        ok ==> final(world)@ == after_input(*frame, old(world)@, keys@),
        !ok ==> exists|n: int|
            {
                &&& 0 <= n < keys@.len()
                &&& input_fits(*frame, old(world)@, #[trigger] keys@.take(n))
                &&& !input_fits(*frame, old(world)@, keys@.take(n + 1))
                &&& final(world)@ == after_input(*frame, old(world)@, keys@.take(n))
            },
{
    if frame.over() || world.input_state.mode == InputMode::EscMenu {
        input_system(frame, world, keys);
        return true;
    }
    match &frame.player {
        None => true,
        Some(player) => {
            if player.dead {
                input_system(frame, world, keys);
                return true;
            }
            let ghost before = world@;
            let mut n: usize = 0;
            while n < keys.len()
                invariant
                    n <= keys@.len(),
                    frame.player == Some(*player),
                    !player.dead,
                    !frame.is_over(),
                    before == old(world)@,
                    before.input_state.mode == InputMode::Game,
                    keys_fit(*frame, *player, before, keys@.take(n as int)),
                    world@ == after_keys(*frame, *player, before, keys@.take(n as int)),
                decreases keys@.len() - n,
            {
                assert(keys@.take(n + 1).drop_last() =~= keys@.take(n as int));
                if !try_key(frame, player, world, keys[n]) {
                    proof {
                        if keys_fit(*frame, *player, before, keys@) {
                            lemma_keys_fit_take(*frame, *player, before, keys@, n + 1);
                        }
                    }
                    return false;
                }
                n = n + 1;
            }
            assert(keys@.take(n as int) =~= keys@);
            true
        },
    }
}

/// Whether the keys of this frame stay within the limits in a window.
pub fn windowed_fits(frame: &Frame, world: &InputWorld, keys: &ButtonInput<KeyCode>) -> (b: bool)
    ensures
        b == windowed_input_fits(
            *frame,
            world@,
            just_pressed_keys(*keys),
            shift_is_held(*keys),
        ),
{
    if frame.over() || world.input_state.mode == InputMode::EscMenu {
        return true;
    }
    if world.input_state.welcome_visible && any_just_pressed(keys) {
        return true;
    }
    match &frame.player {
        Some(player) => if player.dead {
            true
        } else {
            match pressed_command(keys, accepts_input(frame, world)) {
                Some(command) => command_fits(frame, player, world, command),
                None => true,
            }
        },
        None => true,
    }
}

/// [`input_system_windowed`] for keys that may lead out of the limits: those change nothing.
pub fn try_input_system_windowed(
    frame: &Frame,
    world: &mut InputWorld,
    keys: &ButtonInput<KeyCode>,
) -> (ok: bool)
    ensures
        ok == windowed_input_fits(
            *frame,
            old(world)@,
            just_pressed_keys(*keys),
            shift_is_held(*keys),
        ),
        ok ==> final(world)@ == after_windowed_input(
            *frame,
            old(world)@,
            just_pressed_keys(*keys),
            shift_is_held(*keys),
        ),
        !ok ==> final(world)@ == old(world)@,
{
    if windowed_fits(frame, world, keys) {
        input_system_windowed(frame, world, keys);
        true
    } else {
        false
    }
}

} // verus!
