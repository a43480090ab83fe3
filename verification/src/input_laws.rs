//! What holds of the input phase as a whole.

use vstd::prelude::*;

use crate::command_laws::keys_can_be_split;
use crate::commands::{binding, command_of, counts, precedence, typed, windowed_command, Command};
use crate::intents::continues;
use crate::keys::{PhysicalKey, TermKey};
use crate::rules::{
    accepts, after, after_input, after_key, after_keys, after_random_throw, after_roundhouse, after_sand,
    after_slot, after_throw_command, after_windowed_input, fits, input_fits, key_fits, keys_fit,
    windowed_input_fits, THROW_ITEM_STAMINA_COST,
};
use crate::state::{
    Frame, GameState, InputMode, InputModel, InputState, NextTurn, Player, TurnState,
};

verus! {

/// Where a bound key goes down alone, it is the one that counts.
proof fn lemma_only_key_counts(key: PhysicalKey)
    requires
        key != PhysicalKey::KeyQ,
        key != PhysicalKey::Other,
    ensures
        exists|i: int| counts(set![key], i),
        forall|i: int| counts(set![key], i) ==> precedence()[i] == key,
{
    let place: int = match key {
        PhysicalKey::KeyI => 0,
        PhysicalKey::KeyK => 1,
        PhysicalKey::KeyJ => 2,
        PhysicalKey::KeyL => 3,
        PhysicalKey::KeyC => 4,
        PhysicalKey::KeyV => 5,
        PhysicalKey::KeyW => 6,
        PhysicalKey::ArrowUp => 7,
        PhysicalKey::KeyS => 8,
        PhysicalKey::ArrowDown => 9,
        PhysicalKey::KeyA => 10,
        PhysicalKey::ArrowLeft => 11,
        PhysicalKey::KeyD => 12,
        PhysicalKey::ArrowRight => 13,
        PhysicalKey::KeyT => 14,
        PhysicalKey::KeyR => 15,
        PhysicalKey::KeyF => 16,
        PhysicalKey::KeyG => 17,
        PhysicalKey::KeyE => 18,
        PhysicalKey::Digit1 => 19,
        PhysicalKey::Digit2 => 20,
        PhysicalKey::Digit3 => 21,
        PhysicalKey::Digit4 => 22,
        PhysicalKey::Digit5 => 23,
        _ => 24,
    };
    assert(precedence()[place] == key);
    assert(counts(set![key], place));
}

/// A single key gives the same command in a window as in a terminal.
proof fn lemma_same_command(key: PhysicalKey, shift: bool, awaiting: bool)
    ensures
        windowed_command(set![key], shift, awaiting) == command_of(typed(key, shift), awaiting),
{
    let just = set![key];
    if key == PhysicalKey::KeyQ {
    } else if key == PhysicalKey::Other {
        assert(forall|i: int|
            0 <= i < precedence().len() ==> #[trigger] precedence()[i] != PhysicalKey::Other);
        assert(forall|i: int| !counts(just, i));
    } else {
        lemma_only_key_counts(key);
        assert(binding(typed(key, shift)) != Some(Command::OpenMenu));
        let chosen = choose|i: int| counts(just, i);
        assert(precedence()[chosen] == key);
    }
}

/// What is among the keys where there is only one.
proof fn lemma_single_key(key: PhysicalKey, shift: bool)
    ensures
        !set![key].is_empty(),
        seq![typed(key, shift)].contains(TermKey::Char('r')) == set![key].contains(
            PhysicalKey::KeyR,
        ),
        seq![typed(key, shift)].contains(TermKey::Char('q')) == set![key].contains(
            PhysicalKey::KeyQ,
        ),
{
    let just = set![key];
    let keys = seq![typed(key, shift)];
    assert(just.contains(key));
    assert(keys[0] == typed(key, shift));
}

/// Typing a single key.
proof fn lemma_one_key(frame: Frame, player: Player, m: InputModel, key: TermKey)
    ensures
        after_keys(frame, player, m, seq![key]) == after_key(frame, player, m, key),
        keys_fit(frame, player, m, seq![key]) == key_fits(frame, player, m, key),
{
    let keys = seq![key];
    assert(keys.drop_last() =~= Seq::<TermKey>::empty());
    assert(after_keys(frame, player, m, keys.drop_last()) == m);
    assert(keys_fit(frame, player, m, keys.drop_last()));
}

/// The window mirrors the terminal: a single key that goes down does what typing it does, and
/// is possible where typing it is.
pub proof fn windowed_mirrors_terminal(
    frame: Frame,
    m: InputModel,
    key: PhysicalKey,
    shift: bool,
)
    ensures
        after_windowed_input(frame, m, set![key], shift) == after_input(
            frame,
            m,
            seq![typed(key, shift)],
        ),
        windowed_input_fits(frame, m, set![key], shift) == input_fits(
            frame,
            m,
            seq![typed(key, shift)],
        ),
{
    lemma_single_key(key, shift);
    if !frame.is_over() && m.input_state.mode == InputMode::Game {
        if let Some(player) = frame.player {
            if !player.dead {
                lemma_game_mirrors(frame, player, m, key, shift);
            }
        }
    }
}

/// The window mirrors the terminal where keys reach the game.
proof fn lemma_game_mirrors(
    frame: Frame,
    player: Player,
    m: InputModel,
    key: PhysicalKey,
    shift: bool,
)
    requires
        !frame.is_over(),
        frame.player == Some(player),
        !player.dead,
        m.input_state.mode == InputMode::Game,
    ensures
        after_windowed_input(frame, m, set![key], shift) == after_input(
            frame,
            m,
            seq![typed(key, shift)],
        ),
        windowed_input_fits(frame, m, set![key], shift) == input_fits(
            frame,
            m,
            seq![typed(key, shift)],
        ),
{
    assert(set![key].contains(key));
    lemma_same_command(key, shift, accepts(frame, m));
    lemma_one_key(frame, player, m, typed(key, shift));
}

/// Where a key of [`precedence`] goes down, some key counts.
proof fn lemma_some_key_counts(just: Set<PhysicalKey>, i: int)
    requires
        0 <= i < precedence().len(),
        just.contains(precedence()[i]),
    ensures
        exists|k: int| counts(just, k),
    decreases i,
{
    if exists|j: int| 0 <= j < i && just.contains(#[trigger] precedence()[j]) {
        let j = choose|j: int| 0 <= j < i && just.contains(#[trigger] precedence()[j]);
        lemma_some_key_counts(just, j);
    } else {
        assert(counts(just, i));
    }
}

/// The key among `just` whose command is carried out in the game.
proof fn lemma_key_that_counts(
    just: Set<PhysicalKey>,
    shift: bool,
    awaiting: bool,
    any: PhysicalKey,
) -> (key: PhysicalKey)
    requires
        just.contains(any),
    ensures
        just.contains(key),
        windowed_command(just, shift, awaiting) == windowed_command(set![key], shift, awaiting),
{
    if just.contains(PhysicalKey::KeyQ) {
        PhysicalKey::KeyQ
    } else if awaiting && exists|i: int| counts(just, i) {
        let i = choose|i: int| counts(just, i);
        let key = precedence()[i];
        assert(counts(just, i));
        assert(key != PhysicalKey::KeyQ);
        assert(key != PhysicalKey::Other);
        lemma_only_key_counts(key);
        key
    } else {
        if awaiting && any != PhysicalKey::Other {
            lemma_only_key_counts(any);
            let i = choose|i: int| counts(set![any], i);
            assert(counts(set![any], i));
            lemma_some_key_counts(just, i);
        }
        lemma_same_command(any, shift, awaiting);
        any
    }
}

/// Where several keys go down in a window at once, one of them does what it does alone, and
/// the others do nothing. Only once the game is over do Q and R act side by side.
pub proof fn one_key_counts(
    frame: Frame,
    m: InputModel,
    just: Set<PhysicalKey>,
    shift: bool,
)
    requires
        !just.is_empty(),
        !(frame.is_over() && just.contains(PhysicalKey::KeyQ) && just.contains(PhysicalKey::KeyR)),
    ensures
        exists|key: PhysicalKey| #[trigger]
            just.contains(key) && after_windowed_input(frame, m, just, shift)
                == after_windowed_input(frame, m, set![key], shift),
{
    let any = just.choose();
    assert(just.contains(any));
    lemma_single_key(any, shift);
    if frame.is_over() {
        let key = if just.contains(PhysicalKey::KeyR) {
            PhysicalKey::KeyR
        } else if just.contains(PhysicalKey::KeyQ) {
            PhysicalKey::KeyQ
        } else {
            any
        };
        assert(just.contains(key));
        assert(set![key].contains(PhysicalKey::KeyR) == just.contains(PhysicalKey::KeyR));
        assert(set![key].contains(PhysicalKey::KeyQ) == just.contains(PhysicalKey::KeyQ));
    } else if frame.player is None || frame.player.unwrap().dead {
        let key = if just.contains(PhysicalKey::KeyR) {
            PhysicalKey::KeyR
        } else {
            any
        };
        assert(just.contains(key));
        assert(set![key].contains(PhysicalKey::KeyR) == just.contains(PhysicalKey::KeyR));
    } else if m.input_state.mode == InputMode::EscMenu {
        let key = if just.contains(PhysicalKey::KeyQ) {
            PhysicalKey::KeyQ
        } else if just.contains(PhysicalKey::KeyR) {
            PhysicalKey::KeyR
        } else {
            any
        };
        assert(just.contains(key));
        assert(set![key].contains(PhysicalKey::KeyQ) == just.contains(PhysicalKey::KeyQ));
    } else {
        let key = lemma_key_that_counts(just, shift, accepts(frame, m), any);
        lemma_single_key(key, shift);
        assert(just.contains(key));
    }
}

/// Where no key goes down, nothing happens, unless the world goes on for a spectator.
pub proof fn no_key_does_nothing(frame: Frame, m: InputModel, shift: bool)
    ensures
        after_windowed_input(frame, m, Set::empty(), shift) == after_input(frame, m, Seq::empty()),
        !frame.spectating ==> after_input(frame, m, Seq::empty()) == m,
{
    let none = Set::<PhysicalKey>::empty();
    assert(none.is_empty());
    assert(forall|i: int| !counts(none, i));
}

/// Once the game is lost or won only R and Q do anything, and all they do is to ask for a new
/// game and for the end of the program, in a terminal as in a window.
pub proof fn over_only_restarts_or_quits(
    frame: Frame,
    m: InputModel,
    keys: Seq<TermKey>,
    just: Set<PhysicalKey>,
    shift: bool,
)
    requires
        frame.game_state == GameState::Dead || frame.game_state == GameState::Victory,
    ensures
        input_fits(frame, m, keys),
        windowed_input_fits(frame, m, just, shift),
        after_input(frame, m, keys) == (InputModel {
            restart_requested: m.restart_requested || keys.contains(TermKey::Char('r')),
            exit_requested: m.exit_requested || keys.contains(TermKey::Char('q')),
            ..m
        }),
        after_windowed_input(frame, m, just, shift) == (InputModel {
            restart_requested: m.restart_requested || just.contains(PhysicalKey::KeyR),
            exit_requested: m.exit_requested || just.contains(PhysicalKey::KeyQ),
            ..m
        }),
{
}

/// A dead player can ask for a new game and for nothing else; turns go on by themselves if
/// and only if the player watches and a turn is due.
pub proof fn dead_player_only_restarts(
    frame: Frame,
    m: InputModel,
    keys: Seq<TermKey>,
    just: Set<PhysicalKey>,
    shift: bool,
)
    requires
        frame.player matches Some(player) && player.dead,
        frame.game_state == GameState::Playing || frame.game_state == GameState::Paused,
    ensures
        input_fits(frame, m, keys),
        windowed_input_fits(frame, m, just, shift),
        after_input(frame, m, keys) == (InputModel {
            restart_requested: m.restart_requested || keys.contains(TermKey::Char('r')),
            next_turn_state: if frame.spectating && frame.turn_state == Some(
                TurnState::AwaitingInput,
            ) && m.next_turn_state != NextTurn::Absent {
                NextTurn::Pending(TurnState::PlayerTurn)
            } else {
                m.next_turn_state
            },
            ..m
        }),
        after_windowed_input(frame, m, just, shift) == (InputModel {
            restart_requested: m.restart_requested || just.contains(PhysicalKey::KeyR),
            next_turn_state: if frame.spectating && frame.turn_state == Some(
                TurnState::AwaitingInput,
            ) && m.next_turn_state != NextTurn::Absent {
                NextTurn::Pending(TurnState::PlayerTurn)
            } else {
                m.next_turn_state
            },
            ..m
        }),
{
}

/// `later` differs from `m` at most in who has the keyboard, in the welcome screen and in the
/// queued change of game state.
pub open spec fn same_game(m: InputModel, later: InputModel) -> bool {
    later == InputModel {
        input_state: InputState {
            mode: later.input_state.mode,
            welcome_visible: later.input_state.welcome_visible,
            ..m.input_state
        },
        next_game_state: later.next_game_state,
        ..m
    }
}

/// While the game does not accept input, no key acts on it: what the player of a running game
/// types can send the welcome screen away and open the menu, and no more.
pub proof fn keys_wait_for_the_turn(
    frame: Frame,
    player: Player,
    m: InputModel,
    keys: Seq<TermKey>,
)
    requires
        !accepts(frame, m),
    ensures
        same_game(m, after_keys(frame, player, m, keys)),
    decreases keys.len(),
{
    if keys.len() > 0 {
        keys_wait_for_the_turn(frame, player, m, keys.drop_last());
    }
}

/// The same of a window.
pub proof fn windowed_keys_wait_for_the_turn(
    frame: Frame,
    m: InputModel,
    just: Set<PhysicalKey>,
    shift: bool,
)
    requires
        !accepts(frame, m),
        !frame.is_over(),
        frame.player matches Some(player) ==> !player.dead,
        m.input_state.mode == InputMode::Game,
    ensures
        same_game(m, after_windowed_input(frame, m, just, shift)),
{
}

/// Once a key has taken the turn, the keys behind it in the same frame do not act: an action is
/// resolved before the next input is accepted.
pub proof fn one_action_at_a_time(
    frame: Frame,
    player: Player,
    m: InputModel,
    first: Seq<TermKey>,
    second: Seq<TermKey>,
)
    requires
        after_keys(frame, player, m, first).next_turn_state == NextTurn::Pending(
            TurnState::PlayerTurn,
        ),
    ensures
        same_game(
            after_keys(frame, player, m, first),
            after_keys(frame, player, m, first + second),
        ),
{
    keys_can_be_split(frame, player, m, first, second);
    keys_wait_for_the_turn(frame, player, after_keys(frame, player, m, first), second);
}

/// The turn state is about to become `PlayerTurn`, or there is none.
pub open spec fn turn_is_taken(m: InputModel) -> bool {
    m.next_turn_state == NextTurn::Absent || m.next_turn_state == NextTurn::Pending(
        TurnState::PlayerTurn,
    )
}

/// From `m` to `later` nothing that was queued or logged is lost or reordered, at most `n`
/// intents are added, and where any is, the player's turn is taken. A turn state neither
/// appears nor disappears.
pub open spec fn only_adds(m: InputModel, later: InputModel, n: nat) -> bool {
    &&& m.intents.begins(later.intents)
    &&& continues(m.combat_log, later.combat_log)
    &&& m.intents.count() <= later.intents.count() <= m.intents.count() + n
    &&& later.intents.count() > m.intents.count() ==> turn_is_taken(later)
    &&& turn_is_taken(m) ==> turn_is_taken(later)
    &&& m.next_turn_state == NextTurn::Absent <==> later.next_turn_state == NextTurn::Absent
}

proof fn lemma_only_adds_chains(a: InputModel, b: InputModel, c: InputModel, n: nat, k: nat)
    requires
        only_adds(a, b, n),
        only_adds(b, c, k),
    ensures
        only_adds(a, c, n + k),
{
}

/// A command queues at most one intent, and then it takes the player's turn.
pub proof fn command_adds_one_intent(frame: Frame, player: Player, m: InputModel, command: Command)
    ensures
        only_adds(m, after(frame, player, m, command), 1),
{
    match command {
        Command::ThrowRandom => {
            lemma_random_throw_adds_one(frame, player, m);
        },
        Command::UseSlot { index } => {
            lemma_slot_adds_one(frame, player, m, index);
        },
        Command::ThrowSand => {
            lemma_sand_adds_one(player, m);
        },
        Command::Roundhouse => {
            assert(only_adds(m, after_roundhouse(player, m), 1));
        },
        _ => {},
    }
}

proof fn lemma_sand_adds_one(player: Player, m: InputModel)
    ensures
        only_adds(m, after_sand(player, m), 1),
{
}

proof fn lemma_random_throw_adds_one(frame: Frame, player: Player, m: InputModel)
    ensures
        only_adds(m, after_throw_command(frame, player, m), 1),
{
    let paid = m.taking_stamina(THROW_ITEM_STAMINA_COST);
    assert(only_adds(paid, after_random_throw(frame, player, paid), 1));
}

proof fn lemma_slot_adds_one(frame: Frame, player: Player, m: InputModel, index: usize)
    ensures
        only_adds(m, after_slot(frame, player, m, index), 1),
{
}

/// No key press loses or reorders what earlier ones queued or logged. The keys of a frame queue
/// at most one intent, and where they do, the player's turn is taken, so that it is carried
/// out before the next input is accepted. Without a turn state there are no turns to take, and
/// every key may queue one.
pub proof fn input_only_adds(frame: Frame, m: InputModel, keys: Seq<TermKey>)
    ensures
        m.next_turn_state != NextTurn::Absent ==> only_adds(m, after_input(frame, m, keys), 1),
        only_adds(m, after_input(frame, m, keys), keys.len()),
{
    if let Some(player) = frame.player {
        lemma_keys_only_add(frame, player, m, keys);
    }
}

proof fn lemma_keys_only_add(frame: Frame, player: Player, m: InputModel, keys: Seq<TermKey>)
    ensures
        m.next_turn_state != NextTurn::Absent ==> only_adds(
            m,
            after_keys(frame, player, m, keys),
            1,
        ),
        only_adds(m, after_keys(frame, player, m, keys), keys.len()),
    decreases keys.len(),
{
    if keys.len() > 0 {
        let before = after_keys(frame, player, m, keys.drop_last());
        lemma_keys_only_add(frame, player, m, keys.drop_last());
        let later = after_key(frame, player, before, keys.last());
        assert(only_adds(before, later, 1)) by {
            if let Some(command) = command_of(keys.last(), accepts(frame, before)) {
                command_adds_one_intent(frame, player, before, command);
            }
        }
        lemma_only_adds_chains(m, before, later, (keys.len() - 1) as nat, 1);
        if m.next_turn_state != NextTurn::Absent {
            if before.intents.count() > m.intents.count() {
                assert(!accepts(frame, before));
                assert(only_adds(before, later, 0));
                lemma_only_adds_chains(m, before, later, 1, 0);
            } else {
                lemma_only_adds_chains(m, before, later, 0, 1);
            }
        }
    }
}

/// The same of the keys that go down in a window, of which one counts.
pub proof fn windowed_input_only_adds(
    frame: Frame,
    m: InputModel,
    just: Set<PhysicalKey>,
    shift: bool,
)
    ensures
        only_adds(m, after_windowed_input(frame, m, just, shift), 1),
{
    if let Some(player) = frame.player {
        if let Some(command) = windowed_command(just, shift, accepts(frame, m)) {
            command_adds_one_intent(frame, player, m, command);
        }
    }
}

/// `key` asks for `command`.
pub open spec fn asks_for(key: TermKey, command: Command) -> bool {
    match command {
        Command::OpenMenu => key == TermKey::Char('q'),
        Command::Cursor { dx, dy } => {
            ||| key == TermKey::Char('i') && dx == 0 && dy == 1
            ||| key == TermKey::Char('k') && dx == 0 && dy == -1
            ||| key == TermKey::Char('j') && dx == -1 && dy == 0
            ||| key == TermKey::Char('l') && dx == 1 && dy == 0
        },
        Command::CenterCursor => key == TermKey::Char('c'),
        Command::AutoAim => key == TermKey::Char('v'),
        Command::Walk { dx, dy } => {
            ||| (key == TermKey::Char('w') || key == TermKey::Up) && dx == 0 && dy == 1
            ||| (key == TermKey::Char('s') || key == TermKey::Down) && dx == 0 && dy == -1
            ||| (key == TermKey::Char('a') || key == TermKey::Left) && dx == -1 && dy == 0
            ||| (key == TermKey::Char('d') || key == TermKey::Right) && dx == 1 && dy == 0
        },
        Command::Wait => key == TermKey::Char('t'),
        Command::Reload => key == TermKey::Char('r'),
        Command::Roundhouse => key == TermKey::Char('f'),
        Command::ThrowSand => key == TermKey::Char('g'),
        Command::ThrowRandom => key == TermKey::Char('e'),
        Command::ToggleGodMode => key == TermKey::Char('G'),
        Command::UseSlot { index } => {
            ||| key == TermKey::Char('1') && index == 0
            ||| key == TermKey::Char('2') && index == 1
            ||| key == TermKey::Char('3') && index == 2
            ||| key == TermKey::Char('4') && index == 3
            ||| key == TermKey::Char('5') && index == 4
            ||| key == TermKey::Char('6') && index == 5
        },
    }
}

/// A key gives the command that it asks for, and no other; only the menu does not wait for the
/// player's turn.
pub proof fn keys_give_what_they_ask_for(key: TermKey, command: Command, awaiting: bool)
    ensures
        command_of(key, awaiting) == Some(command) <==> asks_for(key, command) && (awaiting
            || command == Command::OpenMenu),
{
}

/// The player can act: the game awaits input, and the turn is not taken yet.
pub open spec fn can_act(frame: Frame, m: InputModel) -> bool {
    frame.turn_state == Some(TurnState::AwaitingInput) && m.next_turn_state != NextTurn::Pending(
        TurnState::PlayerTurn,
    )
}

/// Without a welcome screen a key does what its command does, where the player can act or asks
/// for the menu, and else nothing.
pub proof fn keys_do_what_they_ask_for(
    frame: Frame,
    player: Player,
    m: InputModel,
    key: TermKey,
    command: Command,
)
    requires
        !m.input_state.welcome_visible,
        asks_for(key, command),
    ensures
        can_act(frame, m) || command == Command::OpenMenu ==> {
            &&& after_key(frame, player, m, key) == after(frame, player, m, command)
            &&& key_fits(frame, player, m, key) == fits(frame, player, m, command)
        },
        !can_act(frame, m) && command != Command::OpenMenu ==> {
            &&& after_key(frame, player, m, key) == m
            &&& key_fits(frame, player, m, key)
        },
{
    keys_give_what_they_ask_for(key, command, can_act(frame, m));
    keys_give_what_they_ask_for(key, Command::OpenMenu, can_act(frame, m));
}

/// A key that asks for nothing does nothing; and whatever key is hit first, all it does to a
/// welcome screen is to send it away.
pub proof fn other_keys_do_nothing(frame: Frame, player: Player, m: InputModel, key: TermKey)
    ensures
        m.input_state.welcome_visible ==> {
            &&& key_fits(frame, player, m, key)
            &&& after_key(frame, player, m, key) == InputModel {
                input_state: InputState { welcome_visible: false, ..m.input_state },
                ..m
            }
        },
        !m.input_state.welcome_visible && (forall|command: Command|
            !#[trigger] asks_for(key, command)) ==> {
            &&& key_fits(frame, player, m, key)
            &&& after_key(frame, player, m, key) == m
        },
{
    if let Some(command) = command_of(key, can_act(frame, m)) {
        keys_give_what_they_ask_for(key, command, can_act(frame, m));
        assert(asks_for(key, command));
    }
}

/// The keyboard belongs to the living player of a game that is neither lost nor won.
pub open spec fn in_the_game(frame: Frame, player: Player, m: InputModel) -> bool {
    &&& frame.player == Some(player)
    &&& !player.dead
    &&& frame.game_state == GameState::Playing || frame.game_state == GameState::Paused
    &&& m.input_state.mode == InputMode::Game
}

/// In the game the keys of a frame are handled one by one, in the order in which they were
/// typed, and each finds what those before it have left.
pub proof fn input_goes_key_by_key(
    frame: Frame,
    player: Player,
    m: InputModel,
    keys: Seq<TermKey>,
    key: TermKey,
)
    requires
        in_the_game(frame, player, m),
    ensures
        after_input(frame, m, Seq::empty()) == m,
        input_fits(frame, m, Seq::empty()),
        after_input(frame, m, keys.push(key)) == after_key(
            frame,
            player,
            after_input(frame, m, keys),
            key,
        ),
        input_fits(frame, m, keys.push(key)) <==> input_fits(frame, m, keys) && key_fits(
            frame,
            player,
            after_input(frame, m, keys),
            key,
        ),
{
    assert(keys.push(key).drop_last() =~= keys);
    assert(keys.push(key).last() == key);
    let before = after_keys(frame, player, m, keys);
    assert(after_input(frame, m, keys) == before);
    assert(after_input(frame, m, keys.push(key)) == after_keys(frame, player, m, keys.push(key)));
    assert(after_keys(frame, player, m, keys.push(key)) == after_key(frame, player, before, key));
}

/// Without a player, in a game that is neither lost nor won, keys do nothing.
pub proof fn keys_need_a_player(
    frame: Frame,
    m: InputModel,
    keys: Seq<TermKey>,
    just: Set<PhysicalKey>,
    shift: bool,
)
    requires
        frame.player is None,
        frame.game_state == GameState::Playing || frame.game_state == GameState::Paused,
    ensures
        input_fits(frame, m, keys),
        windowed_input_fits(frame, m, just, shift),
        after_input(frame, m, keys) == m,
        after_windowed_input(frame, m, just, shift) == m,
{
}

/// The menu is left by Q, which lets a paused game go on, and by R, which asks for a new game;
/// no other key does anything. In a window R is not looked at where Q goes down.
pub proof fn menu_is_left_by_q_and_r(
    frame: Frame,
    player: Player,
    m: InputModel,
    keys: Seq<TermKey>,
    just: Set<PhysicalKey>,
    shift: bool,
)
    requires
        frame.player == Some(player),
        !player.dead,
        frame.game_state == GameState::Playing || frame.game_state == GameState::Paused,
        m.input_state.mode == InputMode::EscMenu,
    ensures
        input_fits(frame, m, keys),
        windowed_input_fits(frame, m, just, shift),
        leaves_the_menu(
            frame,
            m,
            after_input(frame, m, keys),
            keys.contains(TermKey::Char('q')),
            keys.contains(TermKey::Char('r')),
        ),
        leaves_the_menu(
            frame,
            m,
            after_windowed_input(frame, m, just, shift),
            just.contains(PhysicalKey::KeyQ),
            just.contains(PhysicalKey::KeyR) && !just.contains(PhysicalKey::KeyQ),
        ),
{
}

/// What is left of the menu in `later` where Q was hit, or R, or neither.
pub open spec fn leaves_the_menu(
    frame: Frame,
    m: InputModel,
    later: InputModel,
    q: bool,
    r: bool,
) -> bool {
    &&& later.input_state.mode == InputMode::Game <==> q || r
    &&& later.restart_requested <==> m.restart_requested || r
    &&& q && frame.game_state == GameState::Paused ==> later.next_game_state == Some(
        GameState::Playing,
    )
    &&& !q || frame.game_state != GameState::Paused ==> later.next_game_state == m.next_game_state
    &&& later == InputModel {
        input_state: InputState { mode: later.input_state.mode, ..m.input_state },
        restart_requested: later.restart_requested,
        next_game_state: later.next_game_state,
        ..m
    }
}

/// A key of the keyboard types what is printed on it; with Shift, G types a capital letter.
pub proof fn keys_type_what_they_say(key: PhysicalKey, shift: bool)
    ensures
        key == PhysicalKey::KeyA ==> typed(key, shift) == TermKey::Char('a'),
        key == PhysicalKey::KeyC ==> typed(key, shift) == TermKey::Char('c'),
        key == PhysicalKey::KeyD ==> typed(key, shift) == TermKey::Char('d'),
        key == PhysicalKey::KeyE ==> typed(key, shift) == TermKey::Char('e'),
        key == PhysicalKey::KeyF ==> typed(key, shift) == TermKey::Char('f'),
        key == PhysicalKey::KeyG && !shift ==> typed(key, shift) == TermKey::Char('g'),
        key == PhysicalKey::KeyG && shift ==> typed(key, shift) == TermKey::Char('G'),
        key == PhysicalKey::KeyI ==> typed(key, shift) == TermKey::Char('i'),
        key == PhysicalKey::KeyJ ==> typed(key, shift) == TermKey::Char('j'),
        key == PhysicalKey::KeyK ==> typed(key, shift) == TermKey::Char('k'),
        key == PhysicalKey::KeyL ==> typed(key, shift) == TermKey::Char('l'),
        key == PhysicalKey::KeyQ ==> typed(key, shift) == TermKey::Char('q'),
        key == PhysicalKey::KeyR ==> typed(key, shift) == TermKey::Char('r'),
        key == PhysicalKey::KeyS ==> typed(key, shift) == TermKey::Char('s'),
        key == PhysicalKey::KeyT ==> typed(key, shift) == TermKey::Char('t'),
        key == PhysicalKey::KeyV ==> typed(key, shift) == TermKey::Char('v'),
        key == PhysicalKey::KeyW ==> typed(key, shift) == TermKey::Char('w'),
        key == PhysicalKey::ArrowUp ==> typed(key, shift) == TermKey::Up,
        key == PhysicalKey::ArrowDown ==> typed(key, shift) == TermKey::Down,
        key == PhysicalKey::ArrowLeft ==> typed(key, shift) == TermKey::Left,
        key == PhysicalKey::ArrowRight ==> typed(key, shift) == TermKey::Right,
        key == PhysicalKey::Digit1 ==> typed(key, shift) == TermKey::Char('1'),
        key == PhysicalKey::Digit2 ==> typed(key, shift) == TermKey::Char('2'),
        key == PhysicalKey::Digit3 ==> typed(key, shift) == TermKey::Char('3'),
        key == PhysicalKey::Digit4 ==> typed(key, shift) == TermKey::Char('4'),
        key == PhysicalKey::Digit5 ==> typed(key, shift) == TermKey::Char('5'),
        key == PhysicalKey::Digit6 ==> typed(key, shift) == TermKey::Char('6'),
        key == PhysicalKey::Other ==> typed(key, shift) == TermKey::Other,
{
}

/// When a key is looked at, where several go down in a window at once: the menu first, then
/// the cursor, walking, waiting and the abilities, the slots in ascending order, and the rest
/// never.
pub open spec fn rank(key: PhysicalKey) -> int {
    match key {
        PhysicalKey::KeyQ => 0,
        PhysicalKey::KeyI => 1,
        PhysicalKey::KeyK => 2,
        PhysicalKey::KeyJ => 3,
        PhysicalKey::KeyL => 4,
        PhysicalKey::KeyC => 5,
        PhysicalKey::KeyV => 6,
        PhysicalKey::KeyW => 7,
        PhysicalKey::ArrowUp => 8,
        PhysicalKey::KeyS => 9,
        PhysicalKey::ArrowDown => 10,
        PhysicalKey::KeyA => 11,
        PhysicalKey::ArrowLeft => 12,
        PhysicalKey::KeyD => 13,
        PhysicalKey::ArrowRight => 14,
        PhysicalKey::KeyT => 15,
        PhysicalKey::KeyR => 16,
        PhysicalKey::KeyF => 17,
        PhysicalKey::KeyG => 18,
        PhysicalKey::KeyE => 19,
        PhysicalKey::Digit1 => 20,
        PhysicalKey::Digit2 => 21,
        PhysicalKey::Digit3 => 22,
        PhysicalKey::Digit4 => 23,
        PhysicalKey::Digit5 => 24,
        PhysicalKey::Digit6 => 25,
        PhysicalKey::Other => 26,
    }
}

/// Of several keys that go down in a window the one with the lowest rank does what typing it
/// does, and the others do nothing.
pub proof fn first_key_counts(
    frame: Frame,
    player: Player,
    m: InputModel,
    just: Set<PhysicalKey>,
    shift: bool,
    key: PhysicalKey,
)
    requires
        in_the_game(frame, player, m),
        just.contains(key),
        forall|other: PhysicalKey| #[trigger] just.contains(other) ==> rank(key) <= rank(other),
    ensures
        after_windowed_input(frame, m, just, shift) == after_key(
            frame,
            player,
            m,
            typed(key, shift),
        ),
        windowed_input_fits(frame, m, just, shift) == key_fits(
            frame,
            player,
            m,
            typed(key, shift),
        ),
{
    let awaiting = accepts(frame, m);
    lemma_first_command(just, shift, awaiting, key);
    lemma_same_command(key, shift, awaiting);
    assert(!just.is_empty());
}

proof fn lemma_first_command(
    just: Set<PhysicalKey>,
    shift: bool,
    awaiting: bool,
    key: PhysicalKey,
)
    requires
        just.contains(key),
        forall|other: PhysicalKey| #[trigger] just.contains(other) ==> rank(key) <= rank(other),
    ensures
        windowed_command(just, shift, awaiting) == windowed_command(set![key], shift, awaiting),
{
    if key == PhysicalKey::KeyQ {
    } else if key == PhysicalKey::Other {
        assert(!just.contains(PhysicalKey::KeyQ));
        assert forall|i: int| !counts(just, i) by {
            if 0 <= i < precedence().len() && just.contains(precedence()[i]) {
                assert(rank(precedence()[i]) == i + 1);
            }
        }
        assert(forall|i: int| !counts(set![key], i));
    } else {
        assert(!just.contains(PhysicalKey::KeyQ));
        let place = rank(key) - 1;
        assert(precedence()[place] == key);
        assert forall|j: int| 0 <= j < place implies !just.contains(
            #[trigger] precedence()[j],
        ) by {
            assert(rank(precedence()[j]) == j + 1);
        }
        assert(counts(just, place));
        assert forall|i: int| counts(just, i) implies i == place by {
            if i < place {
                assert(!just.contains(precedence()[i]));
            }
        }
        lemma_only_key_counts(key);
        let alone = choose|i: int| counts(set![key], i);
        assert(precedence()[alone] == key);
    }
}

/// Where no key goes down in a window, nothing happens in the game.
pub proof fn still_windows_do_nothing(
    frame: Frame,
    player: Player,
    m: InputModel,
    shift: bool,
)
    requires
        in_the_game(frame, player, m),
    ensures
        windowed_input_fits(frame, m, Set::empty(), shift),
        after_windowed_input(frame, m, Set::empty(), shift) == m,
{
    let none = Set::<PhysicalKey>::empty();
    assert(none.is_empty());
    assert(forall|i: int| !counts(none, i));
}

} // verus!
