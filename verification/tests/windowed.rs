use bevy::ecs::entity::Entity;
use bevy::input::keyboard::KeyCode;
use bevy::input::ButtonInput;
use roguelike::combat_log::LogLine;
use roguelike::grid::GridVec;
use roguelike::input::{input_system, input_system_windowed, try_input_system_windowed};
use roguelike::intents::IntentWriters;
use roguelike::items::ItemKind;
use roguelike::keys::{shift_held, TermKey};
use roguelike::state::{
    Frame, GameState, InputMode, InputState, InputWorld, ItemSlot, NextTurn, Player, TurnState,
};

fn frame() -> Frame {
    let slot = |n: u32| ItemSlot {
        entity: Entity::from_raw_u32(n).unwrap(),
        kind: Some(ItemKind::Knife { attack: n as i32, blunt_damage: 1 }),
    };
    Frame {
        player: Some(Player {
            entity: Entity::from_raw_u32(1).unwrap(),
            pos: GridVec::new(10, 10),
            stamina: Some(100),
            inventory: Some(vec![slot(10), slot(11), slot(12), slot(13), slot(14), slot(15)]),
            dead: false,
        }),
        hostiles: vec![GridVec::new(12, 4)],
        game_state: GameState::Playing,
        turn_state: Some(TurnState::AwaitingInput),
        spectating: false,
        drawn_slot: 2,
        spell_stamina_cost: 20,
        thrown_range: 12,
    }
}

fn world() -> InputWorld {
    InputWorld {
        intents: IntentWriters::new(),
        next_game_state: None,
        next_turn_state: NextTurn::Unchanged,
        combat_log: Vec::new(),
        input_state: InputState {
            mode: InputMode::Game,
            welcome_visible: false,
            ability_stamina_pending: 0,
            reload_pending: false,
        },
        restart_requested: false,
        exit_requested: false,
        cursor: GridVec::new(13, 9),
        extra_world_ticks: 0,
        god_mode: false,
        viewshed_dirty: Some(false),
    }
}

fn down(codes: &[KeyCode]) -> ButtonInput<KeyCode> {
    let mut keys = ButtonInput::default();
    for &code in codes {
        keys.press(code);
    }
    keys
}

/// `codes` went down in an earlier frame and are still held.
fn held(codes: &[KeyCode]) -> ButtonInput<KeyCode> {
    let mut keys = down(codes);
    keys.clear();
    keys
}

fn press(f: &Frame, keys: &ButtonInput<KeyCode>) -> InputWorld {
    let mut w = world();
    input_system_windowed(f, &mut w, keys);
    w
}

const TYPED: [(KeyCode, TermKey); 27] = [
    (KeyCode::KeyA, TermKey::Char('a')),
    (KeyCode::KeyC, TermKey::Char('c')),
    (KeyCode::KeyD, TermKey::Char('d')),
    (KeyCode::KeyE, TermKey::Char('e')),
    (KeyCode::KeyF, TermKey::Char('f')),
    (KeyCode::KeyG, TermKey::Char('g')),
    (KeyCode::KeyI, TermKey::Char('i')),
    (KeyCode::KeyJ, TermKey::Char('j')),
    (KeyCode::KeyK, TermKey::Char('k')),
    (KeyCode::KeyL, TermKey::Char('l')),
    (KeyCode::KeyQ, TermKey::Char('q')),
    (KeyCode::KeyR, TermKey::Char('r')),
    (KeyCode::KeyS, TermKey::Char('s')),
    (KeyCode::KeyT, TermKey::Char('t')),
    (KeyCode::KeyV, TermKey::Char('v')),
    (KeyCode::KeyW, TermKey::Char('w')),
    (KeyCode::ArrowUp, TermKey::Up),
    (KeyCode::ArrowDown, TermKey::Down),
    (KeyCode::ArrowLeft, TermKey::Left),
    (KeyCode::ArrowRight, TermKey::Right),
    (KeyCode::Digit1, TermKey::Char('1')),
    (KeyCode::Digit2, TermKey::Char('2')),
    (KeyCode::Digit3, TermKey::Char('3')),
    (KeyCode::Digit4, TermKey::Char('4')),
    (KeyCode::Digit5, TermKey::Char('5')),
    (KeyCode::Digit6, TermKey::Char('6')),
    (KeyCode::F1, TermKey::Other),
];

#[test]
fn single_keys_mirror_the_terminal() {
    let mut paused = frame();
    paused.game_state = GameState::Paused;
    paused.turn_state = None;
    let mut over = frame();
    over.game_state = GameState::Victory;
    for f in [frame(), paused, over] {
        for mode in [InputMode::Game, InputMode::EscMenu] {
            for welcome_visible in [false, true] {
                for (code, typed) in TYPED {
                    let mut in_window = world();
                    in_window.input_state.mode = mode;
                    in_window.input_state.welcome_visible = welcome_visible;
                    let mut in_terminal = world();
                    in_terminal.input_state = in_window.input_state;
                    input_system_windowed(&f, &mut in_window, &down(&[code]));
                    input_system(&f, &mut in_terminal, &vec![typed]);
                    assert_eq!(in_window, in_terminal, "{:?}", code);
                }
            }
        }
    }
}

#[test]
fn every_bound_key_does_something() {
    for (code, typed) in TYPED {
        let w = press(&frame(), &down(&[code]));
        assert_eq!(w == world(), typed == TermKey::Other, "{:?}", code);
    }
}

#[test]
fn shift_turns_sand_into_god_mode() {
    for shift in [KeyCode::ShiftLeft, KeyCode::ShiftRight] {
        let mut keys = held(&[shift]);
        keys.press(KeyCode::KeyG);
        let w = press(&frame(), &keys);
        assert!(w.god_mode);
        assert!(w.intents.spell_intents.is_empty());
    }
    let w = press(&frame(), &down(&[KeyCode::KeyG]));
    assert!(!w.god_mode);
    assert_eq!(w.intents.spell_intents.len(), 1);
}

#[test]
fn shift_is_seen_while_held() {
    assert!(shift_held(&held(&[KeyCode::ShiftLeft])));
    assert!(shift_held(&held(&[KeyCode::ShiftRight])));
    assert!(!shift_held(&held(&[KeyCode::ControlLeft])));
    let mut keys = held(&[KeyCode::ShiftLeft]);
    keys.release(KeyCode::ShiftLeft);
    assert!(!shift_held(&keys));
}

#[test]
fn held_keys_do_not_repeat() {
    assert_eq!(press(&frame(), &held(&[KeyCode::KeyW])), world());
}

#[test]
fn one_of_several_keys_counts() {
    // The cursor comes before walking, walking before waiting, and the menu before all.
    let w = press(&frame(), &down(&[KeyCode::KeyT, KeyCode::KeyW, KeyCode::KeyL]));
    assert_eq!(w, press(&frame(), &down(&[KeyCode::KeyL])));
    let w = press(&frame(), &down(&[KeyCode::KeyT, KeyCode::KeyW]));
    assert_eq!(w, press(&frame(), &down(&[KeyCode::KeyW])));
    let w = press(&frame(), &down(&[KeyCode::KeyI, KeyCode::KeyQ]));
    assert_eq!(w, press(&frame(), &down(&[KeyCode::KeyQ])));
    let w = press(&frame(), &down(&[KeyCode::Digit6, KeyCode::Digit2]));
    assert_eq!(w, press(&frame(), &down(&[KeyCode::Digit2])));
}

#[test]
fn in_the_menu_q_goes_before_r() {
    let mut w = world();
    w.input_state.mode = InputMode::EscMenu;
    input_system_windowed(&frame(), &mut w, &down(&[KeyCode::KeyQ, KeyCode::KeyR]));
    assert_eq!(w.input_state.mode, InputMode::Game);
    assert!(!w.restart_requested);
}

#[test]
fn any_key_dismisses_the_welcome_screen() {
    for code in [KeyCode::F1, KeyCode::KeyQ, KeyCode::ShiftLeft] {
        let mut w = world();
        w.input_state.welcome_visible = true;
        input_system_windowed(&frame(), &mut w, &down(&[code]));
        assert_eq!(w, world());
    }
    let mut w = world();
    w.input_state.welcome_visible = true;
    input_system_windowed(&frame(), &mut w, &down(&[]));
    assert!(w.input_state.welcome_visible);
}

#[test]
fn the_end_can_be_left_from_a_window() {
    for game_state in [GameState::Dead, GameState::Victory] {
        let mut f = frame();
        f.game_state = game_state;
        let mut expected = world();
        expected.exit_requested = true;
        assert_eq!(press(&f, &down(&[KeyCode::KeyQ, KeyCode::KeyW])), expected);
        expected.restart_requested = true;
        assert_eq!(press(&f, &down(&[KeyCode::KeyQ, KeyCode::KeyR])), expected);
    }
}

#[test]
fn a_taken_turn_leaves_the_menu() {
    let mut w = world();
    w.next_turn_state = NextTurn::Pending(TurnState::PlayerTurn);
    let mut before = world();
    before.next_turn_state = w.next_turn_state;
    input_system_windowed(&frame(), &mut w, &down(&[KeyCode::KeyD]));
    assert_eq!(w, before);
    input_system_windowed(&frame(), &mut w, &down(&[KeyCode::KeyD, KeyCode::KeyQ]));
    assert_eq!(w.input_state.mode, InputMode::EscMenu);
    assert_eq!(w.intents, IntentWriters::new());
}

#[test]
fn a_spectator_sees_the_world_go_on() {
    let mut f = frame();
    f.spectating = true;
    if let Some(p) = &mut f.player {
        p.dead = true;
    }
    let w = press(&f, &down(&[KeyCode::KeyR, KeyCode::KeyW]));
    assert!(w.restart_requested);
    assert_eq!(w.next_turn_state, NextTurn::Pending(TurnState::PlayerTurn));
    assert_eq!(w.intents, IntentWriters::new());
}

#[test]
fn limits_leave_the_window_alone() {
    let mut w = world();
    w.cursor = GridVec::new(0, i32::MAX);
    assert!(!try_input_system_windowed(&frame(), &mut w, &down(&[KeyCode::KeyI])));
    assert_eq!(w.cursor, GridVec::new(0, i32::MAX));
    assert!(try_input_system_windowed(&frame(), &mut w, &down(&[KeyCode::KeyT])));
    assert_eq!(w.combat_log, vec![LogLine::Wait]);
}
