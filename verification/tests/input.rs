use bevy::ecs::entity::Entity;
use roguelike::actions::{
    advance_turn, auto_aim, command_fits, emit_move, handle_throw_random, mark_viewshed_dirty,
    move_cursor, nearest_hostile, throw_draw, DrawRequest,
};
use roguelike::combat_log::LogLine;
use roguelike::commands::{command_for, Command, MAX_INVENTORY_SIZE};
use roguelike::grid::GridVec;
use roguelike::input::{handle_key, input_system, try_input_system};
use roguelike::intents::{
    IntentWriters, MeleeWideIntent, MolotovCastIntent, MoveIntent, RangedAttackIntent,
    SpellCastIntent, ThrowItemIntent, UseItemIntent,
};
use roguelike::items::{Caliber, ItemKind};
use roguelike::keys::TermKey;
use roguelike::state::{
    Frame, GameState, InputMode, InputState, InputWorld, ItemSlot, NextTurn, Player, TurnState,
};

fn entity(n: u32) -> Entity {
    Entity::from_raw_u32(n).unwrap()
}

const PLAYER: u32 = 1;

fn gun(name: &str, loaded: i32) -> ItemKind<String> {
    ItemKind::Gun {
        loaded,
        capacity: 6,
        caliber: Caliber::Cal44,
        attack: 9,
        name: name.to_string(),
        blunt_damage: 5,
    }
}

/// Slots in order: two guns, a knife, a grenade, a molotov and a beer.
fn slots() -> Vec<ItemSlot> {
    vec![
        ItemSlot { entity: entity(10), kind: Some(gun("Colt Army", 6)) },
        ItemSlot { entity: entity(11), kind: Some(gun("Starr 1858 DA", 1)) },
        ItemSlot { entity: entity(12), kind: Some(ItemKind::Knife { attack: 4, blunt_damage: 6 }) },
        ItemSlot {
            entity: entity(13),
            kind: Some(ItemKind::Grenade { damage: 8, radius: 3, blunt_damage: 5 }),
        },
        ItemSlot {
            entity: entity(14),
            kind: Some(ItemKind::Molotov { damage: 6, radius: 4, blunt_damage: 4 }),
        },
        ItemSlot { entity: entity(15), kind: Some(ItemKind::Beer { heal: 5, blunt_damage: 3 }) },
    ]
}

fn player() -> Player {
    Player {
        entity: entity(PLAYER),
        pos: GridVec::new(10, 10),
        stamina: Some(100),
        inventory: Some(slots()),
        dead: false,
    }
}

fn frame() -> Frame {
    Frame {
        player: Some(player()),
        hostiles: vec![GridVec::new(30, 10), GridVec::new(12, 4), GridVec::new(16, 10)],
        game_state: GameState::Playing,
        turn_state: Some(TurnState::AwaitingInput),
        spectating: false,
        drawn_slot: 0,
        spell_stamina_cost: 20,
        thrown_range: 12,
    }
}

fn with_stamina(stamina: Option<i32>) -> Frame {
    let mut f = frame();
    f.player = Some(Player { stamina, ..player() });
    f
}

fn with_inventory(inventory: Option<Vec<ItemSlot>>) -> Frame {
    let mut f = frame();
    f.player = Some(Player { inventory, ..player() });
    f
}

fn world() -> InputWorld {
    InputWorld {
        intents: IntentWriters::new(),
        next_game_state: None,
        next_turn_state: NextTurn::Unchanged,
        combat_log: Vec::new(),
        input_state: InputState {
            mode: InputMode::Game,
            welcome_visible: false,
            ability_stamina_pending: 0,
            reload_pending: false,
        },
        restart_requested: false,
        exit_requested: false,
        cursor: GridVec::new(13, 9),
        extra_world_ticks: 0,
        god_mode: false,
        viewshed_dirty: Some(false),
    }
}

const TAKEN: NextTurn = NextTurn::Pending(TurnState::PlayerTurn);

fn keys(text: &str) -> Vec<TermKey> {
    text.chars().map(TermKey::Char).collect()
}

fn press(f: &Frame, text: &str) -> InputWorld {
    let mut w = world();
    input_system(f, &mut w, &keys(text));
    w
}

/// Types one key in each of several frames, in all of which the game awaits input.
fn press_in_turn(f: &Frame, text: &str) -> InputWorld {
    let mut w = world();
    for key in keys(text) {
        w.next_turn_state = NextTurn::Unchanged;
        input_system(f, &mut w, &vec![key]);
    }
    w
}

fn refused(line: LogLine) -> InputWorld {
    let mut w = world();
    w.combat_log.push(line);
    w
}

#[test]
fn walking_takes_three_ticks_and_stamina() {
    for (key, dx, dy) in [('w', 0, 1), ('s', 0, -1), ('a', -1, 0), ('d', 1, 0)] {
        let w = press(&frame(), &key.to_string());
        let mut expected = world();
        expected.intents.move_intents.push(MoveIntent { entity: entity(PLAYER), dx, dy });
        expected.extra_world_ticks = 2;
        expected.input_state.ability_stamina_pending = 2;
        expected.next_turn_state = TAKEN;
        assert_eq!(w, expected);
    }
}

#[test]
fn arrows_walk_too() {
    for (key, letter) in [
        (TermKey::Up, "w"),
        (TermKey::Down, "s"),
        (TermKey::Left, "a"),
        (TermKey::Right, "d"),
    ] {
        let mut w = world();
        input_system(&frame(), &mut w, &vec![key]);
        assert_eq!(w, press(&frame(), letter));
    }
}

#[test]
fn cursor_keys_move_the_cursor() {
    for (key, x, y) in [('i', 13, 10), ('k', 13, 8), ('j', 12, 9), ('l', 14, 9)] {
        let w = press(&frame(), &key.to_string());
        let mut expected = world();
        expected.cursor = GridVec::new(x, y);
        expected.viewshed_dirty = Some(true);
        expected.next_turn_state = TAKEN;
        assert_eq!(w, expected);
    }
}

#[test]
fn opposite_cursor_keys_cancel() {
    assert_eq!(press_in_turn(&frame(), "ik").cursor, GridVec::new(13, 9));
    assert_eq!(press_in_turn(&frame(), "ljjl").cursor, GridVec::new(13, 9));
}

#[test]
fn center_puts_the_cursor_on_the_player() {
    let w = press(&frame(), "c");
    assert_eq!(w.cursor, GridVec::new(10, 10));
    assert_eq!(w.viewshed_dirty, Some(true));
    assert_eq!(w.next_turn_state, TAKEN);
}

#[test]
fn auto_aim_steps_toward_the_first_of_the_nearest() {
    // (12, 4) and (16, 10) are both six moves away; the first in the list counts.
    let w = press(&frame(), "v");
    assert_eq!(w.cursor, GridVec::new(12, 8));
    assert_eq!(w.viewshed_dirty, Some(true));
    assert_eq!(w.next_turn_state, TAKEN);
    let arrived = press_in_turn(&frame(), "vvvvvvvvv");
    assert_eq!(arrived.cursor, GridVec::new(12, 4));
}

#[test]
fn auto_aim_without_enemies() {
    let mut f = frame();
    f.hostiles = Vec::new();
    assert_eq!(press(&f, "v"), refused(LogLine::NoEnemiesVisible));
}

#[test]
fn nearest_ignores_the_farthest_distance_there_is() {
    let origin = GridVec::new(0, 0);
    assert_eq!(nearest_hostile(origin, &vec![GridVec::new(i32::MAX, 0)]), None);
    let near = GridVec::new(i32::MAX - 1, 0);
    assert_eq!(nearest_hostile(origin, &vec![GridVec::new(i32::MAX, 0), near]), Some(near));
}

#[test]
fn waiting_is_logged() {
    let w = press(&frame(), "t");
    let mut expected = refused(LogLine::Wait);
    expected.next_turn_state = TAKEN;
    assert_eq!(w, expected);
}

#[test]
fn reloading_takes_six_ticks() {
    let w = press(&frame(), "r");
    let mut expected = world();
    expected.extra_world_ticks = 5;
    expected.input_state.reload_pending = true;
    expected.next_turn_state = TAKEN;
    assert_eq!(w, expected);
}

#[test]
fn roundhouse_needs_stamina() {
    let w = press(&with_stamina(Some(10)), "f");
    let mut expected = world();
    expected.intents.melee_wide_intents.push(MeleeWideIntent { attacker: entity(PLAYER) });
    expected.extra_world_ticks = 1;
    expected.input_state.ability_stamina_pending = 10;
    expected.next_turn_state = TAKEN;
    assert_eq!(w, expected);
    assert_eq!(press(&with_stamina(Some(9)), "f"), refused(LogLine::NoStaminaForRoundhouse));
    assert_eq!(press(&with_stamina(None), "f"), refused(LogLine::NoStaminaForRoundhouse));
}

#[test]
fn sand_lands_two_steps_toward_the_cursor() {
    let w = press(&with_stamina(Some(5)), "g");
    let mut expected = refused(LogLine::SandThrown);
    expected.intents.spell_intents.push(SpellCastIntent {
        caster: entity(PLAYER),
        radius: 2,
        target: GridVec::new(12, 8),
        grenade_index: usize::MAX,
    });
    expected.input_state.ability_stamina_pending = 5;
    expected.next_turn_state = TAKEN;
    assert_eq!(w, expected);
    assert_eq!(press(&with_stamina(Some(4)), "g"), refused(LogLine::NoStamina));
}

#[test]
fn sand_needs_a_direction() {
    let mut w = world();
    w.cursor = GridVec::new(10, 10);
    input_system(&frame(), &mut w, &keys("g"));
    assert_eq!(w.combat_log, vec![LogLine::CursorOnPlayer]);
    assert_eq!(w.next_turn_state, NextTurn::Unchanged);
    assert!(w.intents.spell_intents.is_empty());
}

#[test]
fn blind_throw_throws_what_was_drawn() {
    let mut f = frame();
    // A gun does half its attack, a knife all of it, a beer does 2.
    for (slot, damage) in [(0, 4), (2, 4), (5, 2)] {
        f.drawn_slot = slot;
        let w = press(&f, "e");
        let mut expected = world();
        expected.intents.throw_item_intents.push(ThrowItemIntent {
            thrower: entity(PLAYER),
            item_entity: entity(10 + slot as u32),
            item_index: slot,
            dx: 3,
            dy: -1,
            range: 12,
            damage,
        });
        expected.extra_world_ticks = 1;
        expected.input_state.ability_stamina_pending = 10;
        expected.next_turn_state = TAKEN;
        assert_eq!(w, expected);
    }
}

#[test]
fn blind_throw_of_an_unknown_item() {
    let f = with_inventory(Some(vec![ItemSlot { entity: entity(20), kind: None }]));
    assert_eq!(press(&f, "e").intents.throw_item_intents[0].damage, 2);
}

#[test]
fn blind_throw_refusals() {
    assert_eq!(press(&with_stamina(Some(9)), "e"), refused(LogLine::NoStaminaToThrow));
    // The stamina is set aside before anything else is looked at.
    let mut expected = refused(LogLine::NoInventory);
    expected.input_state.ability_stamina_pending = 10;
    assert_eq!(press(&with_inventory(None), "e"), expected);
    let mut expected = refused(LogLine::InventoryEmpty);
    expected.input_state.ability_stamina_pending = 10;
    assert_eq!(press(&with_inventory(Some(Vec::new())), "e"), expected);
    let mut w = world();
    w.cursor = GridVec::new(10, 10);
    handle_throw_random(&frame(), &player(), &mut w);
    assert_eq!(w.combat_log, vec![LogLine::CursorOnPlayer]);
}

#[test]
fn half_of_a_negative_attack_rounds_toward_zero() {
    let kind = Some(ItemKind::Gun {
        loaded: 0,
        capacity: 1,
        caliber: Caliber::Cal31,
        attack: -3,
        name: "Broken".to_string(),
        blunt_damage: 0,
    });
    assert_eq!(roguelike::items::thrown_damage(&kind), -1);
}

#[test]
fn god_mode_toggles() {
    let w = press(&frame(), "G");
    assert!(w.god_mode);
    assert_eq!(w.combat_log, vec![LogLine::GodModeEnabled]);
    assert_eq!(w.next_turn_state, NextTurn::Unchanged);
    let w = press(&frame(), "GG");
    assert!(!w.god_mode);
    assert_eq!(w.combat_log, vec![LogLine::GodModeEnabled, LogLine::GodModeDisabled]);
}

#[test]
fn guns_fire_toward_the_cursor() {
    for (key, item, ticks) in [("1", 10, 1), ("2", 11, 0)] {
        let w = press(&frame(), key);
        let mut expected = world();
        expected.intents.ranged_intents.push(RangedAttackIntent {
            attacker: entity(PLAYER),
            range: 100,
            dx: 3,
            dy: -1,
            gun_item: Some(entity(item)),
        });
        expected.extra_world_ticks = ticks;
        expected.next_turn_state = TAKEN;
        assert_eq!(w, expected);
    }
}

#[test]
fn a_double_action_gun_resets_the_extra_ticks() {
    let w = press_in_turn(&frame(), "w2");
    assert_eq!(w.extra_world_ticks, 0);
}

#[test]
fn names_are_searched_anywhere() {
    assert!(roguelike::items::is_double_action("Starr 1858 DA"));
    assert!(roguelike::items::is_double_action("an old Starr"));
    assert!(!roguelike::items::is_double_action("Star"));
    assert!(!roguelike::items::is_double_action("starr"));
}

#[test]
fn empty_guns_say_so() {
    let f = with_inventory(Some(vec![ItemSlot {
        entity: entity(10),
        kind: Some(gun("Colt Army", 0)),
    }]));
    assert_eq!(press(&f, "1"), refused(LogLine::GunEmpty));
}

#[test]
fn aiming_at_oneself_is_refused() {
    for key in ["1", "3"] {
        let mut w = world();
        w.cursor = GridVec::new(10, 10);
        input_system(&frame(), &mut w, &keys(key));
        assert_eq!(w.combat_log, vec![LogLine::CursorOnPlayer]);
        assert_eq!(w.next_turn_state, NextTurn::Unchanged);
        assert_eq!(w.intents, IntentWriters::new());
    }
}

#[test]
fn blades_are_thrown() {
    let w = press(&frame(), "3");
    let mut expected = world();
    expected.intents.throw_item_intents.push(ThrowItemIntent {
        thrower: entity(PLAYER),
        item_entity: entity(12),
        item_index: 2,
        dx: 3,
        dy: -1,
        range: 12,
        damage: 4,
    });
    expected.extra_world_ticks = 1;
    expected.next_turn_state = TAKEN;
    assert_eq!(w, expected);
    let f = with_inventory(Some(vec![ItemSlot {
        entity: entity(16),
        kind: Some(ItemKind::Tomahawk { attack: 5, blunt_damage: 7 }),
    }]));
    assert_eq!(press(&f, "1").intents.throw_item_intents[0].damage, 5);
}

#[test]
fn grenades_fly_to_the_cursor() {
    let w = press(&with_stamina(Some(20)), "4");
    let mut expected = world();
    expected.intents.spell_intents.push(SpellCastIntent {
        caster: entity(PLAYER),
        radius: 3,
        target: GridVec::new(13, 9),
        grenade_index: 3,
    });
    expected.extra_world_ticks = 1;
    expected.next_turn_state = TAKEN;
    assert_eq!(w, expected);
    assert_eq!(press(&with_stamina(Some(19)), "4"), refused(LogLine::NoStamina));
}

#[test]
fn molotovs_fly_to_the_cursor() {
    let w = press(&with_stamina(Some(20)), "5");
    let mut expected = world();
    expected.intents.molotov_intents.push(MolotovCastIntent {
        caster: entity(PLAYER),
        radius: 4,
        damage: 6,
        target: GridVec::new(13, 9),
        item_index: 4,
    });
    expected.extra_world_ticks = 1;
    expected.next_turn_state = TAKEN;
    assert_eq!(w, expected);
    assert_eq!(press(&with_stamina(Some(19)), "5"), refused(LogLine::NoStamina));
}

#[test]
fn other_slots_are_used() {
    let whiskey = ItemKind::Whiskey { heal: 10, blunt_damage: 4 };
    let slot = |kind: Option<ItemKind<String>>| ItemSlot { entity: entity(20), kind };
    for (f, key, item_index, ticks) in [
        (frame(), "6", 5, 1),
        (with_inventory(Some(vec![slot(None), slot(Some(whiskey))])), "2", 1, 1),
        (with_inventory(None), "1", 0, 0),
        (with_inventory(Some(Vec::new())), "3", 2, 0),
        (with_inventory(Some(vec![slot(None)])), "1", 0, 0),
    ] {
        let w = press(&f, key);
        let mut expected = world();
        expected.intents.use_item_intents.push(UseItemIntent { user: entity(PLAYER), item_index });
        expected.extra_world_ticks = ticks;
        expected.next_turn_state = TAKEN;
        assert_eq!(w, expected);
    }
}

#[test]
fn q_toggles_the_menu() {
    let mut f = frame();
    let mut w = world();
    input_system(&f, &mut w, &keys("q"));
    assert_eq!(w.input_state.mode, InputMode::EscMenu);
    assert_eq!(w.next_game_state, Some(GameState::Paused));
    f.game_state = GameState::Paused;
    f.turn_state = None;
    input_system(&f, &mut w, &keys("q"));
    assert_eq!(w.input_state.mode, InputMode::Game);
    assert_eq!(w.next_game_state, Some(GameState::Playing));
}

#[test]
fn the_menu_can_be_opened_out_of_turn() {
    let mut f = frame();
    f.turn_state = Some(TurnState::WorldTurn);
    let w = press(&f, "wq1");
    let mut expected = world();
    expected.input_state.mode = InputMode::EscMenu;
    expected.next_game_state = Some(GameState::Paused);
    assert_eq!(w, expected);
}

#[test]
fn nothing_else_happens_out_of_turn() {
    for turn_state in [None, Some(TurnState::PlayerTurn), Some(TurnState::WorldTurn)] {
        let mut f = frame();
        f.turn_state = turn_state;
        assert_eq!(press(&f, "wasdijklcvtrfgeG123456x"), world());
    }
}

#[test]
fn the_menu_restarts() {
    let mut w = world();
    w.input_state.mode = InputMode::EscMenu;
    input_system(&frame(), &mut w, &keys("xwr"));
    assert!(w.restart_requested);
    assert_eq!(w.input_state.mode, InputMode::Game);
    assert_eq!(w.next_game_state, None);
    assert_eq!(w.intents, IntentWriters::new());
}

#[test]
fn the_end_only_restarts_and_quits() {
    for game_state in [GameState::Dead, GameState::Victory] {
        let mut f = frame();
        f.game_state = game_state;
        assert_eq!(press(&f, "w1x"), world());
        let mut expected = world();
        expected.exit_requested = true;
        assert_eq!(press(&f, "wq1"), expected);
        let mut expected = world();
        expected.restart_requested = true;
        assert_eq!(press(&f, "wr1"), expected);
        expected.exit_requested = true;
        assert_eq!(press(&f, "qr"), expected);
    }
}

#[test]
fn a_dead_player_only_restarts() {
    let mut f = frame();
    f.player = Some(Player { dead: true, ..player() });
    assert_eq!(press(&f, "qw1"), world());
    assert!(press(&f, "r").restart_requested);
    f.spectating = true;
    let mut expected = world();
    expected.next_turn_state = TAKEN;
    assert_eq!(press(&f, ""), expected);
    f.turn_state = Some(TurnState::WorldTurn);
    assert_eq!(press(&f, ""), world());
}

#[test]
fn without_a_player_nothing_happens() {
    let mut f = frame();
    f.player = None;
    assert_eq!(press(&f, "qrw"), world());
}

#[test]
fn the_welcome_screen_takes_one_key() {
    let mut w = world();
    w.input_state.welcome_visible = true;
    input_system(&frame(), &mut w, &keys("qt"));
    let mut expected = refused(LogLine::Wait);
    expected.next_turn_state = TAKEN;
    assert_eq!(w, expected);
}

#[test]
fn one_key_of_a_frame_takes_the_turn() {
    let w = press(&frame(), "wd1G");
    assert_eq!(
        w.intents.move_intents,
        vec![MoveIntent { entity: entity(PLAYER), dx: 0, dy: 1 }]
    );
    assert_eq!(w, press(&frame(), "w"));
    // The same frame goes on to refuse what is typed later.
    let mut twice = world();
    input_system(&frame(), &mut twice, &keys("w"));
    input_system(&frame(), &mut twice, &keys("d1G"));
    assert_eq!(w, twice);
}

#[test]
fn keys_that_take_no_turn_leave_it_to_the_next() {
    let w = press(&with_stamina(Some(9)), "GfewG");
    assert_eq!(
        w.combat_log,
        vec![LogLine::GodModeEnabled, LogLine::NoStaminaForRoundhouse, LogLine::NoStaminaToThrow]
    );
    assert!(w.god_mode);
    assert_eq!(w.intents.move_intents.len(), 1);
    assert_eq!(w.next_turn_state, TAKEN);
}

#[test]
fn the_menu_can_be_opened_behind_an_action() {
    let w = press(&frame(), "wqd");
    let mut expected = press(&frame(), "w");
    expected.input_state.mode = InputMode::EscMenu;
    expected.next_game_state = Some(GameState::Paused);
    assert_eq!(w, expected);
}

#[test]
fn a_turn_that_is_taken_already_stays_taken() {
    let mut w = world();
    w.next_turn_state = TAKEN;
    let mut before = world();
    before.next_turn_state = w.next_turn_state;
    input_system(&frame(), &mut w, &keys("wasdijklcvtrfgeG123456"));
    assert_eq!(w, before);
    // A turn state that is queued otherwise does not keep the player waiting.
    w.next_turn_state = NextTurn::Pending(TurnState::AwaitingInput);
    input_system(&frame(), &mut w, &keys("t"));
    assert_eq!(w.combat_log, vec![LogLine::Wait]);
    assert_eq!(w.next_turn_state, TAKEN);
}

#[test]
fn without_a_turn_state_every_key_acts() {
    let mut w = world();
    w.next_turn_state = NextTurn::Absent;
    input_system(&frame(), &mut w, &keys("wd"));
    assert_eq!(w.intents.move_intents.len(), 2);
}

#[test]
fn an_absent_turn_state_stays_absent() {
    let mut w = world();
    w.next_turn_state = NextTurn::Absent;
    w.viewshed_dirty = None;
    input_system(&frame(), &mut w, &keys("wi"));
    assert_eq!(w.next_turn_state, NextTurn::Absent);
    assert_eq!(w.viewshed_dirty, None);
    assert_eq!(w.intents.move_intents.len(), 1);
}

#[test]
fn small_changes() {
    let mut w = world();
    advance_turn(&mut w);
    assert_eq!(w.next_turn_state, TAKEN);
    mark_viewshed_dirty(&mut w);
    assert_eq!(w.viewshed_dirty, Some(true));
    emit_move(&mut w, entity(7), 1, -1);
    assert_eq!(w.intents.move_intents, vec![MoveIntent { entity: entity(7), dx: 1, dy: -1 }]);
    move_cursor(&mut w, -3, 1);
    assert_eq!(w.cursor, GridVec::new(10, 10));
}

#[test]
fn unbound_keys_give_no_command() {
    for key in [TermKey::Char('7'), TermKey::Char('0'), TermKey::Char('W'), TermKey::Other] {
        assert_eq!(command_for(key, true), None);
    }
    assert_eq!(command_for(TermKey::Char('q'), false), Some(Command::OpenMenu));
    assert_eq!(
        command_for(TermKey::Char('6'), true),
        Some(Command::UseSlot { index: MAX_INVENTORY_SIZE - 1 })
    );
}

#[test]
fn limits_stop_the_keys() {
    let mut w = world();
    w.cursor = GridVec::new(i32::MAX, 0);
    assert!(!try_input_system(&frame(), &mut w, &keys("GlG")));
    assert_eq!(w.cursor, GridVec::new(i32::MAX, 0));
    assert_eq!(w.combat_log, vec![LogLine::GodModeEnabled]);
    // Once the turn is taken, the cursor does not move.
    assert!(try_input_system(&frame(), &mut w, &keys("tl")));
    assert_eq!(w.cursor, GridVec::new(i32::MAX, 0));
    let mut w = world();
    assert!(try_input_system(&frame(), &mut w, &keys("Gl")));
    assert_eq!(w, press(&frame(), "Gl"));
}

#[test]
fn fitting_is_exact() {
    let f = frame();
    let p = player();
    let mut w = world();
    assert!(command_fits(&f, &p, &w, Command::ThrowSand));
    w.cursor = GridVec::new(i32::MIN + 9, 0);
    assert!(!command_fits(&f, &p, &w, Command::ThrowSand));
    assert!(!command_fits(&f, &p, &w, Command::UseSlot { index: 0 }));
    assert!(command_fits(&f, &p, &w, Command::UseSlot { index: 3 }));
    w.cursor = GridVec::new(i32::MIN + 10, 0);
    assert!(command_fits(&f, &p, &w, Command::ThrowSand));
    assert!(!command_fits(&f, &p, &w, Command::AutoAim));
    let mut g = frame();
    g.drawn_slot = 6;
    assert!(!command_fits(&g, &p, &world(), Command::ThrowRandom));
    auto_aim(&f, &p, &mut world());
    handle_key(&f, &p, &mut world(), TermKey::Other);
}

#[test]
fn draws_are_asked_for_where_there_is_something_to_throw() {
    assert_eq!(
        throw_draw(&player(), 99),
        Some(DrawRequest { seed: 99, salt: 0x7000, len: 6 })
    );
    assert_eq!(throw_draw(&Player { inventory: None, ..player() }, 99), None);
    assert_eq!(throw_draw(&Player { inventory: Some(Vec::new()), ..player() }, 99), None);
}

#[test]
fn log_lines_read_as_they_should() {
    assert_eq!(LogLine::NoEnemiesVisible.text(), "No enemies visible.");
    assert_eq!(LogLine::Wait.text(), "You wait...");
    assert_eq!(LogLine::NoStaminaForRoundhouse.text(), "Not enough stamina for roundhouse!");
    assert_eq!(LogLine::NoStamina.text(), "Not enough stamina!");
    assert_eq!(LogLine::NoStaminaToThrow.text(), "Not enough stamina to throw!");
    assert_eq!(LogLine::CursorOnPlayer.text(), "Cursor is on your position!");
    assert_eq!(LogLine::SandThrown.text(), "You throw a handful of sand!");
    assert_eq!(LogLine::NoInventory.text(), "No inventory!");
    assert_eq!(LogLine::InventoryEmpty.text(), "Inventory is empty!");
    assert_eq!(LogLine::GodModeEnabled.text(), "God mode ENABLED — you are invincible.");
    assert_eq!(LogLine::GodModeDisabled.text(), "God mode DISABLED.");
    assert_eq!(LogLine::GunEmpty.text(), "Gun is empty! Press R to reload.");
}
