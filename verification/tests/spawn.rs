use roguelike::gangs::{
    do_spawn_monsters, group_anchor, group_plan, group_size, place_group, window_pos, Gang,
    GroupSurvey, MonsterSpawn, NoiseSample, Tile,
};
use roguelike::grid::GridVec;
use roguelike::items::{Ballistics, Caliber, ItemKind};
use roguelike::player_spawn::{do_spawn_player, map_center, starting_guns, AiState, Color, SpawnSites};
use roguelike::session::{
    first_session, initial_seed, restart_system, take_restart, Session, SessionDefaults,
};
use roguelike::state::{GameState, InputMode, InputState};

const BALLISTICS: Ballistics = Ballistics {
    cal31: 31,
    cal36: 36,
    cal44: 44,
    cal50: 50,
    cal58: 58,
    cal69: 69,
    cal577: 577,
};

fn sites(interior: Option<GridVec>, open: Option<GridVec>) -> SpawnSites {
    SpawnSites { center: map_center(800, 560), interior, open }
}

#[test]
fn buildings_come_before_open_ground() {
    let inside = GridVec::new(390, 270);
    let outside = GridVec::new(401, 281);
    assert_eq!(sites(Some(inside), Some(outside)).player_spawn(), inside);
    assert_eq!(sites(None, Some(outside)).player_spawn(), outside);
    assert_eq!(sites(None, None).player_spawn(), GridVec::new(400, 280));
}

#[test]
fn the_loadout_follows_from_the_place() {
    // 400 * 7919 ^ 280 * 6271 = 3167600 ^ 1755880 = 2793368
    let spawn = do_spawn_player(&sites(None, None), &BALLISTICS, 100);
    // 2793368 % 11 = 6: the seventh gun
    assert_eq!(starting_guns()[6].name, "Adams Revolver");
    assert_eq!(spawn.caliber, Caliber::Cal44);
    assert_eq!(spawn.items[0].name, "Adams Revolver");
    assert_eq!(spawn.items[0].symbol, "p");
    assert_eq!(
        spawn.items[0].kind,
        ItemKind::Gun {
            loaded: 5,
            capacity: 5,
            caliber: Caliber::Cal44,
            attack: 44,
            name: "Adams Revolver",
            blunt_damage: 5,
        }
    );
    // 2793368 * 31 % 2^32 % 6 = 2: ale
    assert_eq!(spawn.items[1].name, "Ale");
    assert_eq!(spawn.items[1].kind, ItemKind::Ale { heal: 7, blunt_damage: 3 });
    assert_eq!(spawn.items[1].fg, Color::Rgb(190, 150, 70));
    // 2793368 * 47 % 2^32 % 3 = 1: tomahawk; 2793368 * 59 is even: dynamite
    assert_eq!(spawn.items.len(), 4);
    assert_eq!(spawn.items[2].kind, ItemKind::Tomahawk { attack: 5, blunt_damage: 7 });
    assert_eq!(spawn.items[3].name, "Dynamite");
    assert_eq!(spawn.items[3].kind, ItemKind::Grenade { damage: 8, radius: 3, blunt_damage: 5 });
}

#[test]
fn products_wrap_around() {
    let pos = GridVec::new(1_000_000, -7);
    let spawn = do_spawn_player(&sites(Some(pos), None), &BALLISTICS, 100);
    let x = 1_000_000i64 * 7919 % (1 << 32);
    let y = (-7i64 * 6271).rem_euclid(1 << 32);
    let draw = (x ^ y) as usize;
    assert_eq!(spawn.items[0].name, starting_guns()[draw % 11].name);
}

#[test]
fn every_kind_of_item_turns_up() {
    let mut seen = Vec::new();
    for x in 0..60 {
        for y in 0..60 {
            let spawn = do_spawn_player(&sites(Some(GridVec::new(x, y)), None), &BALLISTICS, 100);
            assert!(spawn.items.len() == 3 || spawn.items.len() == 4);
            match &spawn.items[0].kind {
                ItemKind::Gun { caliber, loaded, capacity, attack, .. } => {
                    assert_eq!(*caliber, spawn.caliber);
                    assert_eq!(loaded, capacity);
                    assert_eq!(*attack, BALLISTICS.damage(*caliber));
                }
                _ => panic!("no gun"),
            }
            for item in &spawn.items {
                if !seen.contains(&item.name) {
                    seen.push(item.name);
                }
            }
        }
    }
    assert_eq!(seen.len(), 11 + 6 + 2 + 2);
}

#[test]
fn the_player_starts_in_full_health() {
    let pos = GridVec::new(3, 4);
    let spawn = do_spawn_player(&sites(Some(pos), None), &BALLISTICS, 100);
    let player = spawn.player;
    assert_eq!(player.pos, pos);
    assert_eq!(player.patrol_origin, pos);
    assert_eq!((player.health.current, player.health.max), (100, 100));
    assert_eq!((player.stamina.current, player.stamina.max), (100, 100));
    assert_eq!((player.attack, player.energy, player.view_range), (5, 0, 40));
    assert_eq!(player.look_dir, GridVec::new(0, -1));
    assert_eq!((player.name, player.symbol), ("Rogue", "@"));
    assert_eq!(player.faction, Gang::Civilians);
    assert!(player.view_dirty);
    assert_eq!((player.speed, player.ai_state, player.look_ticks), (100, AiState::Idle, 0));
    assert!(spawn.visible_tiles.is_empty() && spawn.revealed_tiles.is_empty());
}

#[test]
fn the_plan_lists_all_groups() {
    let plan = group_plan(1000);
    assert_eq!(plan.len(), 76);
    assert_eq!((plan[0].gang, plan[0].index, plan[0].seed), (Gang::Apache, 0, 165_320));
    assert_eq!((plan[29].gang, plan[29].index, plan[29].seed), (Gang::Civilians, 1, 185_321));
    assert_eq!((plan[75].gang, plan[75].index, plan[75].seed), (Gang::Lawmen, 11, 215_331));
    let mut seeds: Vec<u64> = plan.iter().map(|g| g.seed).collect();
    seeds.sort();
    seeds.dedup();
    assert_eq!(seeds.len(), 76);
}

#[test]
fn group_seeds_wrap_around() {
    let plan = group_plan(u64::MAX);
    assert_eq!(plan[0].seed, 54_321 + 99_999 + 10_000 - 1);
}

#[test]
fn noise_is_sampled_apart() {
    let group = group_plan(1000)[29];
    assert_eq!(group.sample_for_x(), NoiseSample { x: 1, y: 30, seed: 185_321 });
    assert_eq!(group.sample_for_y(), NoiseSample { x: 30, y: 1, seed: 185_322 });
    let pos = GridVec::new(7, -9);
    assert_eq!(group.sample_for_size(pos), NoiseSample { x: 7, y: -9, seed: 185_323 });
    assert_eq!(group.sample_for_tile(pos), NoiseSample { x: 7, y: -9, seed: 188_654 });
}

#[test]
fn anchors_keep_away_from_the_border() {
    assert_eq!(group_anchor(800, 560, GridVec::new(-150, 149)), GridVec::new(250, 429));
    assert_eq!(group_anchor(100, 100, GridVec::new(-150, 150)), GridVec::new(10, 90));
}

#[test]
fn gangs_know_their_templates() {
    assert_eq!(Gang::Apache.templates(), vec![2, 3]);
    assert_eq!(Gang::Vaqueros.templates(), vec![0]);
    assert_eq!(Gang::Civilians.templates(), vec![1]);
    assert_eq!(Gang::Police.templates(), vec![4, 5]);
    assert_eq!(Gang::Outlaws.templates(), vec![6, 7]);
    assert_eq!(Gang::Lawmen.templates(), vec![8, 9]);
}

fn tiles(free: &[usize]) -> Vec<Tile> {
    (0..289).map(|k| Tile { spawnable: free.contains(&k), taken: true }).collect()
}

#[test]
fn squares_are_read_row_by_row() {
    let anchor = GridVec::new(100, 200);
    assert_eq!(window_pos(anchor, 0), GridVec::new(92, 192));
    assert_eq!(window_pos(anchor, 16), GridVec::new(108, 192));
    assert_eq!(window_pos(anchor, 17), GridVec::new(92, 193));
    assert_eq!(window_pos(anchor, 144), anchor);
    assert_eq!(window_pos(anchor, 288), GridVec::new(108, 208));
}

#[test]
fn groups_take_the_first_free_tiles_in_turn() {
    let anchor = GridVec::new(100, 200);
    let player = GridVec::new(150, 200);
    let free = tiles(&[3, 20, 40, 288]);
    let group = place_group(Gang::Police, anchor, 3, player, &free);
    assert_eq!(
        group,
        vec![
            MonsterSpawn { gang: Gang::Police, template: 4, pos: window_pos(anchor, 3) },
            MonsterSpawn { gang: Gang::Police, template: 5, pos: window_pos(anchor, 20) },
            MonsterSpawn { gang: Gang::Police, template: 4, pos: window_pos(anchor, 40) },
        ]
    );
    assert_eq!(place_group(Gang::Police, anchor, 8, player, &free).len(), 4);
    assert!(place_group(Gang::Police, anchor, 0, player, &free).is_empty());
    assert!(place_group(Gang::Police, anchor, -1, player, &free).is_empty());
}

#[test]
fn noise_can_keep_tiles_free() {
    let mut some = tiles(&[3, 20]);
    some[3].taken = false;
    let anchor = GridVec::new(100, 200);
    let group = place_group(Gang::Vaqueros, anchor, 5, GridVec::new(150, 200), &some);
    let found = MonsterSpawn { gang: Gang::Vaqueros, template: 0, pos: window_pos(anchor, 20) };
    assert_eq!(group, vec![found]);
}

#[test]
fn groups_keep_clear_of_the_player() {
    let all: Vec<usize> = (0..289).collect();
    let anchor = GridVec::new(100, 200);
    for monster in place_group(Gang::Outlaws, anchor, 289, anchor, &tiles(&all)) {
        assert!(monster.pos.distance_squared(anchor) >= 64);
    }
}

#[test]
fn only_civilians_live_far_away() {
    let all: Vec<usize> = (0..289).collect();
    let anchor = GridVec::new(500, 200);
    let player = GridVec::new(349, 200);
    let far = place_group(Gang::Civilians, anchor, 289, player, &tiles(&all));
    assert_eq!(far.len(), 289);
    let near = place_group(Gang::Lawmen, anchor, 289, player, &tiles(&all));
    assert!(near.len() < 289);
    for monster in near {
        assert!(monster.pos.distance_squared(player) <= 22_500);
    }
}

#[test]
fn the_town_is_the_sum_of_its_groups() {
    let player = GridVec::new(400, 280);
    let survey = |n: usize| GroupSurvey {
        shift: GridVec::new(-70, 0),
        bonus: 0,
        tiles: tiles(&[n, n + 1]),
    };
    let surveys: Vec<GroupSurvey> = (0..76).map(survey).collect();
    let monsters = do_spawn_monsters(5, 800, 560, player, &surveys);
    assert_eq!(monsters.len(), 152);
    assert_eq!(monsters[0].template, 2);
    assert_eq!(monsters[1].template, 3);
    assert_eq!(monsters[1].gang, Gang::Apache);
    assert_eq!(monsters[150].gang, Gang::Lawmen);
    assert_eq!(monsters[150].template, 8);
    assert_eq!(monsters[151].pos, window_pos(GridVec::new(330, 280), 76));
    assert_eq!(group_size(3), 8);
}

#[test]
fn the_town_has_room_for_608() {
    let all: Vec<usize> = (0..289).collect();
    let player = GridVec::new(60, 60);
    let survey = |n: i32| GroupSurvey {
        shift: GridVec::new(if n % 2 == 0 { -150 } else { 150 }, 4 * n - 150),
        bonus: 3,
        tiles: tiles(&all),
    };
    let surveys: Vec<GroupSurvey> = (0..76).map(survey).collect();
    let monsters = do_spawn_monsters(5, 120, 120, player, &surveys);
    assert_eq!(monsters.len(), 608);
    for monster in monsters {
        assert!(2 <= monster.pos.x && monster.pos.x <= 118);
        assert!(2 <= monster.pos.y && monster.pos.y <= 118);
        assert!(monster.pos.distance_squared(player) >= 64);
        assert!(monster.gang.templates().contains(&monster.template));
    }
}

#[test]
fn seeds_come_from_the_player_or_the_clock() {
    assert_eq!(initial_seed(Some(7), Some(1234)), 7);
    assert_eq!(initial_seed(None, Some(1234)), 1234);
    assert_eq!(initial_seed(None, Some((1 << 64) + 5)), 5);
    assert_eq!(initial_seed(None, None), 42);
}

#[test]
fn restarts_are_taken_up_once() {
    let mut requested = true;
    assert_eq!(take_restart(&mut requested, 9, Some((3 << 64) + 8)), Some(8));
    assert!(!requested);
    assert_eq!(take_restart(&mut requested, 9, Some(8)), None);
    requested = true;
    assert_eq!(take_restart(&mut requested, u64::MAX, None), Some(0));
}

#[test]
fn a_restart_forgets_the_last_game() {
    let fresh = InputState {
        mode: InputMode::Game,
        welcome_visible: true,
        ability_stamina_pending: 0,
        reload_pending: false,
    };
    let mut session = Session {
        seed: 1,
        combat_log: vec!["You wait...".to_string()],
        kill_count: 3,
        turn_counter: 4,
        spell_particles: vec![1u8],
        input_state: InputState { mode: InputMode::EscMenu, reload_pending: true, ..fresh },
        next_game_state: None,
        camera: GridVec::new(1, 1),
        cursor: GridVec::new(2, 2),
        ammunition: Caliber::Cal31,
        extra_world_ticks: 5,
        blood_stains: vec![2u8],
        spectating: true,
        god_mode: true,
        rng_ticks: 77,
        star_level: 5,
        prop_health: vec![3u8],
        death_fade_frames: 6,
    };
    let place = sites(None, Some(GridVec::new(410, 270)));
    let defaults = SessionDefaults { input_state: fresh, star_level: 1 };
    // Without an answer the game goes on.
    let before = format!("{:?}", session);
    assert!(restart_system(&mut session, None, &place, &BALLISTICS, 100, &defaults).is_none());
    assert_eq!(format!("{:?}", session), before);
    let entry = restart_system(&mut session, Some(99), &place, &BALLISTICS, 100, &defaults);
    let spawn = entry.unwrap();
    assert_eq!(spawn.player.speed, 100);
    assert_eq!(spawn.player.pos, GridVec::new(410, 270));
    assert_eq!(session.camera, spawn.player.pos);
    assert_eq!(session.cursor, spawn.player.pos);
    assert_eq!(session.ammunition, spawn.caliber);
    assert_eq!(session.seed, 99);
    assert!(session.combat_log.is_empty());
    assert_eq!((session.kill_count, session.turn_counter, session.extra_world_ticks), (0, 0, 0));
    assert!(session.spell_particles.is_empty());
    assert!(session.blood_stains.is_empty());
    assert!(session.prop_health.is_empty());
    assert_eq!(session.input_state, fresh);
    assert_eq!(session.next_game_state, Some(GameState::Playing));
    assert!(!session.spectating && !session.god_mode);
    assert_eq!((session.rng_ticks, session.star_level, session.death_fade_frames), (0, 1, 0));
}

#[test]
fn the_first_game_begins_on_the_player() {
    let fresh = InputState {
        mode: InputMode::Game,
        welcome_visible: true,
        ability_stamina_pending: 0,
        reload_pending: false,
    };
    let defaults = SessionDefaults { input_state: fresh, star_level: 2 };
    let session: Session<u8, u8, u8> =
        first_session(7, &sites(None, None), &BALLISTICS, 100, &defaults);
    assert_eq!(session.seed, 7);
    assert_eq!(session.camera, GridVec::new(400, 280));
    assert_eq!(session.cursor, GridVec::new(400, 280));
    assert_eq!(session.ammunition, Caliber::Cal44);
    assert_eq!(session.next_game_state, None);
    assert_eq!(session.input_state, fresh);
    assert_eq!(session.star_level, 2);
}
