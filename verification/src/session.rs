//! The beginning of a game, and of the next one.

use vstd::prelude::*;

use crate::gangs::wrapped;
use crate::grid::GridVec;
use crate::items::{Ballistics, Caliber};
use crate::player_spawn::{
    do_spawn_player, draw_of, gun_of, loadout, player_at, PlayerSpawn, SpawnSites,
};
use crate::state::{GameState, InputState};

verus! {

/// Seed of the map where neither the player nor the clock gives one.
pub const FALLBACK_SEED: u64 = 42;

/// The low 64 bits of a count are the count, counted round.
proof fn lemma_low_bits(n: u128)
    ensures
        n as u64 == wrapped(n as int),
{
    assert(n as u64 == n % 0x1_0000_0000_0000_0000) by (bit_vector);
}

/// Seed of the first map: the one that was asked for, or else the milliseconds on the clock,
/// for a unique experience each playthrough.
pub fn initial_seed(chosen: Option<u64>, millis: Option<u128>) -> (seed: u64)
    ensures
        seed == match (chosen, millis) {
            (Some(seed), _) => seed,
            (None, Some(count)) => wrapped(count as int),
            (None, None) => FALLBACK_SEED,
        },
        chosen matches Some(given) ==> seed == given,
        chosen is None ==> (millis matches Some(count) ==> seed as int == count as int
            % 0x1_0000_0000_0000_0000),
        chosen is None && millis is None ==> seed == 42,
{
    match chosen {
        Some(seed) => seed,
        None => match millis {
            Some(count) => {
                proof {
                    lemma_low_bits(count);
                }
                count as u64
            },
            None => FALLBACK_SEED,
        },
    }
}

/// Seed of the next map: the nanoseconds on the clock, or else the seed behind the last one.
pub open spec fn next_seed(seed: u64, nanos: Option<u128>) -> u64 {
    match nanos {
        Some(count) => wrapped(count as int),
        None => wrapped(seed + 1),
    }
}

/// Takes up a request for a new game. The answer is the seed of its map, if there is one.
pub fn take_restart(requested: &mut bool, seed: u64, nanos: Option<u128>) -> (next: Option<u64>)
    ensures
        !*final(requested),
        next == if *old(requested) {
            Some(next_seed(seed, nanos))
        } else {
            None
        },
        next is Some <==> *old(requested),
        next matches Some(new_seed) ==> {
            &&& nanos matches Some(count) ==> new_seed as int == count as int
                % 0x1_0000_0000_0000_0000
            &&& nanos is None ==> new_seed as int == (seed + 1) % 0x1_0000_0000_0000_0000
        },
{
    if !*requested {
        return None;
    }
    *requested = false;
    match nanos {
        Some(count) => {
            proof {
                lemma_low_bits(count);
            }
            Some(count as u64)
        },
        None => Some(seed.wrapping_add(1)),
    }
}

/// With a clock the next map is that of its reading, whatever the last map was: it is the same
/// after any two maps, and two readings that differ in their low 64 bits give two maps.
pub proof fn next_map_is_that_of_the_clock(seed: u64, other: u64, nanos: u128, later: u128)
    ensures
        next_seed(seed, Some(nanos)) as int == nanos as int % 0x1_0000_0000_0000_0000,
        next_seed(seed, Some(nanos)) == next_seed(other, Some(nanos)),
        nanos as int % 0x1_0000_0000_0000_0000 != later as int % 0x1_0000_0000_0000_0000
            ==> next_seed(seed, Some(nanos)) != next_seed(other, Some(later)),
{
}

/// Without a clock the maps follow each other in the order of their seeds, and the first
/// follows the last.
pub proof fn maps_follow_each_other(seed: u64)
    ensures
        seed < u64::MAX ==> next_seed(seed, None) == seed + 1,
        seed == u64::MAX ==> next_seed(seed, None) == 0,
{
}

/// Without a clock, too, the next map differs from the last one.
pub proof fn next_map_differs(seed: u64)
    ensures
        next_seed(seed, None) != seed,
{
}

/// What belongs to one game and not to the next: particles of type `P`, blood stains of type
/// `B` and damaged props of type `H` among it.
#[derive(Debug)]
pub struct Session<P, B, H> {
    pub seed: u64,
    pub combat_log: Vec<String>,
    pub kill_count: u32,
    pub turn_counter: u32,
    pub spell_particles: Vec<P>,
    pub input_state: InputState,
    /// `None` where no change of game state is queued.
    pub next_game_state: Option<GameState>,
    pub camera: GridVec,
    pub cursor: GridVec,
    /// Caliber of the ammunition that the player has.
    pub ammunition: Caliber,
    pub extra_world_ticks: u32,
    pub blood_stains: Vec<B>,
    pub spectating: bool,
    pub god_mode: bool,
    /// How often the dice were advanced.
    pub rng_ticks: u64,
    pub star_level: u32,
    pub prop_health: Vec<H>,
    pub death_fade_frames: u32,
}

/// What the input phase remembers, and how much attention the player gets, when a game
/// begins.
#[derive(Clone, Copy, Debug, PartialEq, Eq)]
pub struct SessionDefaults {
    pub input_state: InputState,
    pub star_level: u32,
}

/// Nothing of an earlier game is left in `session`; it is the beginning of the game on the map
/// with the seed `seed`.
pub open spec fn is_fresh<P, B, H>(
    session: Session<P, B, H>,
    seed: u64,
    sites: SpawnSites,
    defaults: SessionDefaults,
) -> bool {
    &&& session.seed == seed
    &&& session.combat_log@.len() == 0
    &&& session.kill_count == 0
    &&& session.turn_counter == 0
    &&& session.spell_particles@.len() == 0
    &&& session.input_state == defaults.input_state
    &&& session.camera == sites.choice()
    &&& session.cursor == sites.choice()
    &&& session.ammunition == gun_of(draw_of(sites.choice())).caliber
    &&& session.extra_world_ticks == 0
    &&& session.blood_stains@.len() == 0
    &&& !session.spectating
    &&& !session.god_mode
    &&& session.rng_ticks == 0
    &&& session.star_level == defaults.star_level
    &&& session.prop_health@.len() == 0
    &&& session.death_fade_frames == 0
}

/// The first game, on the map with the seed `seed`, where `sites` were found. Its player comes
/// from [`do_spawn_player`].
pub fn first_session<P, B, H>(
    seed: u64,
    sites: &SpawnSites,
    ballistics: &Ballistics,
    action_cost: i32,
    defaults: &SessionDefaults,
) -> (session: Session<P, B, H>)
    ensures
        is_fresh(session, seed, *sites, *defaults),
        session.next_game_state is None,
{
    let spawn = do_spawn_player(sites, ballistics, action_cost);
    Session {
        seed,
        combat_log: Vec::new(),
        kill_count: 0,
        turn_counter: 0,
        spell_particles: Vec::new(),
        input_state: defaults.input_state,
        next_game_state: None,
        camera: sites.player_spawn(),
        cursor: sites.player_spawn(),
        ammunition: spawn.caliber,
        extra_world_ticks: 0,
        blood_stains: Vec::new(),
        spectating: false,
        god_mode: false,
        rng_ticks: 0,
        star_level: defaults.star_level,
        prop_health: Vec::new(),
        death_fade_frames: 0,
    }
}

/// Begins a new game where `answer`, which comes from [`take_restart`], holds the seed of its
/// map, and decides how the player enters it. Without an answer the game goes on as it is.
/// `sites` were found on the map of the game that is to be played.
pub fn restart_system<P, B, H>(
    session: &mut Session<P, B, H>,
    answer: Option<u64>,
    sites: &SpawnSites,
    ballistics: &Ballistics,
    action_cost: i32,
    defaults: &SessionDefaults,
) -> (entry: Option<PlayerSpawn>)
    ensures
        entry is Some <==> answer is Some,
        answer is None ==> *final(session) == *old(session),
        answer matches Some(seed) ==> {
            &&& is_fresh(*final(session), seed, *sites, *defaults)
            &&& final(session).next_game_state == Some(GameState::Playing)
        },
        entry matches Some(spawn) ==> {
            &&& spawn.player == player_at(sites.choice(), action_cost)
            &&& spawn.items@ == loadout(sites.choice(), *ballistics)
            &&& spawn.visible_tiles@ == Seq::<GridVec>::empty()
            &&& spawn.revealed_tiles@ == Seq::<GridVec>::empty()
            &&& spawn.caliber == final(session).ammunition
        },
{
    let seed: u64 = match answer {
        Some(seed) => seed,
        None => {
            return None;
        },
    };
    let spawn = do_spawn_player(sites, ballistics, action_cost);
    session.seed = seed;
    session.combat_log.clear();
    session.kill_count = 0;
    session.turn_counter = 0;
    session.spell_particles.clear();
    session.input_state = defaults.input_state;
    session.camera = sites.player_spawn();
    session.cursor = sites.player_spawn();
    session.ammunition = spawn.caliber;
    session.extra_world_ticks = 0;
    session.blood_stains.clear();
    session.spectating = false;
    session.god_mode = false;
    session.rng_ticks = 0;
    session.star_level = defaults.star_level;
    session.prop_health.clear();
    session.death_fade_frames = 0;
    session.next_game_state = Some(GameState::Playing);
    Some(spawn)
}

/// Of a game that begins on the map with the seed `seed` nothing is left of an earlier one: not
/// a line, a count, a particle, a stain or a broken prop, nor a cheat or a ghost who watches.
/// What there is starts where the player does.
pub proof fn nothing_is_left_of_the_last_game<P, B, H>(
    session: Session<P, B, H>,
    seed: u64,
    sites: SpawnSites,
    defaults: SessionDefaults,
)
    requires
        is_fresh(session, seed, sites, defaults),
    ensures
        session.seed == seed,
        session.combat_log@.len() == 0,
        session.kill_count == 0,
        session.turn_counter == 0,
        session.spell_particles@.len() == 0,
        session.input_state == defaults.input_state,
        session.extra_world_ticks == 0,
        session.blood_stains@.len() == 0,
        !session.spectating,
        !session.god_mode,
        session.rng_ticks == 0,
        session.star_level == defaults.star_level,
        session.prop_health@.len() == 0,
        session.death_fade_frames == 0,
        session.camera == session.cursor,
        sites.interior matches Some(pos) ==> session.camera == pos,
        sites.interior is None ==> (sites.open matches Some(pos) ==> session.camera == pos),
        sites.interior is None && sites.open is None ==> session.camera == sites.center,
{
}

/// The ammunition of a game that begins is that of the gun which the player carries.
pub proof fn game_begins_with_ammunition<P, B, H>(
    session: Session<P, B, H>,
    seed: u64,
    sites: SpawnSites,
    defaults: SessionDefaults,
    ballistics: Ballistics,
)
    requires
        is_fresh(session, seed, sites, defaults),
    ensures
        session.ammunition == loadout(session.camera, ballistics)[0].kind->caliber,
{
}

/// The camera and the cursor of a game that begins, whether it is the first or not, are on the
/// player.
pub proof fn game_begins_on_the_player<P, B, H>(
    session: Session<P, B, H>,
    seed: u64,
    sites: SpawnSites,
    defaults: SessionDefaults,
    action_cost: i32,
)
    requires
        is_fresh(session, seed, sites, defaults),
    ensures
        session.camera == player_at(sites.choice(), action_cost).pos,
        session.cursor == player_at(sites.choice(), action_cost).pos,
{
}

} // verus!
