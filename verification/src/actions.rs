//! Carries out the commands of the player.

use bevy::ecs::entity::Entity;
use vstd::prelude::*;

use crate::combat_log::LogLine;
use crate::commands::Command;
use crate::grid::{king_distance, GridVec};
use crate::intents::{
    MeleeWideIntent, MolotovCastIntent, MoveIntent, RangedAttackIntent, SpellCastIntent,
    ThrowItemIntent, UseItemIntent,
};
use crate::items::{is_double_action, thrown_damage, ItemKind};
use crate::rules::{
    after, after_auto_aim, after_blade, after_god_mode, after_grenade, after_menu, after_molotov,
    after_random_throw, after_reload, after_roundhouse, after_sand, after_slot,
    after_throw_command, after_trigger, after_walk, fits, is_nearest, nearest, thrown,
    MOVE_STAMINA_COST, RANGED_ATTACK_RANGE, ROUNDHOUSE_STAMINA_COST, SAND_RADIUS,
    SAND_STAMINA_COST, SPELL_RADIUS, THROW_ITEM_STAMINA_COST,
};
use crate::state::{Frame, GameState, InputMode, InputWorld, NextTurn, Player, TurnState};

verus! {

/// Transitions to the player's turn, ending the input phase.
pub fn advance_turn(world: &mut InputWorld)
    ensures
        final(world)@ == old(world)@.turn_taken(),
{
    if world.next_turn_state != NextTurn::Absent {
        world.next_turn_state = NextTurn::Pending(TurnState::PlayerTurn);
    }
}

/// Marks the player's field of view as due to be computed anew.
pub fn mark_viewshed_dirty(world: &mut InputWorld)
    ensures
        final(world)@ == old(world)@.view_outdated(),
{
    if world.viewshed_dirty.is_some() {
        world.viewshed_dirty = Some(true);
    }
}

/// Emits a `MoveIntent` and advances the turn.
pub fn emit_move(world: &mut InputWorld, entity: Entity, dx: i32, dy: i32)
    ensures
        final(world)@ == old(world)@.with_move(MoveIntent { entity, dx, dy }).turn_taken(),
{
    world.intents.move_intents.push(MoveIntent { entity, dx, dy });
    advance_turn(world);
}

/// Moves the cursor by `(dx, dy)`, marks the field of view, and advances the turn.
pub fn move_cursor(world: &mut InputWorld, dx: i32, dy: i32)
    requires
        old(world).cursor.sum_fits(GridVec { x: dx, y: dy }),
    ensures
        final(world)@ == old(world)@.aiming_at(old(world).cursor.plus(GridVec { x: dx, y: dy })),
{
    world.cursor = world.cursor.add(GridVec { x: dx, y: dy });
    mark_viewshed_dirty(world);
    advance_turn(world);
}

/// No two positions in a list are both the one to aim at.
proof fn lemma_nearest_unique(from: GridVec, hostiles: Seq<GridVec>, i: int, k: int)
    requires
        is_nearest(from, hostiles, i),
        is_nearest(from, hostiles, k),
    ensures
        i == k,
{
    if i < k {
        assert(king_distance(from, hostiles[k]) < king_distance(from, hostiles[i]));
    } else if k < i {
        assert(king_distance(from, hostiles[i]) < king_distance(from, hostiles[k]));
    }
}

/// The nearest of `hostiles`, seen from `from`; the first of several.
pub fn nearest_hostile(from: GridVec, hostiles: &Vec<GridVec>) -> (target: Option<GridVec>)
    requires
        forall|i: int|
            0 <= i < hostiles@.len() ==> king_distance(from, #[trigger] hostiles@[i]) <= i32::MAX,
    ensures
        target == nearest(from, hostiles@),
{
    let mut best_dist: i32 = i32::MAX;
    let mut best: Option<usize> = None;
    let mut n: usize = 0;
    while n < hostiles.len()
        invariant
            n <= hostiles@.len(),
            forall|i: int|
                0 <= i < hostiles@.len() ==> king_distance(from, #[trigger] hostiles@[i])
                    <= i32::MAX,
            forall|i: int|
                0 <= i < n ==> best_dist <= king_distance(from, #[trigger] hostiles@[i]),
            match best {
                Some(b) => {
                    &&& b < n
                    &&& best_dist == king_distance(from, hostiles@[b as int])
                    &&& best_dist < i32::MAX
                    &&& forall|i: int|
                        0 <= i < b ==> best_dist < king_distance(from, #[trigger] hostiles@[i])
                },
                None => best_dist == i32::MAX,
            },
        decreases hostiles@.len() - n,
    {
        let dist = from.chebyshev_distance(hostiles[n]);
        if dist < best_dist {
            best_dist = dist;
            best = Some(n);
        }
        n = n + 1;
    }
    match best {
        Some(b) => {
            proof {
                assert(is_nearest(from, hostiles@, b as int));
                let chosen = choose|i: int| is_nearest(from, hostiles@, i);
                lemma_nearest_unique(from, hostiles@, b as int, chosen);
            }
            Some(hostiles[b])
        },
        None => None,
    }
}

/// Opens the menu and pauses the game.
fn open_menu(frame: &Frame, world: &mut InputWorld)
    ensures
        final(world)@ == after_menu(*frame, old(world)@),
{
    world.input_state.mode = InputMode::EscMenu;
    if frame.game_state == GameState::Playing {
        world.next_game_state = Some(GameState::Paused);
    }
}

/// Moves the cursor one step toward the nearest hostile.
pub fn auto_aim(frame: &Frame, player: &Player, world: &mut InputWorld)
    requires
        fits(*frame, *player, old(world)@, Command::AutoAim),
    ensures
        final(world)@ == after_auto_aim(*frame, *player, old(world)@),
{
    match nearest_hostile(player.pos, &frame.hostiles) {
        Some(target) => {
            let step = target.sub(world.cursor).king_step();
            world.cursor = world.cursor.add(step);
            mark_viewshed_dirty(world);
            advance_turn(world);
        },
        None => {
            world.combat_log.push(LogLine::NoEnemiesVisible);
        },
    }
}

/// Walks one tile: three ticks and some stamina.
fn walk(player: &Player, world: &mut InputWorld, dx: i32, dy: i32)
    ensures
        final(world)@ == after_walk(*player, old(world)@, dx, dy),
{
    world.extra_world_ticks = 2;
    world.input_state.ability_stamina_pending = MOVE_STAMINA_COST;
    emit_move(world, player.entity, dx, dy);
}

/// Reloads the gun: six ticks.
fn reload(world: &mut InputWorld)
    ensures
        final(world)@ == after_reload(old(world)@),
{
    world.extra_world_ticks = 5;
    world.input_state.reload_pending = true;
    advance_turn(world);
}

/// Kicks everyone around: two ticks and stamina.
pub fn roundhouse(player: &Player, world: &mut InputWorld)
    ensures
        final(world)@ == after_roundhouse(*player, old(world)@),
{
    if !player.has_stamina(ROUNDHOUSE_STAMINA_COST) {
        world.combat_log.push(LogLine::NoStaminaForRoundhouse);
    } else {
        world.extra_world_ticks = 1;
        world.input_state.ability_stamina_pending = ROUNDHOUSE_STAMINA_COST;
        world.intents.melee_wide_intents.push(MeleeWideIntent { attacker: player.entity });
        advance_turn(world);
    }
}

/// Throws a cloud of sand that blocks the view: one tick and stamina.
pub fn throw_sand(frame: &Frame, player: &Player, world: &mut InputWorld)
    requires
        fits(*frame, *player, old(world)@, Command::ThrowSand),
    ensures
        final(world)@ == after_sand(*player, old(world)@),
{
    if !player.has_stamina(SAND_STAMINA_COST) {
        world.combat_log.push(LogLine::NoStamina);
        return;
    }
    let delta = world.cursor.sub(player.pos);
    if delta.x == 0 && delta.y == 0 {
        world.combat_log.push(LogLine::CursorOnPlayer);
        return;
    }
    let step = delta.king_step();
    let center = player.pos.add(GridVec { x: step.x * 2, y: step.y * 2 });
    world.intents.spell_intents.push(
        SpellCastIntent {
            caster: player.entity,
            radius: SAND_RADIUS,
            target: center,
            grenade_index: usize::MAX,
        },
    );
    world.input_state.ability_stamina_pending = SAND_STAMINA_COST;
    world.combat_log.push(LogLine::SandThrown);
    world.extra_world_ticks = 0;
    advance_turn(world);
}

/// Throws the item under `item_index` along `delta`, from the player to the cursor.
fn throw_item(
    frame: &Frame,
    player: &Player,
    world: &mut InputWorld,
    delta: GridVec,
    item_entity: Entity,
    item_index: usize,
    damage: i32,
)
    requires
        delta == old(world).cursor.minus(player.pos),
    ensures
        final(world)@ == thrown(*frame, *player, old(world)@, item_entity, item_index, damage),
{
    world.intents.throw_item_intents.push(
        ThrowItemIntent {
            thrower: player.entity,
            item_entity,
            item_index,
            dx: delta.x,
            dy: delta.y,
            range: frame.thrown_range,
            damage,
        },
    );
    world.extra_world_ticks = 1;
    advance_turn(world);
}

/// Throws the inventory item that was drawn toward the cursor.
pub fn handle_throw_random(frame: &Frame, player: &Player, world: &mut InputWorld)
    requires
        old(world).cursor.difference_fits(player.pos),
        player.inventory matches Some(slots) ==> slots@.len() > 0 && old(world).cursor
            != player.pos ==> frame.drawn_slot < slots@.len(),
    ensures
        final(world)@ == after_random_throw(*frame, *player, old(world)@),
{
    let delta = world.cursor.sub(player.pos);
    if delta.x == 0 && delta.y == 0 {
        world.combat_log.push(LogLine::CursorOnPlayer);
        return;
    }
    match &player.inventory {
        None => {
            world.combat_log.push(LogLine::NoInventory);
        },
        Some(slots) => {
            if slots.len() == 0 {
                world.combat_log.push(LogLine::InventoryEmpty);
            } else {
                let slot = &slots[frame.drawn_slot];
                let damage = thrown_damage(&slot.kind);
                throw_item(frame, player, world, delta, slot.entity, frame.drawn_slot, damage);
            }
        },
    }
}

/// Sets the stamina for a throw aside and throws what was drawn.
pub fn throw_random(frame: &Frame, player: &Player, world: &mut InputWorld)
    requires
        fits(*frame, *player, old(world)@, Command::ThrowRandom),
    ensures
        final(world)@ == after_throw_command(*frame, *player, old(world)@),
{
    if !player.has_stamina(THROW_ITEM_STAMINA_COST) {
        world.combat_log.push(LogLine::NoStaminaToThrow);
    } else {
        world.input_state.ability_stamina_pending = THROW_ITEM_STAMINA_COST;
        handle_throw_random(frame, player, world);
    }
}

/// Makes the player invincible, or mortal again.
fn toggle_god_mode(world: &mut InputWorld)
    ensures
        final(world)@ == after_god_mode(old(world)@),
{
    world.god_mode = !world.god_mode;
    if world.god_mode {
        world.combat_log.push(LogLine::GodModeEnabled);
    } else {
        world.combat_log.push(LogLine::GodModeDisabled);
    }
}

/// Pulls the trigger of a gun.
fn fire(player: &Player, world: &mut InputWorld, gun: Entity, loaded: i32, name: &str)
    requires
        loaded > 0 ==> old(world).cursor.difference_fits(player.pos),
    ensures
        final(world)@ == after_trigger(*player, old(world)@, gun, loaded, name@),
{
    if loaded <= 0 {
        world.combat_log.push(LogLine::GunEmpty);
        return;
    }
    let delta = world.cursor.sub(player.pos);
    if delta.x == 0 && delta.y == 0 {
        world.combat_log.push(LogLine::CursorOnPlayer);
        return;
    }
    world.extra_world_ticks = if is_double_action(name) {
        0
    } else {
        1
    };
    world.intents.ranged_intents.push(
        RangedAttackIntent {
            attacker: player.entity,
            range: RANGED_ATTACK_RANGE,
            dx: delta.x,
            dy: delta.y,
            gun_item: Some(gun),
        },
    );
    advance_turn(world);
}

/// Throws a knife or a tomahawk.
fn throw_blade(
    frame: &Frame,
    player: &Player,
    world: &mut InputWorld,
    blade: Entity,
    index: usize,
    attack: i32,
)
    requires
        old(world).cursor.difference_fits(player.pos),
    ensures
        final(world)@ == after_blade(*frame, *player, old(world)@, blade, index, attack),
{
    let delta = world.cursor.sub(player.pos);
    if delta.x == 0 && delta.y == 0 {
        world.combat_log.push(LogLine::CursorOnPlayer);
    } else {
        throw_item(frame, player, world, delta, blade, index, attack);
    }
}

/// Throws a grenade at the cursor.
fn throw_grenade(frame: &Frame, player: &Player, world: &mut InputWorld, index: usize)
    ensures
        final(world)@ == after_grenade(*frame, *player, old(world)@, index),
{
    if !player.has_stamina(frame.spell_stamina_cost) {
        world.combat_log.push(LogLine::NoStamina);
    } else {
        world.extra_world_ticks = 1;
        let target = world.cursor;
        world.intents.spell_intents.push(
            SpellCastIntent {
                caster: player.entity,
                radius: SPELL_RADIUS,
                target,
                grenade_index: index,
            },
        );
        advance_turn(world);
    }
}

/// Throws a molotov at the cursor.
fn throw_molotov(
    frame: &Frame,
    player: &Player,
    world: &mut InputWorld,
    index: usize,
    radius: i32,
    damage: i32,
)
    ensures
        final(world)@ == after_molotov(*frame, *player, old(world)@, index, radius, damage),
{
    if !player.has_stamina(frame.spell_stamina_cost) {
        world.combat_log.push(LogLine::NoStamina);
    } else {
        world.extra_world_ticks = 1;
        let target = world.cursor;
        world.intents.molotov_intents.push(
            MolotovCastIntent {
                caster: player.entity,
                radius,
                damage,
                target,
                item_index: index,
            },
        );
        advance_turn(world);
    }
}

/// Uses whatever is in the slot under `index`.
pub fn use_slot(frame: &Frame, player: &Player, world: &mut InputWorld, index: usize)
    requires
        fits(*frame, *player, old(world)@, Command::UseSlot { index }),
    ensures
        final(world)@ == after_slot(*frame, *player, old(world)@, index),
{
    if let Some(slot) = player.slot(index) {
        match &slot.kind {
            Some(ItemKind::Gun { loaded, name, .. }) => {
                fire(player, world, slot.entity, *loaded, name.as_str());
                return;
            },
            Some(ItemKind::Knife { attack, .. }) => {
                throw_blade(frame, player, world, slot.entity, index, *attack);
                return;
            },
            Some(ItemKind::Tomahawk { attack, .. }) => {
                throw_blade(frame, player, world, slot.entity, index, *attack);
                return;
            },
            Some(ItemKind::Grenade { .. }) => {
                throw_grenade(frame, player, world, index);
                return;
            },
            Some(ItemKind::Molotov { damage, radius, .. }) => {
                throw_molotov(frame, player, world, index, *radius, *damage);
                return;
            },
            Some(_) => {
                world.extra_world_ticks = 1;
            },
            None => {},
        }
    }
    world.intents.use_item_intents.push(UseItemIntent { user: player.entity, item_index: index });
    advance_turn(world);
}

/// Carries out a command.
pub fn perform(frame: &Frame, player: &Player, world: &mut InputWorld, command: Command)
    requires
        fits(*frame, *player, old(world)@, command),
    ensures
        final(world)@ == after(*frame, *player, old(world)@, command),
{
    match command {
        Command::OpenMenu => open_menu(frame, world),
        Command::Cursor { dx, dy } => move_cursor(world, dx, dy),
        Command::CenterCursor => {
            world.cursor = player.pos;
            mark_viewshed_dirty(world);
            advance_turn(world);
        },
        Command::AutoAim => auto_aim(frame, player, world),
        Command::Walk { dx, dy } => walk(player, world, dx, dy),
        Command::Wait => {
            world.combat_log.push(LogLine::Wait);
            advance_turn(world);
        },
        Command::Reload => reload(world),
        Command::Roundhouse => roundhouse(player, world),
        Command::ThrowSand => throw_sand(frame, player, world),
        Command::ThrowRandom => throw_random(frame, player, world),
        Command::ToggleGodMode => toggle_god_mode(world),
        Command::UseSlot { index } => use_slot(frame, player, world, index),
    }
}

/// Whether a command can be carried out within the limits of `i32` and of the inventory.
pub fn command_fits(
    frame: &Frame,
    player: &Player,
    world: &InputWorld,
    command: Command,
) -> (b: bool)
    ensures
        b == fits(*frame, *player, world@, command),
{
    match command {
        Command::Cursor { dx, dy } => world.cursor.can_add(GridVec { x: dx, y: dy }),
        Command::AutoAim => {
            let mut n: usize = 0;
            while n < frame.hostiles.len()
                invariant
                    n <= frame.hostiles@.len(),
                    command == Command::AutoAim,
                    forall|i: int|
                        0 <= i < n ==> king_distance(player.pos, #[trigger] frame.hostiles@[i])
                            <= i32::MAX,
                decreases frame.hostiles@.len() - n,
            {
                if !player.pos.can_measure(frame.hostiles[n]) {
                    assert(king_distance(player.pos, frame.hostiles@[n as int]) > i32::MAX);
                    return false;
                }
                n = n + 1;
            }
            match nearest_hostile(player.pos, &frame.hostiles) {
                Some(target) => target.can_sub(world.cursor),
                None => true,
            }
        },
        Command::ThrowSand => {
            if !player.has_stamina(SAND_STAMINA_COST) {
                true
            } else if !world.cursor.can_sub(player.pos) {
                false
            } else {
                let step = world.cursor.sub(player.pos).king_step();
                player.pos.can_add(GridVec { x: step.x * 2, y: step.y * 2 })
            }
        },
        Command::ThrowRandom => {
            if !player.has_stamina(THROW_ITEM_STAMINA_COST) {
                true
            } else if !world.cursor.can_sub(player.pos) {
                false
            } else {
                let delta = world.cursor.sub(player.pos);
                match &player.inventory {
                    Some(slots) => (delta.x == 0 && delta.y == 0) || slots.len() == 0
                        || frame.drawn_slot < slots.len(),
                    None => true,
                }
            }
        },
        Command::UseSlot { index } => match player.slot(index) {
            Some(slot) => match &slot.kind {
                Some(ItemKind::Gun { loaded, .. }) => *loaded <= 0 || world.cursor.can_sub(
                    player.pos,
                ),
                Some(ItemKind::Knife { .. }) => world.cursor.can_sub(player.pos),
                Some(ItemKind::Tomahawk { .. }) => world.cursor.can_sub(player.pos),
                _ => true,
            },
            None => true,
        },
        _ => true,
    }
}

/// Keeps the draw for a blind throw apart from other draws.
pub const THROW_SALT: u64 = 0x7000;

/// A draw that the dice are asked for: an index below `len`.
#[derive(Clone, Copy, Debug, PartialEq, Eq)]
pub struct DrawRequest {
    pub seed: u64,
    pub salt: u64,
    pub len: usize,
}

/// The draw that a blind throw needs on the map with the seed `seed`, where there is anything
/// to throw.
pub fn throw_draw(player: &Player, seed: u64) -> (request: Option<DrawRequest>)
    ensures
        match player.inventory {
            Some(slots) => request == if slots@.len() > 0 {
                Some(DrawRequest { seed, salt: THROW_SALT, len: slots@.len() as usize })
            } else {
                None
            },
            None => request is None,
        },
{
    match &player.inventory {
        Some(slots) => if slots.len() > 0 {
            Some(DrawRequest { seed, salt: THROW_SALT, len: slots.len() })
        } else {
            None
        },
        None => None,
    }
}

} // verus!
