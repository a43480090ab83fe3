//! What each command does, as functions on [`InputModel`].

use bevy::ecs::entity::Entity;
use vstd::prelude::*;

use crate::combat_log::LogLine;
use crate::commands::{command_of, windowed_command, Command};
use crate::grid::{king_distance, GridVec};
use crate::intents::{
    IntentModel, MeleeWideIntent, MolotovCastIntent, MoveIntent, RangedAttackIntent,
    SpellCastIntent, ThrowItemIntent, UseItemIntent,
};
use crate::items::{double_action_name, improvised_damage, ItemKind};
use crate::keys::{PhysicalKey, TermKey};
use crate::state::{
    Frame, GameState, InputMode, InputModel, InputState, ItemSlot, NextTurn, Player, TurnState,
};

verus! {

/// Default radius for the player's grenade blast.
pub const SPELL_RADIUS: i32 = 3;

/// Range for the targeted ranged attack (bullet max travel distance).
pub const RANGED_ATTACK_RANGE: i32 = 100;

/// Radius of a cloud of sand.
pub const SAND_RADIUS: i32 = 2;

/// Stamina cost for the Throw Sand ability (G key).
pub const SAND_STAMINA_COST: i32 = 5;

/// Stamina cost for the Throw Item ability (E key).
pub const THROW_ITEM_STAMINA_COST: i32 = 10;

/// Stamina cost for the Roundhouse ability (F key).
pub const ROUNDHOUSE_STAMINA_COST: i32 = 10;

/// Stamina cost per tile of movement (WASD / arrows).
pub const MOVE_STAMINA_COST: i32 = 2;

/// Single changes.
impl InputModel {
    pub open spec fn logging(self, line: LogLine) -> InputModel {
        InputModel { combat_log: self.combat_log.push(line), ..self }
    }

    /// The player's turn begins, where there are turns.
    pub open spec fn turn_taken(self) -> InputModel {
        InputModel {
            next_turn_state: match self.next_turn_state {
                NextTurn::Absent => NextTurn::Absent,
                _ => NextTurn::Pending(TurnState::PlayerTurn),
            },
            ..self
        }
    }

    /// The field of view is due, where there is one.
    pub open spec fn view_outdated(self) -> InputModel {
        InputModel {
            viewshed_dirty: match self.viewshed_dirty {
                Some(_) => Some(true),
                None => None,
            },
            ..self
        }
    }

    /// The cursor stands on `pos`, which takes the player's turn.
    pub open spec fn aiming_at(self, pos: GridVec) -> InputModel {
        InputModel { cursor: pos, ..self }.view_outdated().turn_taken()
    }

    pub open spec fn taking_ticks(self, extra: u32) -> InputModel {
        InputModel { extra_world_ticks: extra, ..self }
    }

    pub open spec fn taking_stamina(self, cost: i32) -> InputModel {
        InputModel {
            input_state: InputState { ability_stamina_pending: cost, ..self.input_state },
            ..self
        }
    }

    pub open spec fn in_mode(self, mode: InputMode) -> InputModel {
        InputModel { input_state: InputState { mode, ..self.input_state }, ..self }
    }

    pub open spec fn welcomed(self) -> InputModel {
        InputModel {
            input_state: InputState { welcome_visible: false, ..self.input_state },
            ..self
        }
    }

    pub open spec fn with_move(self, intent: MoveIntent) -> InputModel {
        InputModel {
            intents: IntentModel { moves: self.intents.moves.push(intent), ..self.intents },
            ..self
        }
    }

    pub open spec fn with_spell(self, intent: SpellCastIntent) -> InputModel {
        InputModel {
            intents: IntentModel { spells: self.intents.spells.push(intent), ..self.intents },
            ..self
        }
    }

    pub open spec fn with_molotov(self, intent: MolotovCastIntent) -> InputModel {
        InputModel {
            intents: IntentModel { molotovs: self.intents.molotovs.push(intent), ..self.intents },
            ..self
        }
    }

    pub open spec fn with_use(self, intent: UseItemIntent) -> InputModel {
        InputModel {
            intents: IntentModel { uses: self.intents.uses.push(intent), ..self.intents },
            ..self
        }
    }

    pub open spec fn with_shot(self, intent: RangedAttackIntent) -> InputModel {
        InputModel {
            intents: IntentModel { shots: self.intents.shots.push(intent), ..self.intents },
            ..self
        }
    }

    pub open spec fn with_kick(self, intent: MeleeWideIntent) -> InputModel {
        InputModel {
            intents: IntentModel { kicks: self.intents.kicks.push(intent), ..self.intents },
            ..self
        }
    }

    pub open spec fn with_throw(self, intent: ThrowItemIntent) -> InputModel {
        InputModel {
            intents: IntentModel { throws: self.intents.throws.push(intent), ..self.intents },
            ..self
        }
    }
}

/// `hostiles[i]` is the one to aim at from `from`: no other is nearer, and those before it in
/// the list are farther away. A distance of `i32::MAX` is out of reach.
pub open spec fn is_nearest(from: GridVec, hostiles: Seq<GridVec>, i: int) -> bool {
    &&& 0 <= i < hostiles.len()
    &&& king_distance(from, hostiles[i]) < i32::MAX
    &&& forall|j: int|
        0 <= j < hostiles.len() ==> king_distance(from, hostiles[i]) <= king_distance(
            from,
            #[trigger] hostiles[j],
        )
    &&& forall|j: int|
        0 <= j < i ==> king_distance(from, hostiles[i]) < king_distance(
            from,
            #[trigger] hostiles[j],
        )
}

/// The position to aim at from `from`, where there is any in reach.
pub open spec fn nearest(from: GridVec, hostiles: Seq<GridVec>) -> Option<GridVec> {
    if exists|i: int| is_nearest(from, hostiles, i) {
        Some(hostiles[choose|i: int| is_nearest(from, hostiles, i)])
    } else {
        None
    }
}

/// From the player to the cursor.
pub open spec fn aim(player: Player, m: InputModel) -> GridVec {
    m.cursor.minus(player.pos)
}

pub open spec fn after_menu(frame: Frame, m: InputModel) -> InputModel {
    InputModel {
        next_game_state: if frame.game_state == GameState::Playing {
            Some(GameState::Paused)
        } else {
            m.next_game_state
        },
        ..m.in_mode(InputMode::EscMenu)
    }
}

pub open spec fn after_auto_aim(frame: Frame, player: Player, m: InputModel) -> InputModel {
    match nearest(player.pos, frame.hostiles@) {
        Some(target) => m.aiming_at(m.cursor.plus(target.minus(m.cursor).toward())),
        None => m.logging(LogLine::NoEnemiesVisible),
    }
}

pub open spec fn after_walk(player: Player, m: InputModel, dx: i32, dy: i32) -> InputModel {
    m.taking_ticks(2).taking_stamina(MOVE_STAMINA_COST).with_move(
        MoveIntent { entity: player.entity, dx, dy },
    ).turn_taken()
}

pub open spec fn after_reload(m: InputModel) -> InputModel {
    InputModel {
        input_state: InputState { reload_pending: true, ..m.input_state },
        ..m.taking_ticks(5)
    }.turn_taken()
}

pub open spec fn after_roundhouse(player: Player, m: InputModel) -> InputModel {
    if !player.affords(ROUNDHOUSE_STAMINA_COST as int) {
        m.logging(LogLine::NoStaminaForRoundhouse)
    } else {
        m.taking_ticks(1).taking_stamina(ROUNDHOUSE_STAMINA_COST).with_kick(
            MeleeWideIntent { attacker: player.entity },
        ).turn_taken()
    }
}

/// Where a handful of sand comes down: two steps from the player toward the cursor.
pub open spec fn sand_center(player: Player, m: InputModel) -> GridVec {
    player.pos.plus(aim(player, m).toward().doubled())
}

pub open spec fn after_sand(player: Player, m: InputModel) -> InputModel {
    if !player.affords(SAND_STAMINA_COST as int) {
        m.logging(LogLine::NoStamina)
    } else if aim(player, m).is_zero() {
        m.logging(LogLine::CursorOnPlayer)
    } else {
        m.with_spell(
            SpellCastIntent {
                caster: player.entity,
                radius: SAND_RADIUS,
                target: sand_center(player, m),
                grenade_index: usize::MAX,
            },
        ).taking_stamina(SAND_STAMINA_COST).logging(LogLine::SandThrown).taking_ticks(
            0,
        ).turn_taken()
    }
}

/// The item under `index` flies toward the cursor.
pub open spec fn thrown(
    frame: Frame,
    player: Player,
    m: InputModel,
    item_entity: Entity,
    item_index: usize,
    damage: i32,
) -> InputModel {
    m.with_throw(
        ThrowItemIntent {
            thrower: player.entity,
            item_entity,
            item_index,
            dx: aim(player, m).x,
            dy: aim(player, m).y,
            range: frame.thrown_range,
            damage,
        },
    ).taking_ticks(1).turn_taken()
}

/// The drawn item is thrown, once the stamina for it has been set aside.
pub open spec fn after_random_throw(frame: Frame, player: Player, m: InputModel) -> InputModel {
    if aim(player, m).is_zero() {
        m.logging(LogLine::CursorOnPlayer)
    } else {
        match player.inventory {
            None => m.logging(LogLine::NoInventory),
            Some(slots) => if slots@.len() == 0 {
                m.logging(LogLine::InventoryEmpty)
            } else {
                let slot = slots@[frame.drawn_slot as int];
                thrown(
                    frame,
                    player,
                    m,
                    slot.entity,
                    frame.drawn_slot,
                    improvised_damage(slot.kind) as i32,
                )
            },
        }
    }
}

pub open spec fn after_throw_command(frame: Frame, player: Player, m: InputModel) -> InputModel {
    if !player.affords(THROW_ITEM_STAMINA_COST as int) {
        m.logging(LogLine::NoStaminaToThrow)
    } else {
        after_random_throw(frame, player, m.taking_stamina(THROW_ITEM_STAMINA_COST))
    }
}

pub open spec fn after_god_mode(m: InputModel) -> InputModel {
    InputModel { god_mode: !m.god_mode, ..m }.logging(
        if m.god_mode {
            LogLine::GodModeDisabled
        } else {
            LogLine::GodModeEnabled
        },
    )
}

/// A shot takes one tick more than the first, unless the gun is double-action.
pub open spec fn after_trigger(
    player: Player,
    m: InputModel,
    gun: Entity,
    loaded: i32,
    name: Seq<char>,
) -> InputModel {
    if loaded <= 0 {
        m.logging(LogLine::GunEmpty)
    } else if aim(player, m).is_zero() {
        m.logging(LogLine::CursorOnPlayer)
    } else {
        m.taking_ticks(
            if double_action_name(name) {
                0
            } else {
                1
            },
        ).with_shot(
            RangedAttackIntent {
                attacker: player.entity,
                range: RANGED_ATTACK_RANGE,
                dx: aim(player, m).x,
                dy: aim(player, m).y,
                gun_item: Some(gun),
            },
        ).turn_taken()
    }
}

pub open spec fn after_blade(
    frame: Frame,
    player: Player,
    m: InputModel,
    blade: Entity,
    index: usize,
    attack: i32,
) -> InputModel {
    if aim(player, m).is_zero() {
        m.logging(LogLine::CursorOnPlayer)
    } else {
        thrown(frame, player, m, blade, index, attack)
    }
}

pub open spec fn after_grenade(
    frame: Frame,
    player: Player,
    m: InputModel,
    index: usize,
) -> InputModel {
    if !player.affords(frame.spell_stamina_cost as int) {
        m.logging(LogLine::NoStamina)
    } else {
        m.taking_ticks(1).with_spell(
            SpellCastIntent {
                caster: player.entity,
                radius: SPELL_RADIUS,
                target: m.cursor,
                grenade_index: index,
            },
        ).turn_taken()
    }
}

pub open spec fn after_molotov(
    frame: Frame,
    player: Player,
    m: InputModel,
    index: usize,
    radius: i32,
    damage: i32,
) -> InputModel {
    if !player.affords(frame.spell_stamina_cost as int) {
        m.logging(LogLine::NoStamina)
    } else {
        m.taking_ticks(1).with_molotov(
            MolotovCastIntent {
                caster: player.entity,
                radius,
                damage,
                target: m.cursor,
                item_index: index,
            },
        ).turn_taken()
    }
}

/// Guns fire, blades, grenades and molotovs fly, and everything else is left to whoever
/// handles the use of items. That includes slots without a known item, which are asked for in
/// vain and take no extra tick.
pub open spec fn after_slot(
    frame: Frame,
    player: Player,
    m: InputModel,
    index: usize,
) -> InputModel {
    match player.slot_at(index as int) {
        Some(ItemSlot { entity, kind: Some(ItemKind::Gun { loaded, name, .. }) }) =>
            after_trigger(player, m, entity, loaded, name@),
        Some(ItemSlot { entity, kind: Some(ItemKind::Knife { attack, .. }) }) =>
            after_blade(frame, player, m, entity, index, attack),
        Some(ItemSlot { entity, kind: Some(ItemKind::Tomahawk { attack, .. }) }) =>
            after_blade(frame, player, m, entity, index, attack),
        Some(ItemSlot { kind: Some(ItemKind::Grenade { .. }), .. }) =>
            after_grenade(frame, player, m, index),
        Some(ItemSlot { kind: Some(ItemKind::Molotov { damage, radius, .. }), .. }) =>
            after_molotov(frame, player, m, index, radius, damage),
        Some(ItemSlot { kind: Some(_), .. }) => m.with_use(
            UseItemIntent { user: player.entity, item_index: index },
        ).taking_ticks(1).turn_taken(),
        _ => m.with_use(UseItemIntent { user: player.entity, item_index: index }).turn_taken(),
    }
}

/// What a command does.
pub open spec fn after(
    frame: Frame,
    player: Player,
    m: InputModel,
    command: Command,
) -> InputModel {
    match command {
        Command::OpenMenu => after_menu(frame, m),
        Command::Cursor { dx, dy } => m.aiming_at(m.cursor.plus(GridVec { x: dx, y: dy })),
        Command::CenterCursor => m.aiming_at(player.pos),
        Command::AutoAim => after_auto_aim(frame, player, m),
        Command::Walk { dx, dy } => after_walk(player, m, dx, dy),
        Command::Wait => m.logging(LogLine::Wait).turn_taken(),
        Command::Reload => after_reload(m),
        Command::Roundhouse => after_roundhouse(player, m),
        Command::ThrowSand => after_sand(player, m),
        Command::ThrowRandom => after_throw_command(frame, player, m),
        Command::ToggleGodMode => after_god_mode(m),
        Command::UseSlot { index } => after_slot(frame, player, m, index),
    }
}

/// The coordinates that a command computes are values of `i32`, and a drawn slot exists.
pub open spec fn fits(frame: Frame, player: Player, m: InputModel, command: Command) -> bool {
    match command {
        Command::Cursor { dx, dy } => m.cursor.sum_fits(GridVec { x: dx, y: dy }),
        Command::AutoAim => {
            &&& forall|i: int|
                0 <= i < frame.hostiles@.len() ==> king_distance(
                    player.pos,
                    #[trigger] frame.hostiles@[i],
                ) <= i32::MAX
            &&& nearest(player.pos, frame.hostiles@) matches Some(target)
                ==> target.difference_fits(m.cursor)
        },
        Command::ThrowSand => player.affords(SAND_STAMINA_COST as int) ==> {
            &&& m.cursor.difference_fits(player.pos)
            &&& player.pos.sum_fits(aim(player, m).toward().doubled())
        },
        Command::ThrowRandom => player.affords(THROW_ITEM_STAMINA_COST as int) ==> {
            &&& m.cursor.difference_fits(player.pos)
            &&& player.inventory matches Some(slots) ==> (!aim(player, m).is_zero() && slots@.len()
                > 0 ==> frame.drawn_slot < slots@.len())
        },
        Command::UseSlot { index } => match player.slot_at(index as int) {
            Some(ItemSlot { kind: Some(ItemKind::Gun { loaded, .. }), .. }) => loaded > 0
                ==> m.cursor.difference_fits(player.pos),
            Some(ItemSlot { kind: Some(ItemKind::Knife { .. }), .. }) =>
                m.cursor.difference_fits(player.pos),
            Some(ItemSlot { kind: Some(ItemKind::Tomahawk { .. }), .. }) =>
                m.cursor.difference_fits(player.pos),
            _ => true,
        },
        _ => true,
    }
}

/// The game awaits input, and no earlier key of the frame has taken the turn.
pub open spec fn accepts(frame: Frame, m: InputModel) -> bool {
    frame.awaits_input() && m.next_turn_state != NextTurn::Pending(TurnState::PlayerTurn)
}

/// What a key does while the game has the keyboard: it sends the welcome screen away, or it
/// gives its command.
pub open spec fn after_key(
    frame: Frame,
    player: Player,
    m: InputModel,
    key: TermKey,
) -> InputModel {
    if m.input_state.welcome_visible {
        m.welcomed()
    } else {
        match command_of(key, accepts(frame, m)) {
            Some(command) => after(frame, player, m, command),
            None => m,
        }
    }
}

/// What keys do, one after the other.
pub open spec fn after_keys(
    frame: Frame,
    player: Player,
    m: InputModel,
    keys: Seq<TermKey>,
) -> InputModel
    decreases keys.len(),
{
    if keys.len() == 0 {
        m
    } else {
        after_key(frame, player, after_keys(frame, player, m, keys.drop_last()), keys.last())
    }
}

/// The command of `key`, if it gives one here, fits.
pub open spec fn key_fits(frame: Frame, player: Player, m: InputModel, key: TermKey) -> bool {
    !m.input_state.welcome_visible ==> (command_of(key, accepts(frame, m)) matches Some(command)
        ==> fits(frame, player, m, command))
}

/// Each of the keys fits, after those before it.
pub open spec fn keys_fit(
    frame: Frame,
    player: Player,
    m: InputModel,
    keys: Seq<TermKey>,
) -> bool
    decreases keys.len(),
{
    keys.len() > 0 ==> {
        &&& keys_fit(frame, player, m, keys.drop_last())
        &&& key_fits(
            frame,
            player,
            after_keys(frame, player, m, keys.drop_last()),
            keys.last(),
        )
    }
}

/// On the death and victory screens R asks for a new game and Q to leave; nothing else does
/// anything.
pub open spec fn after_end(m: InputModel, restart: bool, quit: bool) -> InputModel {
    InputModel {
        restart_requested: m.restart_requested || restart,
        exit_requested: m.exit_requested || quit,
        ..m
    }
}

/// A dead player can ask for a new game; the world goes on for a spectator.
pub open spec fn after_death(frame: Frame, m: InputModel, restart: bool) -> InputModel {
    if frame.spectating && frame.awaits_input() {
        after_end(m, restart, false).turn_taken()
    } else {
        after_end(m, restart, false)
    }
}

/// In the menu Q resumes the game and R asks for a new one; both close the menu.
pub open spec fn after_menu_keys(
    frame: Frame,
    m: InputModel,
    resume: bool,
    restart: bool,
) -> InputModel {
    InputModel {
        next_game_state: if resume && frame.game_state == GameState::Paused {
            Some(GameState::Playing)
        } else {
            m.next_game_state
        },
        restart_requested: m.restart_requested || restart,
        ..if resume || restart {
            m.in_mode(InputMode::Game)
        } else {
            m
        }
    }
}

/// What the key presses of one frame do in a terminal.
pub open spec fn after_input(frame: Frame, m: InputModel, keys: Seq<TermKey>) -> InputModel {
    if frame.is_over() {
        after_end(m, keys.contains(TermKey::Char('r')), keys.contains(TermKey::Char('q')))
    } else {
        match frame.player {
            None => m,
            Some(player) => if player.dead {
                after_death(frame, m, keys.contains(TermKey::Char('r')))
            } else if m.input_state.mode == InputMode::EscMenu {
                after_menu_keys(
                    frame,
                    m,
                    keys.contains(TermKey::Char('q')),
                    keys.contains(TermKey::Char('r')),
                )
            } else {
                after_keys(frame, player, m, keys)
            },
        }
    }
}

/// Where keys reach the game, they fit.
pub open spec fn input_fits(frame: Frame, m: InputModel, keys: Seq<TermKey>) -> bool {
    !frame.is_over() && m.input_state.mode == InputMode::Game ==> (frame.player matches Some(player)
        ==> !player.dead ==> keys_fit(frame, player, m, keys))
}

/// What the keys that went down in one frame do in a window.
pub open spec fn after_windowed_input(
    frame: Frame,
    m: InputModel,
    just: Set<PhysicalKey>,
    shift: bool,
) -> InputModel {
    if frame.is_over() {
        after_end(m, just.contains(PhysicalKey::KeyR), just.contains(PhysicalKey::KeyQ))
    } else {
        match frame.player {
            None => m,
            Some(player) => if player.dead {
                after_death(frame, m, just.contains(PhysicalKey::KeyR))
            } else if m.input_state.mode == InputMode::EscMenu {
                after_menu_keys(
                    frame,
                    m,
                    just.contains(PhysicalKey::KeyQ),
                    just.contains(PhysicalKey::KeyR) && !just.contains(PhysicalKey::KeyQ),
                )
            } else if m.input_state.welcome_visible && !just.is_empty() {
                m.welcomed()
            } else {
                match windowed_command(just, shift, accepts(frame, m)) {
                    Some(command) => after(frame, player, m, command),
                    None => m,
                }
            },
        }
    }
}

/// Where a key reaches the game, its command fits.
pub open spec fn windowed_input_fits(
    frame: Frame,
    m: InputModel,
    just: Set<PhysicalKey>,
    shift: bool,
) -> bool {
    !frame.is_over() && m.input_state.mode == InputMode::Game && !(m.input_state.welcome_visible
        && !just.is_empty()) ==> (frame.player matches Some(player) ==> !player.dead ==> (
    windowed_command(just, shift, accepts(frame, m)) matches Some(command) ==> fits(
        frame,
        player,
        m,
        command,
    )))
}

} // verus!
