//! What the input phase reads and what it may change.

use bevy::ecs::entity::Entity;
use vstd::prelude::*;

use crate::combat_log::LogLine;
use crate::grid::GridVec;
use crate::intents::{IntentModel, IntentWriters};
use crate::items::ItemKind;

verus! {

/// Which screen the game is on.
#[derive(Clone, Copy, Debug, PartialEq, Eq, Structural)]
pub enum GameState {
    Playing,
    Paused,
    Dead,
    Victory,
}

/// Phase of a turn. It exists only while the game is being played.
#[derive(Clone, Copy, Debug, PartialEq, Eq, Structural)]
pub enum TurnState {
    AwaitingInput,
    PlayerTurn,
    WorldTurn,
}

/// The change of turn state that is queued for the next transition.
#[derive(Clone, Copy, Debug, PartialEq, Eq, Structural)]
pub enum NextTurn {
    /// There is no turn state to change.
    Absent,
    Unchanged,
    Pending(TurnState),
}

/// Who receives the keys.
#[derive(Clone, Copy, Debug, PartialEq, Eq, Structural)]
pub enum InputMode {
    Game,
    EscMenu,
}

/// What the input phase remembers between frames.
#[derive(Clone, Copy, Debug, PartialEq, Eq, Structural)]
pub struct InputState {
    pub mode: InputMode,
    pub welcome_visible: bool,
    /// Stamina that the ability of this turn costs.
    pub ability_stamina_pending: i32,
    pub reload_pending: bool,
}

/// An item that the player carries.
#[derive(Debug, PartialEq, Eq)]
pub struct ItemSlot {
    pub entity: Entity,
    /// `None` where the entity is not an item of a known kind.
    pub kind: Option<ItemKind<String>>,
}

/// The player, as the input phase sees them.
#[derive(Debug, PartialEq, Eq)]
pub struct Player {
    pub entity: Entity,
    pub pos: GridVec,
    /// Current stamina, where the player has stamina at all.
    pub stamina: Option<i32>,
    /// Slots in order, where the player has an inventory at all.
    pub inventory: Option<Vec<ItemSlot>>,
    pub dead: bool,
}

/// What stays fixed while the input of one frame is handled.
#[derive(Debug, PartialEq, Eq)]
pub struct Frame {
    /// `None` unless there is exactly one player.
    pub player: Option<Player>,
    /// Everyone of a faction but the player, in the order in which they are visited.
    pub hostiles: Vec<GridVec>,
    pub game_state: GameState,
    pub turn_state: Option<TurnState>,
    /// Whether the world keeps running after the player's death.
    pub spectating: bool,
    /// Slot drawn at random for this frame, in case an item is thrown blindly.
    pub drawn_slot: usize,
    /// Stamina that a grenade or a molotov takes.
    pub spell_stamina_cost: i32,
    /// How far a thrown item flies.
    pub thrown_range: i32,
}

/// Everything that the input phase may change.
#[derive(Debug, PartialEq, Eq)]
pub struct InputWorld {
    pub intents: IntentWriters,
    /// `None` where no change of game state is queued.
    pub next_game_state: Option<GameState>,
    pub next_turn_state: NextTurn,
    pub combat_log: Vec<LogLine>,
    pub input_state: InputState,
    pub restart_requested: bool,
    /// The player wants to leave the program.
    pub exit_requested: bool,
    pub cursor: GridVec,
    /// Ticks that the world takes on top of the first one.
    pub extra_world_ticks: u32,
    pub god_mode: bool,
    /// Whether the player's field of view is due to be computed anew; `None` unless there is
    /// exactly one player with a field of view.
    pub viewshed_dirty: Option<bool>,
}

/// [`InputWorld`] with sequences in place of vectors.
#[verifier::ext_equal]
pub ghost struct InputModel {
    pub intents: IntentModel,
    pub next_game_state: Option<GameState>,
    pub next_turn_state: NextTurn,
    pub combat_log: Seq<LogLine>,
    pub input_state: InputState,
    pub restart_requested: bool,
    pub exit_requested: bool,
    pub cursor: GridVec,
    pub extra_world_ticks: u32,
    pub god_mode: bool,
    pub viewshed_dirty: Option<bool>,
}

impl View for InputWorld {
    type V = InputModel;

    open spec fn view(&self) -> InputModel {
        InputModel {
            intents: self.intents@,
            next_game_state: self.next_game_state,
            next_turn_state: self.next_turn_state,
            combat_log: self.combat_log@,
            input_state: self.input_state,
            restart_requested: self.restart_requested,
            exit_requested: self.exit_requested,
            cursor: self.cursor,
            extra_world_ticks: self.extra_world_ticks,
            god_mode: self.god_mode,
            viewshed_dirty: self.viewshed_dirty,
        }
    }
}

impl Frame {
    /// The game waits for the player to act.
    pub open spec fn awaits_input(self) -> bool {
        self.turn_state == Some(TurnState::AwaitingInput)
    }

    /// The game has been lost or won.
    pub open spec fn is_over(self) -> bool {
        self.game_state == GameState::Dead || self.game_state == GameState::Victory
    }

    pub fn awaiting_input(&self) -> (b: bool)
        ensures
            b == self.awaits_input(),
    {
        match self.turn_state {
            Some(turn) => turn == TurnState::AwaitingInput,
            None => false,
        }
    }

    pub fn over(&self) -> (b: bool)
        ensures
            b == self.is_over(),
    {
        self.game_state == GameState::Dead || self.game_state == GameState::Victory
    }
}

impl Player {
    /// The player has stamina, and at least `cost` of it.
    pub open spec fn affords(self, cost: int) -> bool {
        self.stamina matches Some(current) && current >= cost
    }

    /// The slot under `index`, where there is an inventory that reaches so far.
    pub open spec fn slot_at(self, index: int) -> Option<ItemSlot> {
        match self.inventory {
            Some(slots) if 0 <= index < slots@.len() => Some(slots@[index]),
            _ => None,
        }
    }

    pub fn has_stamina(&self, cost: i32) -> (b: bool)
        ensures
            b == self.affords(cost as int),
    {
        match self.stamina {
            Some(current) => current >= cost,
            None => false,
        }
    }

    pub fn slot(&self, index: usize) -> (slot: Option<&ItemSlot>)
        ensures
            slot matches Some(s) ==> self.slot_at(index as int) == Some(*s),
            slot is None ==> self.slot_at(index as int) is None,
    {
        match &self.inventory {
            Some(slots) => if index < slots.len() {
                Some(&slots[index])
            } else {
                None
            },
            None => None,
        }
    }
}

/// The model of a world shows all of it as it is.
pub proof fn model_shows_the_world(world: InputWorld)
    ensures
        world@.intents == world.intents@,
        world@.next_game_state == world.next_game_state,
        world@.next_turn_state == world.next_turn_state,
        world@.combat_log == world.combat_log@,
        world@.input_state == world.input_state,
        world@.restart_requested == world.restart_requested,
        world@.exit_requested == world.exit_requested,
        world@.cursor == world.cursor,
        world@.extra_world_ticks == world.extra_world_ticks,
        world@.god_mode == world.god_mode,
        world@.viewshed_dirty == world.viewshed_dirty,
{
}

/// What a player can pay for is what they have the stamina for, and what they find in a slot is
/// what the inventory holds there.
pub proof fn players_have_what_they_have(player: Player, cost: int, index: int)
    ensures
        player.affords(cost) <==> player.stamina is Some && cost <= player.stamina.unwrap(),
        player.slot_at(index) is Some <==> player.inventory is Some && 0 <= index
            < player.inventory.unwrap()@.len(),
        player.slot_at(index) is Some ==> player.slot_at(index).unwrap()
            == player.inventory.unwrap()@[index],
{
}

/// Only the phase that awaits input does, and only death and victory end a game.
pub proof fn frames_say_where_the_game_is(frame: Frame)
    ensures
        frame.awaits_input() <==> frame.turn_state is Some && frame.turn_state.unwrap()
            == TurnState::AwaitingInput,
        frame.is_over() <==> frame.game_state != GameState::Playing && frame.game_state
            != GameState::Paused,
{
}

} // verus!
