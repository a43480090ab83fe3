//! The requests that the input phase hands to the systems that carry them out.

use bevy::ecs::entity::Entity;
use vstd::prelude::*;

use crate::grid::GridVec;

verus! {

/// `bevy::ecs::entity::Entity`, the handle of an entity. It is only passed along; nothing is
/// claimed of what is inside.
#[verifier::external_type_specification]
#[verifier::external_body]
pub struct ExEntity(Entity);

/// Move `entity` by one tile.
#[derive(Clone, Copy, Debug, PartialEq, Eq)]
pub struct MoveIntent {
    pub entity: Entity,
    pub dx: i32,
    pub dy: i32,
}

/// Set off a blast, or a cloud of sand, around `target`.
#[derive(Clone, Copy, Debug, PartialEq, Eq)]
pub struct SpellCastIntent {
    pub caster: Entity,
    pub radius: i32,
    pub target: GridVec,
    /// Slot of the grenade to consume; `usize::MAX` where none is.
    pub grenade_index: usize,
}

/// Throw a molotov at `target`.
#[derive(Clone, Copy, Debug, PartialEq, Eq)]
pub struct MolotovCastIntent {
    pub caster: Entity,
    pub radius: i32,
    pub damage: i32,
    pub target: GridVec,
    pub item_index: usize,
}

/// Use the item in a slot.
#[derive(Clone, Copy, Debug, PartialEq, Eq)]
pub struct UseItemIntent {
    pub user: Entity,
    pub item_index: usize,
}

/// Fire a gun along `(dx, dy)`.
#[derive(Clone, Copy, Debug, PartialEq, Eq)]
pub struct RangedAttackIntent {
    pub attacker: Entity,
    pub range: i32,
    pub dx: i32,
    pub dy: i32,
    pub gun_item: Option<Entity>,
}

/// Kick everything around the attacker.
#[derive(Clone, Copy, Debug, PartialEq, Eq)]
pub struct MeleeWideIntent {
    pub attacker: Entity,
}

/// Throw an item along `(dx, dy)`.
#[derive(Clone, Copy, Debug, PartialEq, Eq)]
pub struct ThrowItemIntent {
    pub thrower: Entity,
    pub item_entity: Entity,
    pub item_index: usize,
    pub dx: i32,
    pub dy: i32,
    pub range: i32,
    pub damage: i32,
}

/// One queue for each kind of intent, oldest first.
#[derive(Debug, PartialEq, Eq)]
pub struct IntentWriters {
    pub move_intents: Vec<MoveIntent>,
    pub spell_intents: Vec<SpellCastIntent>,
    pub molotov_intents: Vec<MolotovCastIntent>,
    pub use_item_intents: Vec<UseItemIntent>,
    pub ranged_intents: Vec<RangedAttackIntent>,
    pub melee_wide_intents: Vec<MeleeWideIntent>,
    pub throw_item_intents: Vec<ThrowItemIntent>,
}

/// `later` begins with `s`.
pub open spec fn continues<A>(s: Seq<A>, later: Seq<A>) -> bool {
    s.len() <= later.len() && forall|i: int| 0 <= i < s.len() ==> s[i] == #[trigger] later[i]
}

/// The queues as sequences.
#[verifier::ext_equal]
pub ghost struct IntentModel {
    pub moves: Seq<MoveIntent>,
    pub spells: Seq<SpellCastIntent>,
    pub molotovs: Seq<MolotovCastIntent>,
    pub uses: Seq<UseItemIntent>,
    pub shots: Seq<RangedAttackIntent>,
    pub kicks: Seq<MeleeWideIntent>,
    pub throws: Seq<ThrowItemIntent>,
}

impl IntentModel {
    pub open spec fn empty() -> IntentModel {
        IntentModel {
            moves: Seq::empty(),
            spells: Seq::empty(),
            molotovs: Seq::empty(),
            uses: Seq::empty(),
            shots: Seq::empty(),
            kicks: Seq::empty(),
            throws: Seq::empty(),
        }
    }

    /// Number of intents in all queues.
    pub open spec fn count(self) -> nat {
        self.moves.len() + self.spells.len() + self.molotovs.len() + self.uses.len()
            + self.shots.len() + self.kicks.len() + self.throws.len()
    }

    /// Every queue of `self` is the beginning of the same queue of `later`.
    pub open spec fn begins(self, later: IntentModel) -> bool {
        &&& continues(self.moves, later.moves)
        &&& continues(self.spells, later.spells)
        &&& continues(self.molotovs, later.molotovs)
        &&& continues(self.uses, later.uses)
        &&& continues(self.shots, later.shots)
        &&& continues(self.kicks, later.kicks)
        &&& continues(self.throws, later.throws)
    }
}

impl View for IntentWriters {
    type V = IntentModel;

    open spec fn view(&self) -> IntentModel {
        IntentModel {
            moves: self.move_intents@,
            spells: self.spell_intents@,
            molotovs: self.molotov_intents@,
            uses: self.use_item_intents@,
            shots: self.ranged_intents@,
            kicks: self.melee_wide_intents@,
            throws: self.throw_item_intents@,
        }
    }
}

impl IntentWriters {
    /// Queues with nothing in them.
    pub fn new() -> (w: IntentWriters)
        ensures
            w@ == IntentModel::empty(),
    {
        IntentWriters {
            move_intents: Vec::new(),
            spell_intents: Vec::new(),
            molotov_intents: Vec::new(),
            use_item_intents: Vec::new(),
            ranged_intents: Vec::new(),
            melee_wide_intents: Vec::new(),
            throw_item_intents: Vec::new(),
        }
    }
}

/// The model of the queues shows each of them, and new queues hold nothing.
pub proof fn model_shows_the_queues(writers: IntentWriters)
    ensures
        writers@.moves == writers.move_intents@,
        writers@.spells == writers.spell_intents@,
        writers@.molotovs == writers.molotov_intents@,
        writers@.uses == writers.use_item_intents@,
        writers@.shots == writers.ranged_intents@,
        writers@.kicks == writers.melee_wide_intents@,
        writers@.throws == writers.throw_item_intents@,
        IntentModel::empty().moves.len() == 0,
        IntentModel::empty().spells.len() == 0,
        IntentModel::empty().molotovs.len() == 0,
        IntentModel::empty().uses.len() == 0,
        IntentModel::empty().shots.len() == 0,
        IntentModel::empty().kicks.len() == 0,
        IntentModel::empty().throws.len() == 0,
{
}

} // verus!
