//! Lines of the combat log that the input phase writes.

use vstd::prelude::*;

verus! {

/// A line of the combat log.
#[derive(Clone, Copy, Debug, PartialEq, Eq, Structural)]
pub enum LogLine {
    NoEnemiesVisible,
    Wait,
    NoStaminaForRoundhouse,
    NoStamina,
    NoStaminaToThrow,
    CursorOnPlayer,
    SandThrown,
    NoInventory,
    InventoryEmpty,
    GodModeEnabled,
    GodModeDisabled,
    GunEmpty,
}

impl LogLine {
    /// What the player reads.
    pub open spec fn wording(self) -> &'static str {
        match self {
            LogLine::NoEnemiesVisible => "No enemies visible.",
            LogLine::Wait => "You wait...",
            LogLine::NoStaminaForRoundhouse => "Not enough stamina for roundhouse!",
            LogLine::NoStamina => "Not enough stamina!",
            LogLine::NoStaminaToThrow => "Not enough stamina to throw!",
            LogLine::CursorOnPlayer => "Cursor is on your position!",
            LogLine::SandThrown => "You throw a handful of sand!",
            LogLine::NoInventory => "No inventory!",
            LogLine::InventoryEmpty => "Inventory is empty!",
            LogLine::GodModeEnabled => "God mode ENABLED — you are invincible.",
            LogLine::GodModeDisabled => "God mode DISABLED.",
            LogLine::GunEmpty => "Gun is empty! Press R to reload.",
        }
    }

    pub fn text(self) -> (t: &'static str)
        ensures
            t == self.wording(),
    {
        match self {
            LogLine::NoEnemiesVisible => "No enemies visible.",
            LogLine::Wait => "You wait...",
            LogLine::NoStaminaForRoundhouse => "Not enough stamina for roundhouse!",
            LogLine::NoStamina => "Not enough stamina!",
            LogLine::NoStaminaToThrow => "Not enough stamina to throw!",
            LogLine::CursorOnPlayer => "Cursor is on your position!",
            LogLine::SandThrown => "You throw a handful of sand!",
            LogLine::NoInventory => "No inventory!",
            LogLine::InventoryEmpty => "Inventory is empty!",
            LogLine::GodModeEnabled => "God mode ENABLED — you are invincible.",
            LogLine::GodModeDisabled => "God mode DISABLED.",
            LogLine::GunEmpty => "Gun is empty! Press R to reload.",
        }
    }
}

} // verus!
