//! The list of commands that the help screen shows.

use vstd::prelude::*;

verus! {

/// A single command binding entry: the key(s) that trigger it, a short name, documentation,
/// and a category for UI grouping.
#[derive(Clone, Copy, Debug, PartialEq, Eq)]
pub struct CommandBinding {
    /// Key combination string shown in the help/welcome screen.
    pub key: &'static str,
    /// Short action name.
    pub name: &'static str,
    /// Longer description / documentation for the command.
    pub docs: &'static str,
    /// Category for grouping in the Q menu: "Movement", "Combat", "Inventory", or "Other".
    pub category: &'static str,
}

/// All entries, in the order in which they are shown. Related keys are grouped (WASD, IJKL)
/// to reduce visual clutter.
pub open spec fn binding_list() -> Seq<CommandBinding> {
    seq![
        CommandBinding {
            key: "WASD / ↑↓←→",
            name: "Move (3 ticks)",
            docs: "Move the player one tile. Physical movement costs 3 ticks and 2 stamina.",
            category: "Movement",
        },
        CommandBinding {
            key: "IJKL",
            name: "Cursor (1 tick)",
            docs: "Move the cursor one tile for aiming. Costs 1 tick.",
            category: "Other",
        },
        CommandBinding {
            key: "C",
            name: "Center cursor",
            docs: "Snap cursor onto your position. Costs 1 tick.",
            category: "Other",
        },
        CommandBinding {
            key: "V",
            name: "Auto-aim",
            docs: "Cursor steps toward nearest enemy. Costs 1 tick.",
            category: "Other",
        },
        CommandBinding {
            key: "R",
            name: "Reload (6 ticks)",
            docs: "Reload gun (1 bullet + 1 cap + 1 powder). Costs 6 ticks.",
            category: "Combat",
        },
        CommandBinding {
            key: "F",
            name: "Roundhouse (2 ticks)",
            docs: "Roundhouse kick all adjacent enemies. Costs 2 ticks + 10 stamina.",
            category: "Combat",
        },
        CommandBinding {
            key: "T",
            name: "Wait (1 tick)",
            docs: "Skip your turn. Costs 1 tick.",
            category: "Movement",
        },
        CommandBinding {
            key: "G",
            name: "Throw sand (5 sta)",
            docs: "Create sand cloud blocking vision toward cursor.",
            category: "Combat",
        },
        CommandBinding {
            key: "E",
            name: "Throw item (10 sta)",
            docs: "Throw a random inventory item toward cursor.",
            category: "Inventory",
        },
        CommandBinding {
            key: "1-6",
            name: "Fire/Use (2 ticks)",
            docs: "Use item by slot. Guns/grenades fire toward cursor. Costs 2 ticks.",
            category: "Inventory",
        },
        CommandBinding {
            key: "Q",
            name: "Menu",
            docs: "Toggle pause menu",
            category: "Other",
        },
    ]
}

pub fn keybindings() -> (list: Vec<CommandBinding>)
    ensures
        list@ == binding_list(),
{
    vec![
        CommandBinding {
            key: "WASD / ↑↓←→",
            name: "Move (3 ticks)",
            docs: "Move the player one tile. Physical movement costs 3 ticks and 2 stamina.",
            category: "Movement",
        },
        CommandBinding {
            key: "IJKL",
            name: "Cursor (1 tick)",
            docs: "Move the cursor one tile for aiming. Costs 1 tick.",
            category: "Other",
        },
        CommandBinding {
            key: "C",
            name: "Center cursor",
            docs: "Snap cursor onto your position. Costs 1 tick.",
            category: "Other",
        },
        CommandBinding {
            key: "V",
            name: "Auto-aim",
            docs: "Cursor steps toward nearest enemy. Costs 1 tick.",
            category: "Other",
        },
        CommandBinding {
            key: "R",
            name: "Reload (6 ticks)",
            docs: "Reload gun (1 bullet + 1 cap + 1 powder). Costs 6 ticks.",
            category: "Combat",
        },
        CommandBinding {
            key: "F",
            name: "Roundhouse (2 ticks)",
            docs: "Roundhouse kick all adjacent enemies. Costs 2 ticks + 10 stamina.",
            category: "Combat",
        },
        CommandBinding {
            key: "T",
            name: "Wait (1 tick)",
            docs: "Skip your turn. Costs 1 tick.",
            category: "Movement",
        },
        CommandBinding {
            key: "G",
            name: "Throw sand (5 sta)",
            docs: "Create sand cloud blocking vision toward cursor.",
            category: "Combat",
        },
        CommandBinding {
            key: "E",
            name: "Throw item (10 sta)",
            docs: "Throw a random inventory item toward cursor.",
            category: "Inventory",
        },
        CommandBinding {
            key: "1-6",
            name: "Fire/Use (2 ticks)",
            docs: "Use item by slot. Guns/grenades fire toward cursor. Costs 2 ticks.",
            category: "Inventory",
        },
        CommandBinding {
            key: "Q",
            name: "Menu",
            docs: "Toggle pause menu",
            category: "Other",
        },
    ]
}

/// Every entry belongs to one of the four groups of the menu.
pub proof fn categories_are_known(i: int)
    requires
        0 <= i < binding_list().len(),
    ensures
        ({
            let category = binding_list()[i].category;
            category == "Movement" || category == "Combat" || category == "Inventory" || category
                == "Other"
        }),
{
}

/// What the entry number `i` says.
pub open spec fn says(
    i: int,
    key: &'static str,
    name: &'static str,
    docs: &'static str,
    category: &'static str,
) -> bool {
    &&& binding_list()[i].key == key
    &&& binding_list()[i].name == name
    &&& binding_list()[i].docs == docs
    &&& binding_list()[i].category == category
}

/// The list names every command with what it takes: walking three ticks and two points of
/// stamina, reloading six ticks, and so on down to the menu, which takes nothing.
pub proof fn list_names_every_command()
    ensures
        binding_list().len() == 11,
        says(
            0,
            "WASD / ↑↓←→",
            "Move (3 ticks)",
            "Move the player one tile. Physical movement costs 3 ticks and 2 stamina.",
            "Movement",
        ),
        says(
            1,
            "IJKL",
            "Cursor (1 tick)",
            "Move the cursor one tile for aiming. Costs 1 tick.",
            "Other",
        ),
        says(
            2,
            "C",
            "Center cursor",
            "Snap cursor onto your position. Costs 1 tick.",
            "Other",
        ),
        says(
            3,
            "V",
            "Auto-aim",
            "Cursor steps toward nearest enemy. Costs 1 tick.",
            "Other",
        ),
        says(
            4,
            "R",
            "Reload (6 ticks)",
            "Reload gun (1 bullet + 1 cap + 1 powder). Costs 6 ticks.",
            "Combat",
        ),
        says(
            5,
            "F",
            "Roundhouse (2 ticks)",
            "Roundhouse kick all adjacent enemies. Costs 2 ticks + 10 stamina.",
            "Combat",
        ),
        says(
            6,
            "T",
            "Wait (1 tick)",
            "Skip your turn. Costs 1 tick.",
            "Movement",
        ),
        says(
            7,
            "G",
            "Throw sand (5 sta)",
            "Create sand cloud blocking vision toward cursor.",
            "Combat",
        ),
        says(
            8,
            "E",
            "Throw item (10 sta)",
            "Throw a random inventory item toward cursor.",
            "Inventory",
        ),
        says(
            9,
            "1-6",
            "Fire/Use (2 ticks)",
            "Use item by slot. Guns/grenades fire toward cursor. Costs 2 ticks.",
            "Inventory",
        ),
        says(
            10,
            "Q",
            "Menu",
            "Toggle pause menu",
            "Other",
        ),
{
}

} // verus!
