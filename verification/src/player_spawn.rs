//! Where the player starts and with what.

use vstd::prelude::*;

use crate::commands::MAX_INVENTORY_SIZE;
use crate::gangs::Gang;
use crate::grid::GridVec;
use crate::items::{Ballistics, Caliber, ItemKind};

verus! {

/// Width of the town.
pub const MAP_WIDTH: i32 = 800;

/// Height of the town.
pub const MAP_HEIGHT: i32 = 560;

/// How far from the center a building for the player is looked for.
pub const INTERIOR_RADIUS: i32 = 40;

/// How far from the center open ground for the player is looked for.
pub const OPEN_RADIUS: i32 = 20;

/// How far around the player the ground is cleared, so that they do not start blocked.
pub const CLEAR_RADIUS: i32 = 3;

#[derive(Clone, Copy, Debug, PartialEq, Eq, Structural)]
pub enum Color {
    Rgb(u8, u8, u8),
    Black,
    White,
}

/// A gun that the player may start with.
#[derive(Clone, Copy, Debug, PartialEq, Eq)]
pub struct StartingGun {
    pub name: &'static str,
    pub caliber: Caliber,
    pub capacity: i32,
    pub symbol: &'static str,
}

/// Everything that makes an item entity.
#[derive(Debug, PartialEq, Eq)]
pub struct ItemBundle {
    pub name: &'static str,
    pub symbol: &'static str,
    pub fg: Color,
    pub bg: Color,
    pub kind: ItemKind<&'static str>,
}

/// A quantity that can be used up.
#[derive(Clone, Copy, Debug, PartialEq, Eq)]
pub struct Gauge {
    pub current: i32,
    pub max: i32,
}

/// What someone has in mind who acts on their own.
#[derive(Clone, Copy, Debug, PartialEq, Eq, Structural)]
pub enum AiState {
    Idle,
}

/// Everything that makes the player's entity, but for what they carry, have seen and remember.
#[derive(Clone, Copy, Debug, PartialEq, Eq)]
pub struct PlayerBundle {
    pub pos: GridVec,
    pub name: &'static str,
    pub symbol: &'static str,
    pub fg: Color,
    pub bg: Color,
    pub faction: Gang,
    pub health: Gauge,
    pub stamina: Gauge,
    pub attack: i32,
    /// Energy gained in a tick.
    pub speed: i32,
    pub energy: i32,
    pub view_range: i32,
    pub view_dirty: bool,
    pub ai_state: AiState,
    pub look_dir: GridVec,
    /// For how long the player has looked there.
    pub look_ticks: u32,
    pub patrol_origin: GridVec,
}

/// What the search for a place to start found on a map.
#[derive(Clone, Copy, Debug, PartialEq, Eq)]
pub struct SpawnSites {
    /// The middle of the map.
    pub center: GridVec,
    /// A place inside a building, at most [`INTERIOR_RADIUS`] from the center.
    pub interior: Option<GridVec>,
    /// Open ground, at most [`OPEN_RADIUS`] from the center.
    pub open: Option<GridVec>,
}

impl SpawnSites {
    /// Inside a building where there is one, else on open ground, else in the middle.
    pub open spec fn choice(self) -> GridVec {
        match (self.interior, self.open) {
            (Some(pos), _) => pos,
            (None, Some(pos)) => pos,
            (None, None) => self.center,
        }
    }

    /// The one place where the player starts; the camera and the cursor start on it too.
    pub fn player_spawn(&self) -> (pos: GridVec)
        ensures
            pos == self.choice(),
    {
        match self.interior {
            Some(pos) => pos,
            None => match self.open {
                Some(pos) => pos,
                None => self.center,
            },
        }
    }
}

/// The middle of a map.
pub fn map_center(width: i32, height: i32) -> (center: GridVec)
    requires
        width >= 0,
        height >= 0,
    ensures
        center.x == width / 2,
        center.y == height / 2,
{
    GridVec { x: width / 2, y: height / 2 }
}

/// The number that decides what a player who starts on `pos` carries.
pub open spec fn draw_of(pos: GridVec) -> u32 {
    (pos.x.wrapping_mul(7919) ^ pos.y.wrapping_mul(6271)) as u32
}

pub open spec fn weapon_pool() -> Seq<StartingGun> {
    seq![
        StartingGun {
            name: "Colt Sheriff",
            caliber: Caliber::Cal36,
            capacity: 5,
            symbol: "p",
        },
        StartingGun {
            name: "Colt Army",
            caliber: Caliber::Cal44,
            capacity: 6,
            symbol: "p",
        },
        StartingGun {
            name: "Colt Pocket",
            caliber: Caliber::Cal31,
            capacity: 5,
            symbol: "p",
        },
        StartingGun {
            name: "Remington New Model Army",
            caliber: Caliber::Cal44,
            capacity: 6,
            symbol: "p",
        },
        StartingGun {
            name: "Starr 1858 DA",
            caliber: Caliber::Cal44,
            capacity: 6,
            symbol: "p",
        },
        StartingGun {
            name: "Savage 1856",
            caliber: Caliber::Cal36,
            capacity: 6,
            symbol: "p",
        },
        StartingGun {
            name: "Adams Revolver",
            caliber: Caliber::Cal44,
            capacity: 5,
            symbol: "p",
        },
        StartingGun {
            name: "Hawken Rifle",
            caliber: Caliber::Cal50,
            capacity: 1,
            symbol: "r",
        },
        StartingGun {
            name: "Springfield 1842",
            caliber: Caliber::Cal69,
            capacity: 1,
            symbol: "r",
        },
        StartingGun {
            name: "Springfield 1855",
            caliber: Caliber::Cal58,
            capacity: 1,
            symbol: "r",
        },
        StartingGun {
            name: "Enfield 1853",
            caliber: Caliber::Cal577,
            capacity: 1,
            symbol: "r",
        },
    ]
}

/// The guns that the player may start with.
pub fn starting_guns() -> (pool: Vec<StartingGun>)
    ensures
        pool@ == weapon_pool(),
{
    vec![
        StartingGun {
            name: "Colt Sheriff",
            caliber: Caliber::Cal36,
            capacity: 5,
            symbol: "p",
        },
        StartingGun {
            name: "Colt Army",
            caliber: Caliber::Cal44,
            capacity: 6,
            symbol: "p",
        },
        StartingGun {
            name: "Colt Pocket",
            caliber: Caliber::Cal31,
            capacity: 5,
            symbol: "p",
        },
        StartingGun {
            name: "Remington New Model Army",
            caliber: Caliber::Cal44,
            capacity: 6,
            symbol: "p",
        },
        StartingGun {
            name: "Starr 1858 DA",
            caliber: Caliber::Cal44,
            capacity: 6,
            symbol: "p",
        },
        StartingGun {
            name: "Savage 1856",
            caliber: Caliber::Cal36,
            capacity: 6,
            symbol: "p",
        },
        StartingGun {
            name: "Adams Revolver",
            caliber: Caliber::Cal44,
            capacity: 5,
            symbol: "p",
        },
        StartingGun {
            name: "Hawken Rifle",
            caliber: Caliber::Cal50,
            capacity: 1,
            symbol: "r",
        },
        StartingGun {
            name: "Springfield 1842",
            caliber: Caliber::Cal69,
            capacity: 1,
            symbol: "r",
        },
        StartingGun {
            name: "Springfield 1855",
            caliber: Caliber::Cal58,
            capacity: 1,
            symbol: "r",
        },
        StartingGun {
            name: "Enfield 1853",
            caliber: Caliber::Cal577,
            capacity: 1,
            symbol: "r",
        },
    ]
}

pub open spec fn gun_of(draw: u32) -> StartingGun {
    weapon_pool()[(draw % 11) as int]
}

/// A gun with a full load.
pub open spec fn gun_bundle(gun: StartingGun, ballistics: Ballistics) -> ItemBundle {
    ItemBundle {
        name: gun.name,
        symbol: gun.symbol,
        fg: Color::Rgb(160, 150, 140),
        bg: Color::Black,
        kind: ItemKind::Gun {
            loaded: gun.capacity,
            capacity: gun.capacity,
            caliber: gun.caliber,
            attack: ballistics.damage_of(gun.caliber),
            name: gun.name,
            blunt_damage: 5,
        },
    }
}

pub open spec fn drinks() -> Seq<ItemBundle> {
    seq![
        ItemBundle {
            name: "Whiskey",
            symbol: "w",
            fg: Color::Rgb(180, 120, 60),
            bg: Color::Black,
            kind: ItemKind::Whiskey { heal: 10, blunt_damage: 4 },
        },
        ItemBundle {
            name: "Beer",
            symbol: "b",
            fg: Color::Rgb(200, 180, 80),
            bg: Color::Black,
            kind: ItemKind::Beer { heal: 5, blunt_damage: 3 },
        },
        ItemBundle {
            name: "Ale",
            symbol: "a",
            fg: Color::Rgb(190, 150, 70),
            bg: Color::Black,
            kind: ItemKind::Ale { heal: 7, blunt_damage: 3 },
        },
        ItemBundle {
            name: "Stout",
            symbol: "s",
            fg: Color::Rgb(80, 50, 30),
            bg: Color::Black,
            kind: ItemKind::Stout { heal: 8, blunt_damage: 4 },
        },
        ItemBundle {
            name: "Wine",
            symbol: "w",
            fg: Color::Rgb(140, 40, 60),
            bg: Color::Black,
            kind: ItemKind::Wine { heal: 6, blunt_damage: 3 },
        },
        ItemBundle {
            name: "Rum",
            symbol: "r",
            fg: Color::Rgb(160, 100, 40),
            bg: Color::Black,
            kind: ItemKind::Rum { heal: 12, blunt_damage: 4 },
        },
    ]
}

pub open spec fn drink_of(draw: u32) -> ItemBundle {
    drinks()[(draw.wrapping_mul(31) % 6) as int]
}

pub open spec fn knife() -> ItemBundle {
    ItemBundle {
        name: "Knife",
        symbol: "/",
        fg: Color::Rgb(192, 192, 210),
        bg: Color::Black,
        kind: ItemKind::Knife { attack: 4, blunt_damage: 6 },
    }
}

pub open spec fn tomahawk() -> ItemBundle {
    ItemBundle {
        name: "Tomahawk",
        symbol: "t",
        fg: Color::Rgb(160, 120, 80),
        bg: Color::Black,
        kind: ItemKind::Tomahawk { attack: 5, blunt_damage: 7 },
    }
}

pub open spec fn dynamite() -> ItemBundle {
    ItemBundle {
        name: "Dynamite",
        symbol: "d",
        fg: Color::Rgb(200, 50, 50),
        bg: Color::Black,
        kind: ItemKind::Grenade { damage: 8, radius: 3, blunt_damage: 5 },
    }
}

pub open spec fn molotov() -> ItemBundle {
    ItemBundle {
        name: "Molotov",
        symbol: "m",
        fg: Color::Rgb(255, 100, 0),
        bg: Color::Black,
        kind: ItemKind::Molotov { damage: 6, radius: 4, blunt_damage: 4 },
    }
}

/// A knife, a tomahawk, or nothing.
pub open spec fn blade_of(draw: u32) -> Seq<ItemBundle> {
    let n = draw.wrapping_mul(47) % 3;
    if n == 0 {
        seq![knife()]
    } else if n == 1 {
        seq![tomahawk()]
    } else {
        seq![]
    }
}

pub open spec fn explosive_of(draw: u32) -> ItemBundle {
    if draw.wrapping_mul(59) % 2 == 0 {
        dynamite()
    } else {
        molotov()
    }
}

/// What a player who starts on `pos` carries, slot by slot.
pub open spec fn loadout(pos: GridVec, ballistics: Ballistics) -> Seq<ItemBundle> {
    let draw = draw_of(pos);
    seq![gun_bundle(gun_of(draw), ballistics), drink_of(draw)] + blade_of(draw) + seq![
        explosive_of(draw),
    ]
}

/// A player in full health on `pos`, who gains the energy for one action in a tick.
pub open spec fn player_at(pos: GridVec, action_cost: i32) -> PlayerBundle {
    PlayerBundle {
        pos,
        name: "Rogue",
        symbol: "@",
        fg: Color::White,
        bg: Color::Black,
        faction: Gang::Civilians,
        health: Gauge { current: 100, max: 100 },
        stamina: Gauge { current: 100, max: 100 },
        attack: 5,
        speed: action_cost,
        energy: 0,
        view_range: 40,
        view_dirty: true,
        ai_state: AiState::Idle,
        look_dir: GridVec { x: 0, y: (-1) as i32 },
        look_ticks: 0,
        patrol_origin: pos,
    }
}

/// A player who is about to enter the game.
#[derive(Debug)]
pub struct PlayerSpawn {
    pub player: PlayerBundle,
    /// Inventory, slot by slot.
    pub items: Vec<ItemBundle>,
    /// What the player sees.
    pub visible_tiles: Vec<GridVec>,
    /// What the player has seen.
    pub revealed_tiles: Vec<GridVec>,
    /// Caliber of the gun, for which there has to be ammunition.
    pub caliber: Caliber,
}

/// The drink among [`drinks`] that a draw gives.
fn starting_drink(draw: u32) -> (item: ItemBundle)
    ensures
        item == drink_of(draw),
{
    match draw.wrapping_mul(31) % 6 {
        0 => ItemBundle {
            name: "Whiskey",
            symbol: "w",
            fg: Color::Rgb(180, 120, 60),
            bg: Color::Black,
            kind: ItemKind::Whiskey { heal: 10, blunt_damage: 4 },
        },
        1 => ItemBundle {
            name: "Beer",
            symbol: "b",
            fg: Color::Rgb(200, 180, 80),
            bg: Color::Black,
            kind: ItemKind::Beer { heal: 5, blunt_damage: 3 },
        },
        2 => ItemBundle {
            name: "Ale",
            symbol: "a",
            fg: Color::Rgb(190, 150, 70),
            bg: Color::Black,
            kind: ItemKind::Ale { heal: 7, blunt_damage: 3 },
        },
        3 => ItemBundle {
            name: "Stout",
            symbol: "s",
            fg: Color::Rgb(80, 50, 30),
            bg: Color::Black,
            kind: ItemKind::Stout { heal: 8, blunt_damage: 4 },
        },
        4 => ItemBundle {
            name: "Wine",
            symbol: "w",
            fg: Color::Rgb(140, 40, 60),
            bg: Color::Black,
            kind: ItemKind::Wine { heal: 6, blunt_damage: 3 },
        },
        _ => ItemBundle {
            name: "Rum",
            symbol: "r",
            fg: Color::Rgb(160, 100, 40),
            bg: Color::Black,
            kind: ItemKind::Rum { heal: 12, blunt_damage: 4 },
        },
    }
}

fn starting_blade(draw: u32) -> (item: Option<ItemBundle>)
    ensures
        blade_of(draw) == match item {
            Some(blade) => seq![blade],
            None => seq![],
        },
{
    match draw.wrapping_mul(47) % 3 {
        0 => Some(
            ItemBundle {
                name: "Knife",
                symbol: "/",
                fg: Color::Rgb(192, 192, 210),
                bg: Color::Black,
                kind: ItemKind::Knife { attack: 4, blunt_damage: 6 },
            },
        ),
        1 => Some(
            ItemBundle {
                name: "Tomahawk",
                symbol: "t",
                fg: Color::Rgb(160, 120, 80),
                bg: Color::Black,
                kind: ItemKind::Tomahawk { attack: 5, blunt_damage: 7 },
            },
        ),
        _ => None,
    }
}

fn starting_explosive(draw: u32) -> (item: ItemBundle)
    ensures
        item == explosive_of(draw),
{
    if draw.wrapping_mul(59) % 2 == 0 {
        ItemBundle {
            name: "Dynamite",
            symbol: "d",
            fg: Color::Rgb(200, 50, 50),
            bg: Color::Black,
            kind: ItemKind::Grenade { damage: 8, radius: 3, blunt_damage: 5 },
        }
    } else {
        ItemBundle {
            name: "Molotov",
            symbol: "m",
            fg: Color::Rgb(255, 100, 0),
            bg: Color::Black,
            kind: ItemKind::Molotov { damage: 6, radius: 4, blunt_damage: 4 },
        }
    }
}

/// Decides where the player starts and what they carry. Both follow from the map alone.
/// `action_cost` is the energy that one action takes.
pub fn do_spawn_player(
    sites: &SpawnSites,
    ballistics: &Ballistics,
    action_cost: i32,
) -> (spawn: PlayerSpawn)
    ensures
        spawn.player == player_at(sites.choice(), action_cost),
        spawn.items@ == loadout(sites.choice(), *ballistics),
        spawn.visible_tiles@ == Seq::<GridVec>::empty(),
        spawn.revealed_tiles@ == Seq::<GridVec>::empty(),
        spawn.caliber == gun_of(draw_of(sites.choice())).caliber,
{
    let pos = sites.player_spawn();
    let draw: u32 = (pos.x.wrapping_mul(7919) ^ pos.y.wrapping_mul(6271)) as u32;
    let pool = starting_guns();
    let gun = pool[(draw % 11) as usize];
    let mut items: Vec<ItemBundle> = Vec::new();
    items.push(
        ItemBundle {
            name: gun.name,
            symbol: gun.symbol,
            fg: Color::Rgb(160, 150, 140),
            bg: Color::Black,
            kind: ItemKind::Gun {
                loaded: gun.capacity,
                capacity: gun.capacity,
                caliber: gun.caliber,
                attack: ballistics.damage(gun.caliber),
                name: gun.name,
                blunt_damage: 5,
            },
        },
    );
    items.push(starting_drink(draw));
    let blade = starting_blade(draw);
    if let Some(item) = blade {
        items.push(item);
    }
    items.push(starting_explosive(draw));
    assert(items@ =~= loadout(pos, *ballistics));
    PlayerSpawn {
        player: PlayerBundle {
            pos,
            name: "Rogue",
            symbol: "@",
            fg: Color::White,
            bg: Color::Black,
            faction: Gang::Civilians,
            health: Gauge { current: 100, max: 100 },
            stamina: Gauge { current: 100, max: 100 },
            attack: 5,
            speed: action_cost,
            energy: 0,
            view_range: 40,
            view_dirty: true,
            ai_state: AiState::Idle,
            look_dir: GridVec { x: 0, y: -1 },
            look_ticks: 0,
            patrol_origin: pos,
        },
        items,
        visible_tiles: Vec::new(),
        revealed_tiles: Vec::new(),
        caliber: gun.caliber,
    }
}

/// Something to drink.
pub open spec fn is_drink(kind: ItemKind<&'static str>) -> bool {
    match kind {
        ItemKind::Whiskey { .. } => true,
        ItemKind::Beer { .. } => true,
        ItemKind::Ale { .. } => true,
        ItemKind::Stout { .. } => true,
        ItemKind::Wine { .. } => true,
        ItemKind::Rum { .. } => true,
        _ => false,
    }
}

/// Wherever the player starts, they carry a loaded gun in the first slot, a drink in the
/// second, at most one blade behind it, and something that explodes in the last; all of it
/// fits into the inventory.
pub proof fn every_loadout_is_complete(pos: GridVec, ballistics: Ballistics)
    ensures
        ({
            let items = loadout(pos, ballistics);
            &&& 3 <= items.len() <= 4 <= MAX_INVENTORY_SIZE
            &&& items[0].kind matches ItemKind::Gun { loaded, capacity, name, .. } && loaded
                == capacity && capacity >= 1 && name == items[0].name
            &&& is_drink(items[1].kind)
            &&& items.len() == 4 ==> items[2].kind is Knife || items[2].kind is Tomahawk
            &&& items.last().kind is Grenade || items.last().kind is Molotov
        }),
{
    let draw = draw_of(pos);
    let n = (draw % 11) as int;
    assert(0 <= n < weapon_pool().len());
    let k = (draw.wrapping_mul(31) % 6) as int;
    assert(0 <= k < drinks().len());
}

/// The ammunition that the player gets is of the caliber of the gun that they start with, and
/// the gun does the damage of that caliber.
pub proof fn ammunition_fits_the_gun(pos: GridVec, ballistics: Ballistics)
    ensures
        ({
            let caliber_given = gun_of(draw_of(pos)).caliber;
            loadout(pos, ballistics)[0].kind matches ItemKind::Gun { caliber, attack, .. }
                && caliber == caliber_given && attack == ballistics.damage_of(caliber)
        }),
{
}

/// Where the player starts: inside a building if there is one, else on open ground if there is
/// some, else in the middle of the map.
pub proof fn players_start_inside_if_they_can(sites: SpawnSites)
    ensures
        sites.interior matches Some(pos) ==> sites.choice() == pos,
        sites.interior is None ==> (sites.open matches Some(pos) ==> sites.choice() == pos),
        sites.interior is None && sites.open is None ==> sites.choice() == sites.center,
{
}

/// `item` is a fully loaded gun that does `attack` per bullet.
pub open spec fn is_gun(
    item: ItemBundle,
    name: &'static str,
    symbol: &'static str,
    caliber: Caliber,
    capacity: i32,
    attack: i32,
) -> bool {
    &&& item.name == name
    &&& item.symbol == symbol
    &&& item.fg == Color::Rgb(160, 150, 140)
    &&& item.bg == Color::Black
    &&& item.kind == ItemKind::Gun {
        loaded: capacity,
        capacity,
        caliber,
        attack,
        name,
        blunt_damage: 5,
    }
}

/// The remainder of the draw says which gun is in the first slot.
pub proof fn draws_decide_the_gun(
    pos: GridVec,
    ballistics: Ballistics,
    n: u32,
    gun: ItemBundle,
)
    requires
        n == (pos.x.wrapping_mul(7919) ^ pos.y.wrapping_mul(6271)) as u32 % 11,
        gun == loadout(pos, ballistics)[0],
    ensures
        n < 11,
        n == 0 ==> is_gun(gun, "Colt Sheriff", "p", Caliber::Cal36, 5, ballistics.cal36),
        n == 1 ==> is_gun(gun, "Colt Army", "p", Caliber::Cal44, 6, ballistics.cal44),
        n == 2 ==> is_gun(gun, "Colt Pocket", "p", Caliber::Cal31, 5, ballistics.cal31),
        n == 3 ==> is_gun(gun, "Remington New Model Army", "p", Caliber::Cal44, 6, ballistics.cal44),
        n == 4 ==> is_gun(gun, "Starr 1858 DA", "p", Caliber::Cal44, 6, ballistics.cal44),
        n == 5 ==> is_gun(gun, "Savage 1856", "p", Caliber::Cal36, 6, ballistics.cal36),
        n == 6 ==> is_gun(gun, "Adams Revolver", "p", Caliber::Cal44, 5, ballistics.cal44),
        n == 7 ==> is_gun(gun, "Hawken Rifle", "r", Caliber::Cal50, 1, ballistics.cal50),
        n == 8 ==> is_gun(gun, "Springfield 1842", "r", Caliber::Cal69, 1, ballistics.cal69),
        n == 9 ==> is_gun(gun, "Springfield 1855", "r", Caliber::Cal58, 1, ballistics.cal58),
        n == 10 ==> is_gun(gun, "Enfield 1853", "r", Caliber::Cal577, 1, ballistics.cal577),
        gun_of(draw_of(pos)).caliber == gun.kind->caliber,
{
}

/// The remainder of the draw says which drink is in the second slot.
pub proof fn draws_decide_the_drink(
    pos: GridVec,
    ballistics: Ballistics,
    n: u32,
    drink: ItemBundle,
)
    requires
        n == ((pos.x.wrapping_mul(7919) ^ pos.y.wrapping_mul(6271)) as u32).wrapping_mul(31) % 6,
        drink == loadout(pos, ballistics)[1],
    ensures
        n < 6,
        n == 0 ==> drink == (ItemBundle {
            name: "Whiskey",
            symbol: "w",
            fg: Color::Rgb(180, 120, 60),
            bg: Color::Black,
            kind: ItemKind::Whiskey { heal: 10, blunt_damage: 4 },
        }),
        n == 1 ==> drink == (ItemBundle {
            name: "Beer",
            symbol: "b",
            fg: Color::Rgb(200, 180, 80),
            bg: Color::Black,
            kind: ItemKind::Beer { heal: 5, blunt_damage: 3 },
        }),
        n == 2 ==> drink == (ItemBundle {
            name: "Ale",
            symbol: "a",
            fg: Color::Rgb(190, 150, 70),
            bg: Color::Black,
            kind: ItemKind::Ale { heal: 7, blunt_damage: 3 },
        }),
        n == 3 ==> drink == (ItemBundle {
            name: "Stout",
            symbol: "s",
            fg: Color::Rgb(80, 50, 30),
            bg: Color::Black,
            kind: ItemKind::Stout { heal: 8, blunt_damage: 4 },
        }),
        n == 4 ==> drink == (ItemBundle {
            name: "Wine",
            symbol: "w",
            fg: Color::Rgb(140, 40, 60),
            bg: Color::Black,
            kind: ItemKind::Wine { heal: 6, blunt_damage: 3 },
        }),
        n == 5 ==> drink == (ItemBundle {
            name: "Rum",
            symbol: "r",
            fg: Color::Rgb(160, 100, 40),
            bg: Color::Black,
            kind: ItemKind::Rum { heal: 12, blunt_damage: 4 },
        }),
{
}

/// The remainders of the draw say whether there is a knife, a tomahawk or no blade in the third
/// slot, and whether the last one holds dynamite or a molotov.
pub proof fn draws_decide_the_weapons(
    pos: GridVec,
    ballistics: Ballistics,
    draw: u32,
    items: Seq<ItemBundle>,
)
    requires
        draw == (pos.x.wrapping_mul(7919) ^ pos.y.wrapping_mul(6271)) as u32,
        items == loadout(pos, ballistics),
    ensures
        draw.wrapping_mul(47) % 3 == 2 <==> items.len() == 3,
        draw.wrapping_mul(47) % 3 != 2 <==> items.len() == 4,
        draw.wrapping_mul(47) % 3 == 0 ==> items[2] == (ItemBundle {
            name: "Knife",
            symbol: "/",
            fg: Color::Rgb(192, 192, 210),
            bg: Color::Black,
            kind: ItemKind::Knife { attack: 4, blunt_damage: 6 },
        }),
        draw.wrapping_mul(47) % 3 == 1 ==> items[2] == (ItemBundle {
            name: "Tomahawk",
            symbol: "t",
            fg: Color::Rgb(160, 120, 80),
            bg: Color::Black,
            kind: ItemKind::Tomahawk { attack: 5, blunt_damage: 7 },
        }),
        draw.wrapping_mul(59) % 2 == 0 ==> items.last() == (ItemBundle {
            name: "Dynamite",
            symbol: "d",
            fg: Color::Rgb(200, 50, 50),
            bg: Color::Black,
            kind: ItemKind::Grenade { damage: 8, radius: 3, blunt_damage: 5 },
        }),
        draw.wrapping_mul(59) % 2 == 1 ==> items.last() == (ItemBundle {
            name: "Molotov",
            symbol: "m",
            fg: Color::Rgb(255, 100, 0),
            bg: Color::Black,
            kind: ItemKind::Molotov { damage: 6, radius: 4, blunt_damage: 4 },
        }),
{
}

/// Wherever the player starts, they are the same: hale, rested, idle, on the side of the
/// civilians, with everything still to be seen and the energy for one action in a tick. Only
/// the place differs, and it is where they patrol.
pub proof fn players_start_hale(pos: GridVec, other: GridVec, action_cost: i32)
    ensures
        ({
            let player = player_at(pos, action_cost);
            &&& player.pos == pos
            &&& player.patrol_origin == pos
            &&& player.name == "Rogue"
            &&& player.symbol == "@"
            &&& player.fg == Color::White
            &&& player.bg == Color::Black
            &&& player.faction == Gang::Civilians
            &&& player.health.current == 100 && player.health.max == 100
            &&& player.stamina.current == 100 && player.stamina.max == 100
            &&& player.attack == 5
            &&& player.speed == action_cost
            &&& player.energy == 0
            &&& player.view_range == 40
            &&& player.view_dirty
            &&& player.ai_state == AiState::Idle
            &&& player.look_dir.x == 0 && player.look_dir.y == -1
            &&& player.look_ticks == 0
        }),
        player_at(other, action_cost) == (PlayerBundle {
            pos: other,
            patrol_origin: other,
            ..player_at(pos, action_cost)
        }),
{
}

/// The town is 800 tiles wide and 560 high. A building is looked for in a wider circle than
/// open ground, and the ground that is cleared is smaller than both.
pub proof fn town_is_as_large_as_it_is()
    ensures
        MAP_WIDTH == 800,
        MAP_HEIGHT == 560,
        INTERIOR_RADIUS == 40,
        OPEN_RADIUS == 20,
        CLEAR_RADIUS == 3,
{
}

} // verus!
