//! Where the other people of the town start.

use vstd::prelude::*;

use crate::grid::{in_i32, square_distance, GridVec};

verus! {

/// How far from the middle of the map the groups gather, in each direction.
pub const SPAWN_RADIUS: i32 = 150;

/// How far from the border of the map a group has to stay.
pub const BORDER: i32 = 10;

/// Smallest size of a group.
pub const SMALLEST_GROUP: i32 = 5;

/// A group spreads over a square of tiles with this many on each side.
pub const WINDOW_SIDE: usize = 17;

/// Number of tiles that a group spreads over.
pub const WINDOW_TILES: usize = 289;

/// Who walks the streets.
#[derive(Clone, Copy, Debug, PartialEq, Eq, Structural)]
pub enum Gang {
    Apache,
    Vaqueros,
    Civilians,
    Police,
    Outlaws,
    Lawmen,
}

impl Gang {
    /// Places of the gang's members in the list of monster templates.
    pub open spec fn members(self) -> Seq<usize> {
        match self {
            Gang::Apache => seq![2, 3],
            Gang::Vaqueros => seq![0],
            Gang::Civilians => seq![1],
            Gang::Police => seq![4, 5],
            Gang::Outlaws => seq![6, 7],
            Gang::Lawmen => seq![8, 9],
        }
    }

    /// Sets the noise of one gang apart from that of the others.
    pub open spec fn noise_offset(self) -> u64 {
        match self {
            Gang::Apache => 10,
            Gang::Vaqueros => 20,
            Gang::Civilians => 30,
            Gang::Police => 40,
            Gang::Outlaws => 50,
            Gang::Lawmen => 60,
        }
    }

    pub open spec fn group_count(self) -> int {
        match self {
            Gang::Apache => 14,
            Gang::Vaqueros => 14,
            Gang::Civilians => 8,
            Gang::Police => 12,
            Gang::Outlaws => 16,
            Gang::Lawmen => 12,
        }
    }

    pub fn templates(self) -> (members: Vec<usize>)
        ensures
            members@ == self.members(),
    {
        match self {
            Gang::Apache => vec![2, 3],
            Gang::Vaqueros => vec![0],
            Gang::Civilians => vec![1],
            Gang::Police => vec![4, 5],
            Gang::Outlaws => vec![6, 7],
            Gang::Lawmen => vec![8, 9],
        }
    }

    pub fn offset(self) -> (n: u64)
        ensures
            n == self.noise_offset(),
    {
        match self {
            Gang::Apache => 10,
            Gang::Vaqueros => 20,
            Gang::Civilians => 30,
            Gang::Police => 40,
            Gang::Outlaws => 50,
            Gang::Lawmen => 60,
        }
    }

    pub fn groups(self) -> (n: i32)
        ensures
            n == self.group_count(),
    {
        match self {
            Gang::Apache => 14,
            Gang::Vaqueros => 14,
            Gang::Civilians => 8,
            Gang::Police => 12,
            Gang::Outlaws => 16,
            Gang::Lawmen => 12,
        }
    }
}

/// A group that is to be placed.
#[derive(Clone, Copy, Debug, PartialEq, Eq)]
pub struct Group {
    pub gang: Gang,
    /// Number of the group within its gang.
    pub index: i32,
    /// Seed of the noise that places the group.
    pub seed: u64,
}

/// Where to sample the noise, and with what seed.
#[derive(Clone, Copy, Debug, PartialEq, Eq)]
pub struct NoiseSample {
    pub x: i32,
    pub y: i32,
    pub seed: u64,
}

/// `n` as a value of `u64`, counted round.
pub open spec fn wrapped(n: int) -> u64 {
    (n % 0x1_0000_0000_0000_0000) as u64
}

/// Seed of the noise for the group number `index` of a gang, on the map with the seed `seed`.
pub open spec fn group_seed(seed: u64, gang: Gang, index: int) -> u64 {
    wrapped(seed + 54321 + 99999 + gang.noise_offset() * 1000 + index)
}

/// The groups of one gang.
pub open spec fn groups_of(seed: u64, gang: Gang) -> Seq<Group> {
    Seq::new(
        gang.group_count() as nat,
        |i: int| Group { gang, index: i as i32, seed: group_seed(seed, gang, i) },
    )
}

/// All groups, gang by gang.
pub open spec fn all_groups(seed: u64) -> Seq<Group> {
    groups_of(seed, Gang::Apache) + groups_of(seed, Gang::Vaqueros) + groups_of(
        seed,
        Gang::Civilians,
    ) + groups_of(seed, Gang::Police) + groups_of(seed, Gang::Outlaws) + groups_of(
        seed,
        Gang::Lawmen,
    )
}

/// Adds the groups of one gang.
fn push_groups(list: &mut Vec<Group>, seed: u64, gang: Gang)
    ensures
        final(list)@ == old(list)@ + groups_of(seed, gang),
{
    let gang_seed: u64 = seed.wrapping_add(54321).wrapping_add(99999);
    let count: i32 = gang.groups();
    let offset: u64 = gang.offset();
    let mut index: i32 = 0;
    while index < count
        invariant
            0 <= index <= count,
            count == gang.group_count(),
            offset == gang.noise_offset(),
            gang_seed == wrapped(seed + 54321 + 99999),
            list@ == old(list)@ + groups_of(seed, gang).take(index as int),
        decreases count - index,
    {
        let group = Group {
            gang,
            index,
            seed: gang_seed.wrapping_add(offset * 1000 + index as u64),
        };
        assert(group == groups_of(seed, gang)[index as int]);
        list.push(group);
        index = index + 1;
        assert(list@ =~= old(list)@ + groups_of(seed, gang).take(index as int));
    }
    assert(groups_of(seed, gang).take(index as int) =~= groups_of(seed, gang));
}

/// The groups that are to be placed on the map with the seed `seed`.
pub fn group_plan(seed: u64) -> (plan: Vec<Group>)
    ensures
        plan@ == all_groups(seed),
{
    let mut plan: Vec<Group> = Vec::new();
    push_groups(&mut plan, seed, Gang::Apache);
    push_groups(&mut plan, seed, Gang::Vaqueros);
    push_groups(&mut plan, seed, Gang::Civilians);
    push_groups(&mut plan, seed, Gang::Police);
    push_groups(&mut plan, seed, Gang::Outlaws);
    push_groups(&mut plan, seed, Gang::Lawmen);
    assert(plan@ =~= all_groups(seed));
    plan
}

impl Group {
    /// The sample that shifts the group to the east or west.
    pub fn sample_for_x(&self) -> (s: NoiseSample)
        ensures
            s == (NoiseSample {
                x: self.index,
                y: self.gang.noise_offset() as i32,
                seed: self.seed,
            }),
    {
        NoiseSample { x: self.index, y: self.gang.offset() as i32, seed: self.seed }
    }

    /// The sample that shifts the group to the north or south.
    pub fn sample_for_y(&self) -> (s: NoiseSample)
        ensures
            s == (NoiseSample {
                x: self.gang.noise_offset() as i32,
                y: self.index,
                seed: wrapped(self.seed + 1),
            }),
            s.seed as int == (self.seed + 1) % 0x1_0000_0000_0000_0000,
    {
        NoiseSample {
            x: self.gang.offset() as i32,
            y: self.index,
            seed: self.seed.wrapping_add(1),
        }
    }

    /// The sample that decides how many there are in the group.
    pub fn sample_for_size(&self, anchor: GridVec) -> (s: NoiseSample)
        ensures
            s == (NoiseSample { x: anchor.x, y: anchor.y, seed: wrapped(self.seed + 2) }),
            s.seed as int == (self.seed + 2) % 0x1_0000_0000_0000_0000,
    {
        NoiseSample { x: anchor.x, y: anchor.y, seed: self.seed.wrapping_add(2) }
    }

    /// The sample that decides whether a tile is taken.
    pub fn sample_for_tile(&self, pos: GridVec) -> (s: NoiseSample)
        ensures
            s == (NoiseSample { x: pos.x, y: pos.y, seed: wrapped(self.seed + 3333) }),
            s.seed as int == (self.seed + 3333) % 0x1_0000_0000_0000_0000,
    {
        NoiseSample { x: pos.x, y: pos.y, seed: self.seed.wrapping_add(3333) }
    }
}

/// `n` held between `low` and `high`.
pub open spec fn clamped(n: int, low: int, high: int) -> int {
    if n < low {
        low
    } else if n > high {
        high
    } else {
        n
    }
}

fn clamp(n: i32, low: i32, high: i32) -> (c: i32)
    requires
        low <= high,
    ensures
        c == clamped(n as int, low as int, high as int),
{
    if n < low {
        low
    } else if n > high {
        high
    } else {
        n
    }
}

/// The tile around which a group gathers: the middle of the map, shifted, and kept away from
/// the border.
pub open spec fn anchor_at(width: i32, height: i32, shift: GridVec) -> GridVec {
    GridVec::at(
        clamped(width / 2 + shift.x, BORDER as int, width - BORDER),
        clamped(height / 2 + shift.y, BORDER as int, height - BORDER),
    )
}

/// Along an axis on which the map has `size` tiles, a group gathers `shift` tiles from the
/// middle, and at least 10 from either end.
pub open spec fn gathering_place(size: int, shift: int) -> int {
    let wanted = size / 2 + shift;
    if wanted < 10 {
        10
    } else if wanted > size - 10 {
        size - 10
    } else {
        wanted
    }
}

/// Finds the tile around which a group gathers.
pub fn group_anchor(width: i32, height: i32, shift: GridVec) -> (anchor: GridVec)
    requires
        width >= 2 * BORDER,
        height >= 2 * BORDER,
        in_i32(width / 2 + shift.x),
        in_i32(height / 2 + shift.y),
    ensures
        anchor == anchor_at(width, height, shift),
        anchor.x == clamped(width / 2 + shift.x, BORDER as int, width - BORDER),
        anchor.y == clamped(height / 2 + shift.y, BORDER as int, height - BORDER),
        10 <= anchor.x <= width - 10,
        10 <= anchor.y <= height - 10,
        10 <= width / 2 + shift.x <= width - 10 ==> anchor.x == width / 2 + shift.x,
        10 <= height / 2 + shift.y <= height - 10 ==> anchor.y == height / 2 + shift.y,
        width / 2 + shift.x < 10 ==> anchor.x == 10,
        height / 2 + shift.y < 10 ==> anchor.y == 10,
        width / 2 + shift.x > width - 10 ==> anchor.x == width - 10,
        height / 2 + shift.y > height - 10 ==> anchor.y == height - 10,
{
    GridVec {
        x: clamp(width / 2 + shift.x, BORDER, width - BORDER),
        y: clamp(height / 2 + shift.y, BORDER, height - BORDER),
    }
}

/// How many there are in a group, where the noise adds `bonus`.
pub fn group_size(bonus: i32) -> (size: i32)
    requires
        in_i32(SMALLEST_GROUP + bonus),
    ensures
        size == SMALLEST_GROUP + bonus,
{
    SMALLEST_GROUP + bonus
}

/// What is known of a tile.
#[derive(Clone, Copy, Debug, PartialEq, Eq)]
pub struct Tile {
    /// Someone can stand there.
    pub spawnable: bool,
    /// The noise leaves the tile to the group.
    pub taken: bool,
}

/// Someone of a gang, who is about to enter the game.
#[derive(Clone, Copy, Debug, PartialEq, Eq)]
pub struct MonsterSpawn {
    pub gang: Gang,
    /// Place in the list of monster templates.
    pub template: usize,
    pub pos: GridVec,
}

/// The tile number `k` of the square around `anchor`, row by row from its lowest coordinates.
pub open spec fn window_tile(anchor: GridVec, k: int) -> GridVec {
    GridVec::at(anchor.x + k % 17 - 8, anchor.y + k / 17 - 8)
}

/// All tiles of the square around `anchor` have coordinates in `i32`.
pub open spec fn window_fits(anchor: GridVec) -> bool {
    in_i32(anchor.x - 8) && in_i32(anchor.x + 8) && in_i32(anchor.y - 8) && in_i32(anchor.y + 8)
}

/// The tile number `k` of the square around `anchor`.
pub fn window_pos(anchor: GridVec, k: usize) -> (pos: GridVec)
    requires
        window_fits(anchor),
        k < WINDOW_TILES,
    ensures
        pos == window_tile(anchor, k as int),
        pos.x == anchor.x - 8 + k % 17,
        pos.y == anchor.y - 8 + k / 17,
{
    let dx: i32 = (k % WINDOW_SIDE) as i32 - 8;
    let dy: i32 = (k / WINDOW_SIDE) as i32 - 8;
    GridVec { x: anchor.x + dx, y: anchor.y + dy }
}

/// A tile is clear of the player by 8, and for all but civilians within 150 of them.
pub open spec fn right_distance(gang: Gang, pos: GridVec, player: GridVec) -> bool {
    &&& square_distance(pos, player) >= 8 * 8
    &&& gang == Gang::Civilians || square_distance(pos, player) <= 150 * 150
}

/// Someone of the gang can start on the tile number `k`.
pub open spec fn eligible(
    gang: Gang,
    anchor: GridVec,
    player: GridVec,
    tiles: Seq<Tile>,
    k: int,
) -> bool {
    &&& right_distance(gang, window_tile(anchor, k), player)
    &&& tiles[k].spawnable
    &&& tiles[k].taken
}

/// The numbers below `n` of tiles where someone can start, in ascending order.
pub open spec fn eligible_below(
    gang: Gang,
    anchor: GridVec,
    player: GridVec,
    tiles: Seq<Tile>,
    n: int,
) -> Seq<int>
    decreases n,
{
    if n <= 0 {
        Seq::empty()
    } else {
        let before = eligible_below(gang, anchor, player, tiles, n - 1);
        if eligible(gang, anchor, player, tiles, n - 1) {
            before.push(n - 1)
        } else {
            before
        }
    }
}

/// A group of at most `size`: the first of the tiles where someone can start, with the
/// templates of the gang in turn.
pub open spec fn group_of(
    gang: Gang,
    anchor: GridVec,
    size: int,
    player: GridVec,
    tiles: Seq<Tile>,
) -> Seq<MonsterSpawn> {
    let found = eligible_below(gang, anchor, player, tiles, WINDOW_TILES as int);
    Seq::new(
        clamped(size, 0, found.len() as int) as nat,
        |j: int|
            MonsterSpawn {
                gang,
                template: gang.members()[j % gang.members().len() as int],
                pos: window_tile(anchor, found[j]),
            },
    )
}

/// The distances to the player that are looked at before the group is complete can be
/// computed.
pub open spec fn distances_fit(
    gang: Gang,
    anchor: GridVec,
    size: int,
    player: GridVec,
    tiles: Seq<Tile>,
) -> bool {
    forall|k: int|
        0 <= k < WINDOW_TILES && eligible_below(gang, anchor, player, tiles, k).len() < size
            ==> square_distance(#[trigger] window_tile(anchor, k), player) <= i32::MAX
}

/// What is found below a number is the beginning of what is found below a higher one.
proof fn lemma_found_grows(
    gang: Gang,
    anchor: GridVec,
    player: GridVec,
    tiles: Seq<Tile>,
    n: int,
    k: int,
)
    requires
        0 <= n <= k,
    ensures
        ({
            let few = eligible_below(gang, anchor, player, tiles, n);
            let more = eligible_below(gang, anchor, player, tiles, k);
            &&& few.len() <= more.len()
            &&& forall|j: int| 0 <= j < few.len() ==> few[j] == #[trigger] more[j]
        }),
    decreases k - n,
{
    if n < k {
        lemma_found_grows(gang, anchor, player, tiles, n, k - 1);
    }
}

/// Places one group.
pub fn place_group(
    gang: Gang,
    anchor: GridVec,
    size: i32,
    player: GridVec,
    tiles: &Vec<Tile>,
) -> (group: Vec<MonsterSpawn>)
    requires
        tiles@.len() == WINDOW_TILES,
        window_fits(anchor),
        distances_fit(gang, anchor, size as int, player, tiles@),
    ensures
        group@ == group_of(gang, anchor, size as int, player, tiles@),
{
    let templates = gang.templates();
    let count: usize = templates.len();
    let mut group: Vec<MonsterSpawn> = Vec::new();
    let mut spawned: i32 = 0;
    let mut k: usize = 0;
    while k < WINDOW_TILES && spawned < size
        invariant
            k <= WINDOW_TILES,
            tiles@.len() == WINDOW_TILES,
            window_fits(anchor),
            distances_fit(gang, anchor, size as int, player, tiles@),
            templates@ == gang.members(),
            count == gang.members().len(),
            count > 0,
            0 <= spawned <= k,
            spawned <= size || spawned == 0,
            spawned == group@.len(),
            group@.len() == eligible_below(gang, anchor, player, tiles@, k as int).len(),
            forall|j: int|
                0 <= j < group@.len() ==> #[trigger] group@[j] == (MonsterSpawn {
                    gang,
                    template: gang.members()[j % gang.members().len() as int],
                    pos: window_tile(
                        anchor,
                        eligible_below(gang, anchor, player, tiles@, k as int)[j],
                    ),
                }),
        decreases WINDOW_TILES - k,
    {
        let pos = window_pos(anchor, k);
        assert(square_distance(window_tile(anchor, k as int), player) <= i32::MAX);
        let distance = pos.distance_squared(player);
        let near_enough = gang == Gang::Civilians || distance <= 150 * 150;
        if distance >= 8 * 8 && near_enough && tiles[k].spawnable && tiles[k].taken {
            let turn: usize = spawned as usize % count;
            group.push(MonsterSpawn { gang, template: templates[turn], pos });
            spawned = spawned + 1;
        }
        k = k + 1;
    }
    proof {
        lemma_found_grows(gang, anchor, player, tiles@, k as int, WINDOW_TILES as int);
        assert(group@ =~= group_of(gang, anchor, size as int, player, tiles@));
    }
    group
}

/// What the map and the noise say about one group.
#[derive(Debug)]
pub struct GroupSurvey {
    /// How far from the middle of the map the group gathers.
    pub shift: GridVec,
    /// By how many the group exceeds the smallest size.
    pub bonus: i32,
    /// The tiles of the square around the place where it gathers, row by row.
    pub tiles: Vec<Tile>,
}

impl GroupSurvey {
    /// Where the group gathers.
    pub open spec fn anchor(self, width: i32, height: i32) -> GridVec {
        anchor_at(width, height, self.shift)
    }

    /// A group of `gang` can be placed with this survey.
    pub open spec fn usable(self, gang: Gang, width: i32, height: i32, player: GridVec) -> bool {
        &&& self.tiles@.len() == WINDOW_TILES
        &&& in_i32(width / 2 + self.shift.x)
        &&& in_i32(height / 2 + self.shift.y)
        &&& in_i32(SMALLEST_GROUP + self.bonus)
        &&& distances_fit(
            gang,
            self.anchor(width, height),
            SMALLEST_GROUP + self.bonus,
            player,
            self.tiles@,
        )
    }

    /// The group of `gang` that this survey gives.
    pub open spec fn group(
        self,
        gang: Gang,
        width: i32,
        height: i32,
        player: GridVec,
    ) -> Seq<MonsterSpawn> {
        group_of(
            gang,
            self.anchor(width, height),
            SMALLEST_GROUP + self.bonus,
            player,
            self.tiles@,
        )
    }
}

/// Everyone of the first `n` groups, group by group.
pub open spec fn crowd(
    groups: Seq<Group>,
    surveys: Seq<GroupSurvey>,
    width: i32,
    height: i32,
    player: GridVec,
    n: int,
) -> Seq<MonsterSpawn>
    decreases n,
{
    if n <= 0 {
        Seq::empty()
    } else {
        crowd(groups, surveys, width, height, player, n - 1) + surveys[n - 1].group(
            groups[n - 1].gang,
            width,
            height,
            player,
        )
    }
}

/// Places all groups on a map of the given size. There is one survey for each of them, in the
/// order of the plan; `player` is where the player starts.
pub fn do_spawn_monsters(
    seed: u64,
    width: i32,
    height: i32,
    player: GridVec,
    surveys: &Vec<GroupSurvey>,
) -> (monsters: Vec<MonsterSpawn>)
    requires
        width >= 2 * BORDER,
        height >= 2 * BORDER,
        surveys@.len() == all_groups(seed).len(),
        forall|i: int|
            0 <= i < surveys@.len() ==> (#[trigger] surveys@[i]).usable(
                all_groups(seed)[i].gang,
                width,
                height,
                player,
            ),
    ensures
        monsters@ == crowd(
            all_groups(seed),
            surveys@,
            width,
            height,
            player,
            surveys@.len() as int,
        ),
{
    let plan = group_plan(seed);
    let mut monsters: Vec<MonsterSpawn> = Vec::new();
    let mut n: usize = 0;
    while n < plan.len()
        invariant
            n <= plan@.len(),
            width >= 2 * BORDER,
            height >= 2 * BORDER,
            plan@ == all_groups(seed),
            surveys@.len() == plan@.len(),
            forall|i: int|
                0 <= i < surveys@.len() ==> (#[trigger] surveys@[i]).usable(
                    plan@[i].gang,
                    width,
                    height,
                    player,
                ),
            monsters@ == crowd(plan@, surveys@, width, height, player, n as int),
        decreases plan@.len() - n,
    {
        let survey = &surveys[n];
        assert(surveys@[n as int].usable(plan@[n as int].gang, width, height, player));
        proof {
            anchors_keep_from_the_border(width, height, surveys@[n as int].shift);
        }
        let anchor = group_anchor(width, height, survey.shift);
        let size = group_size(survey.bonus);
        let mut group = place_group(plan[n].gang, anchor, size, player, &survey.tiles);
        monsters.append(&mut group);
        n = n + 1;
    }
    monsters
}

/// Each gang has the number of groups that it should, 76 in all, and no two groups of a map
/// share a seed.
pub proof fn groups_have_seeds_of_their_own(seed: u64, i: int, j: int)
    requires
        0 <= i < j < all_groups(seed).len(),
    ensures
        all_groups(seed).len() == 76,
        all_groups(seed)[i].seed != all_groups(seed)[j].seed,
{
    let a = all_groups(seed)[i];
    let b = all_groups(seed)[j];
    lemma_group_at(seed, i);
    lemma_group_at(seed, j);
    let x = a.gang.noise_offset() * 1000 + a.index;
    let y = b.gang.noise_offset() * 1000 + b.index;
    assert(x != y);
    let base = seed + 54321 + 99999;
    assert(0 <= x < 100_000 && 0 <= y < 100_000);
    assert(a.seed == wrapped(base + x));
    assert(b.seed == wrapped(base + y));
}

/// The group at a place of the plan.
proof fn lemma_group_at(seed: u64, i: int)
    requires
        0 <= i < all_groups(seed).len(),
    ensures
        all_groups(seed).len() == 76,
        ({
            let (gang, first) = if i < 14 {
                (Gang::Apache, 0int)
            } else if i < 28 {
                (Gang::Vaqueros, 14)
            } else if i < 36 {
                (Gang::Civilians, 28)
            } else if i < 48 {
                (Gang::Police, 36)
            } else if i < 64 {
                (Gang::Outlaws, 48)
            } else {
                (Gang::Lawmen, 64)
            };
            all_groups(seed)[i] == Group {
                gang,
                index: (i - first) as i32,
                seed: group_seed(seed, gang, i - first),
            }
        }),
{
}

/// What is found are the numbers of eligible tiles, each once.
proof fn lemma_found(gang: Gang, anchor: GridVec, player: GridVec, tiles: Seq<Tile>, n: int)
    requires
        0 <= n,
    ensures
        ({
            let found = eligible_below(gang, anchor, player, tiles, n);
            &&& forall|j: int|
                0 <= j < found.len() ==> 0 <= #[trigger] found[j] < n && eligible(
                    gang,
                    anchor,
                    player,
                    tiles,
                    found[j],
                )
            &&& forall|i: int, j: int|
                0 <= i < j < found.len() ==> #[trigger] found[i] < #[trigger] found[j]
        }),
    decreases n,
{
    if n > 0 {
        lemma_found(gang, anchor, player, tiles, n - 1);
        let before = eligible_below(gang, anchor, player, tiles, n - 1);
        let found = eligible_below(gang, anchor, player, tiles, n);
        assert forall|j: int| 0 <= j < found.len() implies 0 <= #[trigger] found[j] < n && eligible(
            gang,
            anchor,
            player,
            tiles,
            found[j],
        ) by {
            if j < before.len() {
                assert(found[j] == before[j]);
            }
        }
        assert forall|i: int, j: int| 0 <= i < j < found.len() implies #[trigger] found[i]
            < #[trigger] found[j] by {
            assert(found[i] == before[i]);
            if j < before.len() {
                assert(found[j] == before[j]);
            }
        }
    }
}

/// No one starts within 8 tiles of the player; all but civilians start within 150 tiles of
/// them; and everyone starts on a tile where they can stand, at most 8 away from the anchor
/// of their group.
pub proof fn groups_keep_their_distance(
    gang: Gang,
    anchor: GridVec,
    size: int,
    player: GridVec,
    tiles: Seq<Tile>,
    j: int,
)
    requires
        window_fits(anchor),
        0 <= j < group_of(gang, anchor, size, player, tiles).len(),
    ensures
        ({
            let pos = group_of(gang, anchor, size, player, tiles)[j].pos;
            &&& right_distance(gang, pos, player)
            &&& -8 <= pos.x - anchor.x <= 8
            &&& -8 <= pos.y - anchor.y <= 8
            &&& exists|k: int|
                0 <= k < WINDOW_TILES && pos == #[trigger] window_tile(anchor, k)
                    && tiles[k].spawnable
        }),
{
    lemma_found(gang, anchor, player, tiles, WINDOW_TILES as int);
    let k = eligible_below(gang, anchor, player, tiles, WINDOW_TILES as int)[j];
    assert(eligible(gang, anchor, player, tiles, k));
    assert(group_of(gang, anchor, size, player, tiles)[j].pos == window_tile(anchor, k));
}

/// Somewhere among the first `n` groups is one of the gang of `monster`, whose square holds
/// the tile of `monster`, and someone can stand there.
pub open spec fn has_a_place(
    monster: MonsterSpawn,
    groups: Seq<Group>,
    surveys: Seq<GroupSurvey>,
    width: i32,
    height: i32,
    n: int,
) -> bool {
    exists|i: int, k: int|
        {
            &&& 0 <= i < n
            &&& 0 <= k < 17 * 17
            &&& monster.gang == groups[i].gang
            &&& monster.pos.x == gathering_place(width as int, surveys[i].shift.x as int) - 8 + k
                % 17
            &&& monster.pos.y == gathering_place(height as int, surveys[i].shift.y as int) - 8 + k
                / 17
            &&& (#[trigger] surveys[i].tiles@[k]).spawnable
        }
}

/// In the whole town no one starts within 8 tiles of the player, and no one but a civilian
/// farther than 150 tiles from them. Everyone starts on a tile of their group where they can
/// stand, at least 2 tiles away from the border of the map, and with a template of their gang.
pub proof fn crowd_keeps_its_distance(
    groups: Seq<Group>,
    surveys: Seq<GroupSurvey>,
    width: i32,
    height: i32,
    player: GridVec,
    n: int,
    j: int,
)
    requires
        0 <= n <= surveys.len(),
        width >= 2 * BORDER,
        height >= 2 * BORDER,
        0 <= j < crowd(groups, surveys, width, height, player, n).len(),
    ensures
        ({
            let monster = crowd(groups, surveys, width, height, player, n)[j];
            &&& square_distance(monster.pos, player) >= 8 * 8
            &&& monster.gang != Gang::Civilians ==> square_distance(monster.pos, player)
                <= 150 * 150
            &&& has_a_place(monster, groups, surveys, width, height, n)
            &&& 2 <= monster.pos.x <= width - 2
            &&& 2 <= monster.pos.y <= height - 2
            &&& monster.gang.members().contains(monster.template)
        }),
    decreases n,
{
    if n > 0 {
        let before = crowd(groups, surveys, width, height, player, n - 1);
        let monster = crowd(groups, surveys, width, height, player, n)[j];
        if j < before.len() {
            crowd_keeps_its_distance(groups, surveys, width, height, player, n - 1, j);
            assert(monster == before[j]);
        } else {
            let survey = surveys[n - 1];
            let anchor = survey.anchor(width, height);
            let gang = groups[n - 1].gang;
            let turn = j - before.len();
            anchors_keep_from_the_border(width, height, survey.shift);
            assert(monster == survey.group(gang, width, height, player)[turn]);
            groups_keep_their_distance(
                gang,
                anchor,
                SMALLEST_GROUP + survey.bonus,
                player,
                survey.tiles@,
                turn,
            );
            let count = gang.members().len() as int;
            assert(0 <= turn % count < count);
            assert(monster.template == gang.members()[turn % count]);
            let k = choose|k: int|
                0 <= k < WINDOW_TILES && monster.pos == #[trigger] window_tile(anchor, k)
                    && survey.tiles@[k].spawnable;
            assert(surveys[n - 1].tiles@[k].spawnable);
            assert(monster.pos.x == gathering_place(width as int, survey.shift.x as int) - 8 + k
                % 17);
            assert(monster.pos.y == gathering_place(height as int, survey.shift.y as int) - 8 + k
                / 17);
        }
    }
}

/// Where the noise adds at most 3 to each group, there are at most 8 for each group, and at
/// most 608 in the whole town.
pub proof fn crowd_is_bounded(
    seed: u64,
    surveys: Seq<GroupSurvey>,
    width: i32,
    height: i32,
    player: GridVec,
    n: int,
)
    requires
        0 <= n <= surveys.len(),
        forall|i: int| 0 <= i < surveys.len() ==> 0 <= (#[trigger] surveys[i]).bonus <= 3,
    ensures
        crowd(all_groups(seed), surveys, width, height, player, n).len() <= 8 * n,
        n == all_groups(seed).len() ==> crowd(
            all_groups(seed),
            surveys,
            width,
            height,
            player,
            n,
        ).len() <= 608,
    decreases n,
{
    assert(all_groups(seed).len() == 76);
    if n > 0 {
        crowd_is_bounded(seed, surveys, width, height, player, n - 1);
        let survey = surveys[n - 1];
        assert(0 <= survey.bonus <= 3);
        groups_are_of_their_size(
            all_groups(seed)[n - 1].gang,
            survey.anchor(width, height),
            survey.bonus as int,
            player,
            survey.tiles@,
        );
    }
}

/// Groups gather at least [`BORDER`] tiles away from the border of the map.
pub proof fn anchors_keep_from_the_border(width: i32, height: i32, shift: GridVec)
    requires
        width >= 2 * BORDER,
        height >= 2 * BORDER,
    ensures
        BORDER <= anchor_at(width, height, shift).x <= width - BORDER,
        BORDER <= anchor_at(width, height, shift).y <= height - BORDER,
        window_fits(anchor_at(width, height, shift)),
{
}

/// On a map of a reasonable size every survey of all tiles of a square can be used, whatever
/// the noise says, as long as it shifts the group by at most [`SPAWN_RADIUS`] and adds at most
/// 3 to it.
pub proof fn surveys_are_usable(
    survey: GroupSurvey,
    gang: Gang,
    width: i32,
    height: i32,
    player: GridVec,
)
    requires
        2 * BORDER <= width <= 30_000,
        2 * BORDER <= height <= 30_000,
        0 <= player.x < width,
        0 <= player.y < height,
        survey.tiles@.len() == WINDOW_TILES,
        -SPAWN_RADIUS <= survey.shift.x <= SPAWN_RADIUS,
        -SPAWN_RADIUS <= survey.shift.y <= SPAWN_RADIUS,
        0 <= survey.bonus <= 3,
    ensures
        survey.usable(gang, width, height, player),
{
    anchors_keep_from_the_border(width, height, survey.shift);
    squares_lie_on_the_map(
        gang,
        survey.anchor(width, height),
        SMALLEST_GROUP + survey.bonus,
        player,
        survey.tiles@,
        width,
        height,
    );
}

/// No two of a group start on the same tile.
pub proof fn groups_do_not_overlap_themselves(
    gang: Gang,
    anchor: GridVec,
    size: int,
    player: GridVec,
    tiles: Seq<Tile>,
    i: int,
    j: int,
)
    requires
        window_fits(anchor),
        0 <= i < j < group_of(gang, anchor, size, player, tiles).len(),
    ensures
        group_of(gang, anchor, size, player, tiles)[i].pos != group_of(
            gang,
            anchor,
            size,
            player,
            tiles,
        )[j].pos,
{
    lemma_found(gang, anchor, player, tiles, WINDOW_TILES as int);
    let found = eligible_below(gang, anchor, player, tiles, WINDOW_TILES as int);
    assert(found[i] < found[j]);
}

/// A group is as large as its size says unless it runs out of tiles; with a bonus of up to 3
/// that is 5 to 8.
pub proof fn groups_are_of_their_size(
    gang: Gang,
    anchor: GridVec,
    bonus: int,
    player: GridVec,
    tiles: Seq<Tile>,
)
    requires
        0 <= bonus <= 3,
    ensures
        ({
            let group = group_of(gang, anchor, SMALLEST_GROUP + bonus, player, tiles);
            let found = eligible_below(gang, anchor, player, tiles, WINDOW_TILES as int);
            &&& group.len() <= 8
            &&& found.len() >= SMALLEST_GROUP + bonus ==> 5 <= group.len() == SMALLEST_GROUP + bonus
            &&& found.len() < SMALLEST_GROUP + bonus ==> group.len() == found.len()
        }),
{
}

/// Around an anchor that keeps away from the border, every tile of the square is on the map, at
/// least 2 tiles away from its border, and on a map of a reasonable size all distances can be
/// computed.
pub proof fn squares_lie_on_the_map(
    gang: Gang,
    anchor: GridVec,
    size: int,
    player: GridVec,
    tiles: Seq<Tile>,
    width: i32,
    height: i32,
)
    requires
        BORDER <= anchor.x <= width - BORDER,
        BORDER <= anchor.y <= height - BORDER,
        0 <= player.x < width <= 30_000,
        0 <= player.y < height <= 30_000,
    ensures
        window_fits(anchor),
        forall|k: int|
            0 <= k < WINDOW_TILES ==> {
                &&& 2 <= #[trigger] window_tile(anchor, k).x <= width - 2
                &&& 2 <= window_tile(anchor, k).y <= height - 2
            },
        distances_fit(gang, anchor, size, player, tiles),
{
    assert forall|k: int| 0 <= k < WINDOW_TILES implies square_distance(
        #[trigger] window_tile(anchor, k),
        player,
    ) <= i32::MAX by {
        let pos = window_tile(anchor, k);
        let dx = pos.x - player.x;
        let dy = pos.y - player.y;
        assert(-30_000 <= dx <= 30_000);
        assert(-30_000 <= dy <= 30_000);
        assert(dx * dx <= 900_000_000) by (nonlinear_arith)
            requires
                -30_000 <= dx <= 30_000,
        ;
        assert(dy * dy <= 900_000_000) by (nonlinear_arith)
            requires
                -30_000 <= dy <= 30_000,
        ;
    }
}

/// A survey places its group where [`group_anchor`] finds it: as far from the middle of the map
/// as the noise says, to the same side, unless the border is in the way.
pub proof fn surveys_place_groups_where_the_noise_says(
    survey: GroupSurvey,
    width: i32,
    height: i32,
)
    requires
        width >= 20,
        height >= 20,
    ensures
        survey.anchor(width, height) == anchor_at(width, height, survey.shift),
        survey.anchor(width, height).x == gathering_place(width as int, survey.shift.x as int),
        survey.anchor(width, height).y == gathering_place(height as int, survey.shift.y as int),
        10 <= width / 2 + survey.shift.x <= width - 10 ==> survey.anchor(width, height).x - width
            / 2 == survey.shift.x,
        10 <= height / 2 + survey.shift.y <= height - 10 ==> survey.anchor(width, height).y
            - height / 2 == survey.shift.y,
        width / 2 + survey.shift.x < 10 ==> survey.anchor(width, height).x == 10,
        height / 2 + survey.shift.y < 10 ==> survey.anchor(width, height).y == 10,
        width / 2 + survey.shift.x > width - 10 ==> survey.anchor(width, height).x == width - 10,
        height / 2 + survey.shift.y > height - 10 ==> survey.anchor(width, height).y == height
            - 10,
{
}

/// Of the square of 17 by 17 tiles around `(x, y)`, which is read row by row from its lowest
/// coordinates, the tile number `k` is free for someone of `gang`: they can stand there, the
/// noise leaves it to them, and it is at least 8 tiles away from the player and, but for
/// civilians, at most 150.
pub open spec fn free_for(
    gang: Gang,
    x: int,
    y: int,
    player: GridVec,
    tiles: Seq<Tile>,
    k: int,
) -> bool {
    let dx = x - 8 + k % 17 - player.x;
    let dy = y - 8 + k / 17 - player.y;
    &&& 0 <= k < 17 * 17
    &&& tiles[k].spawnable
    &&& tiles[k].taken
    &&& dx * dx + dy * dy >= 64
    &&& gang == Gang::Civilians || dx * dx + dy * dy <= 22_500
}

/// The template of the member number `j` of a group: those of a gang take turns.
pub open spec fn template_in_turn(gang: Gang, j: int) -> int {
    match gang {
        Gang::Apache => 2 + j % 2,
        Gang::Vaqueros => 0,
        Gang::Civilians => 1,
        Gang::Police => 4 + j % 2,
        Gang::Outlaws => 6 + j % 2,
        Gang::Lawmen => 8 + j % 2,
    }
}

/// The numbers in `places` are those of the tiles that `group` stands on: free tiles around
/// `(x, y)` in ascending order, with no free tile left out in between, as many as there should
/// be or as there are.
pub open spec fn fills(
    places: Seq<int>,
    group: Seq<MonsterSpawn>,
    gang: Gang,
    x: int,
    y: int,
    size: int,
    player: GridVec,
    tiles: Seq<Tile>,
) -> bool {
    &&& places.len() == group.len()
    &&& forall|j: int|
        0 <= j < places.len() ==> {
            &&& free_for(gang, x, y, player, tiles, #[trigger] places[j])
            &&& group[j].pos.x == x - 8 + places[j] % 17
            &&& group[j].pos.y == y - 8 + places[j] / 17
            &&& group[j].gang == gang
            &&& group[j].template == template_in_turn(gang, j)
        }
    &&& forall|i: int, j: int|
        0 <= i < j < places.len() ==> #[trigger] places[i] < #[trigger] places[j]
    &&& forall|k: int, j: int|
        #[trigger] free_for(gang, x, y, player, tiles, k) && 0 <= j < places.len() && k
            <= #[trigger] places[j] ==> places.contains(k)
    &&& places.len() <= size || places.len() == 0
    &&& places.len() < size ==> forall|k: int| #[trigger]
        free_for(gang, x, y, player, tiles, k) ==> places.contains(k)
}

/// A tile is eligible exactly if it is free.
proof fn lemma_eligible_is_free(
    gang: Gang,
    anchor: GridVec,
    player: GridVec,
    tiles: Seq<Tile>,
    k: int,
)
    requires
        window_fits(anchor),
        0 <= k < WINDOW_TILES,
    ensures
        eligible(gang, anchor, player, tiles, k) <==> free_for(
            gang,
            anchor.x as int,
            anchor.y as int,
            player,
            tiles,
            k,
        ),
{
    let pos = window_tile(anchor, k);
    assert(pos.x == anchor.x - 8 + k % 17);
    assert(pos.y == anchor.y - 8 + k / 17);
}

/// Every eligible tile is found.
proof fn lemma_all_found(
    gang: Gang,
    anchor: GridVec,
    player: GridVec,
    tiles: Seq<Tile>,
    n: int,
    k: int,
) -> (j: int)
    requires
        0 <= k < n,
        eligible(gang, anchor, player, tiles, k),
    ensures
        0 <= j < eligible_below(gang, anchor, player, tiles, n).len(),
        eligible_below(gang, anchor, player, tiles, n)[j] == k,
    decreases n,
{
    let before = eligible_below(gang, anchor, player, tiles, n - 1);
    if k == n - 1 {
        before.len() as int
    } else {
        lemma_all_found(gang, anchor, player, tiles, n - 1, k)
    }
}

/// A group of at most `size` stands on the first free tiles of the square around its anchor,
/// `size` of them if there are so many.
pub proof fn groups_fill_their_square(
    gang: Gang,
    anchor: GridVec,
    size: int,
    player: GridVec,
    tiles: Seq<Tile>,
) -> (places: Seq<int>)
    requires
        window_fits(anchor),
    ensures
        fills(
            places,
            group_of(gang, anchor, size, player, tiles),
            gang,
            anchor.x as int,
            anchor.y as int,
            size,
            player,
            tiles,
        ),
{
    let x = anchor.x as int;
    let y = anchor.y as int;
    let group = group_of(gang, anchor, size, player, tiles);
    let found = eligible_below(gang, anchor, player, tiles, WINDOW_TILES as int);
    let places = found.take(group.len() as int);
    lemma_found(gang, anchor, player, tiles, WINDOW_TILES as int);
    assert forall|j: int| 0 <= j < places.len() implies {
        &&& free_for(gang, x, y, player, tiles, #[trigger] places[j])
        &&& group[j].pos.x == x - 8 + places[j] % 17
        &&& group[j].pos.y == y - 8 + places[j] / 17
        &&& group[j].gang == gang
        &&& group[j].template == template_in_turn(gang, j)
    } by {
        assert(places[j] == found[j]);
        lemma_eligible_is_free(gang, anchor, player, tiles, found[j]);
        assert(group[j].pos == window_tile(anchor, found[j]));
        lemma_templates_take_turns(gang, j);
    }
    assert forall|i: int, j: int| 0 <= i < j < places.len() implies #[trigger] places[i]
        < #[trigger] places[j] by {
        assert(found[i] < found[j]);
    }
    assert forall|k: int, j: int|
        #[trigger] free_for(gang, x, y, player, tiles, k) && 0 <= j < places.len() && k
            <= #[trigger] places[j] implies places.contains(k) by {
        lemma_eligible_is_free(gang, anchor, player, tiles, k);
        let place = lemma_all_found(gang, anchor, player, tiles, WINDOW_TILES as int, k);
        if place > j {
            assert(found[j] < found[place]);
        }
        assert(places[place] == k);
    }
    if places.len() < size {
        assert forall|k: int| #[trigger] free_for(gang, x, y, player, tiles, k) implies
            places.contains(k) by {
            lemma_eligible_is_free(gang, anchor, player, tiles, k);
            let place = lemma_all_found(gang, anchor, player, tiles, WINDOW_TILES as int, k);
            assert(places[place] == k);
        }
    }
    places
}

/// A surveyed group stands around the place where it gathers, which the noise and the size of
/// the map decide, on the first free tiles of the square there, five and the bonus of them if
/// there are so many.
pub proof fn surveyed_groups_fill_their_square(
    survey: GroupSurvey,
    gang: Gang,
    width: i32,
    height: i32,
    player: GridVec,
) -> (places: Seq<int>)
    requires
        width >= 20,
        height >= 20,
    ensures
        fills(
            places,
            survey.group(gang, width, height, player),
            gang,
            gathering_place(width as int, survey.shift.x as int),
            gathering_place(height as int, survey.shift.y as int),
            5 + survey.bonus,
            player,
            survey.tiles@,
        ),
{
    anchors_keep_from_the_border(width, height, survey.shift);
    surveys_place_groups_where_the_noise_says(survey, width, height);
    groups_fill_their_square(
        gang,
        survey.anchor(width, height),
        5 + survey.bonus,
        player,
        survey.tiles@,
    )
}

proof fn lemma_templates_take_turns(gang: Gang, j: int)
    requires
        0 <= j,
    ensures
        gang.members()[j % gang.members().len() as int] == template_in_turn(gang, j),
{
}

/// The town is made of its groups, one behind the other in the order of the plan, and of no one
/// else.
pub proof fn groups_come_in_order(
    groups: Seq<Group>,
    surveys: Seq<GroupSurvey>,
    width: i32,
    height: i32,
    player: GridVec,
    n: int,
    i: int,
)
    requires
        0 <= i < n <= surveys.len(),
    ensures
        crowd(groups, surveys, width, height, player, 0).len() == 0,
        ({
            let first = crowd(groups, surveys, width, height, player, i).len() as int;
            let behind = crowd(groups, surveys, width, height, player, i + 1).len() as int;
            let group = surveys[i].group(groups[i].gang, width, height, player);
            &&& behind == first + group.len()
            &&& behind <= crowd(groups, surveys, width, height, player, n).len()
            &&& crowd(groups, surveys, width, height, player, n).subrange(first, behind) == group
        }),
    decreases n,
{
    let all = crowd(groups, surveys, width, height, player, n);
    let before = crowd(groups, surveys, width, height, player, n - 1);
    let first = crowd(groups, surveys, width, height, player, i).len() as int;
    let group = surveys[i].group(groups[i].gang, width, height, player);
    if i < n - 1 {
        groups_come_in_order(groups, surveys, width, height, player, n - 1, i);
        assert(all.subrange(first, first + group.len()) =~= before.subrange(
            first,
            first + group.len(),
        ));
    } else {
        assert(all.subrange(first, first + group.len()) =~= group);
    }
}

/// The numbers that set the gangs apart in the noise, how many groups each has, and the
/// templates of its members, which no two gangs share.
pub proof fn gangs_have_their_numbers(gang: Gang, other: Gang)
    ensures
        Gang::Apache.noise_offset() == 10 && Gang::Apache.group_count() == 14,
        Gang::Vaqueros.noise_offset() == 20 && Gang::Vaqueros.group_count() == 14,
        Gang::Civilians.noise_offset() == 30 && Gang::Civilians.group_count() == 8,
        Gang::Police.noise_offset() == 40 && Gang::Police.group_count() == 12,
        Gang::Outlaws.noise_offset() == 50 && Gang::Outlaws.group_count() == 16,
        Gang::Lawmen.noise_offset() == 60 && Gang::Lawmen.group_count() == 12,
        Gang::Apache.members() == seq![2usize, 3usize],
        Gang::Vaqueros.members() == seq![0usize],
        Gang::Civilians.members() == seq![1usize],
        Gang::Police.members() == seq![4usize, 5usize],
        Gang::Outlaws.members() == seq![6usize, 7usize],
        Gang::Lawmen.members() == seq![8usize, 9usize],
        gang != other ==> forall|template: usize|
            !(#[trigger] gang.members().contains(template) && other.members().contains(template)),
{
}

/// The plan holds 14 groups of Apache, 14 of Vaqueros, 8 of civilians, 12 of the police, 16 of
/// outlaws and 12 of lawmen, in this order; each is numbered within its gang, and its seed
/// follows from that of the map, the gang and its number.
pub proof fn plan_holds_every_group(seed: u64, i: int)
    requires
        0 <= i < 76,
    ensures
        all_groups(seed).len() == 76,
        ({
            let group = all_groups(seed)[i];
            let first: int = if i < 14 {
                0
            } else if i < 28 {
                14
            } else if i < 36 {
                28
            } else if i < 48 {
                36
            } else if i < 64 {
                48
            } else {
                64
            };
            let number: int = if i < 14 {
                10
            } else if i < 28 {
                20
            } else if i < 36 {
                30
            } else if i < 48 {
                40
            } else if i < 64 {
                50
            } else {
                60
            };
            &&& group.gang == Gang::Apache <==> i < 14
            &&& group.gang == Gang::Vaqueros <==> 14 <= i < 28
            &&& group.gang == Gang::Civilians <==> 28 <= i < 36
            &&& group.gang == Gang::Police <==> 36 <= i < 48
            &&& group.gang == Gang::Outlaws <==> 48 <= i < 64
            &&& group.gang == Gang::Lawmen <==> 64 <= i
            &&& group.index == i - first
            &&& group.seed as int == (seed + 54_321 + 99_999 + number * 1000 + i - first)
                % 0x1_0000_0000_0000_0000
        }),
{
    assert(all_groups(seed).len() == 76);
    lemma_group_at(seed, i);
}

/// Counting round keeps what is below 2^64, and starts again from zero there.
pub proof fn counting_round_starts_again(n: int)
    ensures
        wrapped(n) as int == n % 0x1_0000_0000_0000_0000,
        0 <= n <= u64::MAX ==> wrapped(n) == n,
        wrapped(n + 0x1_0000_0000_0000_0000) == wrapped(n),
{
}

/// In a town of 800 by 560 tiles no group is held back by the border: wherever the noise sends
/// it, it gathers exactly there.
pub proof fn town_has_room_for_the_noise(shift: GridVec)
    requires
        -SPAWN_RADIUS <= shift.x <= SPAWN_RADIUS,
        -SPAWN_RADIUS <= shift.y <= SPAWN_RADIUS,
    ensures
        SPAWN_RADIUS == 150,
        anchor_at(800, 560, shift).x == 400 + shift.x,
        anchor_at(800, 560, shift).y == 280 + shift.y,
{
}

} // verus!
