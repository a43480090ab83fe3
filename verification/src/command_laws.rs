//! What holds of single commands and of runs of keys.

use vstd::prelude::*;

use crate::combat_log::LogLine;
use crate::commands::{binding, command_of, windowed_command, Command, MAX_INVENTORY_SIZE};
use crate::grid::{abs, king_distance, larger, GridVec};
use crate::intents::IntentModel;
use crate::items::{double_action_name, ItemKind};
use crate::keys::{PhysicalKey, TermKey};
use crate::rules::{
    accepts, after, after_input, after_keys, after_random_throw, after_slot, after_throw_command,
    aim, fits, input_fits, is_nearest, keys_fit, nearest, sand_center, windowed_input_fits,
    MOVE_STAMINA_COST, ROUNDHOUSE_STAMINA_COST, SAND_STAMINA_COST, THROW_ITEM_STAMINA_COST,
};
use crate::state::{
    Frame, GameState, InputMode, InputModel, InputState, ItemSlot, NextTurn, Player, TurnState,
};

verus! {

/// Auto-aim aims at a hostile that no other is nearer to the player than, and brings the
/// cursor one king move nearer to them, or leaves it where it has arrived.
pub proof fn auto_aim_closes_in(frame: Frame, player: Player, m: InputModel)
    requires
        fits(frame, player, m, Command::AutoAim),
    ensures
        match nearest(player.pos, frame.hostiles@) {
            Some(target) => {
                &&& frame.hostiles@.contains(target)
                &&& forall|i: int|
                    0 <= i < frame.hostiles@.len() ==> king_distance(player.pos, target)
                        <= king_distance(player.pos, #[trigger] frame.hostiles@[i])
                &&& king_distance(after(frame, player, m, Command::AutoAim).cursor, target)
                    == larger(king_distance(m.cursor, target) - 1, 0)
            },
            None => after(frame, player, m, Command::AutoAim).cursor == m.cursor,
        },
{
    if let Some(target) = nearest(player.pos, frame.hostiles@) {
        let i = choose|i: int| is_nearest(player.pos, frame.hostiles@, i);
        assert(is_nearest(player.pos, frame.hostiles@, i));
        assert(frame.hostiles@[i] == target);
    }
}

/// Auto-aim finds a target exactly if there is a hostile in reach.
pub proof fn auto_aim_finds_whoever_is_there(from: GridVec, hostiles: Seq<GridVec>)
    ensures
        nearest(from, hostiles) is Some <==> exists|i: int|
            0 <= i < hostiles.len() && king_distance(from, #[trigger] hostiles[i]) < i32::MAX,
{
    if nearest(from, hostiles) is Some {
        let i = choose|i: int| is_nearest(from, hostiles, i);
        assert(is_nearest(from, hostiles, i));
        assert(king_distance(from, hostiles[i]) < i32::MAX);
    }
    if exists|i: int|
        0 <= i < hostiles.len() && king_distance(from, #[trigger] hostiles[i]) < i32::MAX {
        lemma_minimum_exists(from, hostiles, hostiles.len() as int);
    }
}

/// Among the first `n` positions, if any is in reach, one is the first of the nearest.
proof fn lemma_minimum_exists(from: GridVec, hostiles: Seq<GridVec>, n: int)
    requires
        0 <= n <= hostiles.len(),
        exists|i: int| 0 <= i < n && king_distance(from, #[trigger] hostiles[i]) < i32::MAX,
    ensures
        exists|i: int| is_nearest(from, hostiles.take(n), i),
        n == hostiles.len() ==> exists|i: int| is_nearest(from, hostiles, i),
    decreases n,
{
    let seen = hostiles.take(n);
    if exists|i: int| 0 <= i < n - 1 && king_distance(from, #[trigger] hostiles[i]) < i32::MAX {
        lemma_minimum_exists(from, hostiles, n - 1);
        let shorter = hostiles.take(n - 1);
        let i = choose|i: int| is_nearest(from, shorter, i);
        assert(is_nearest(from, shorter, i));
        assert forall|j: int| 0 <= j < n - 1 implies #[trigger] seen[j] == shorter[j] by {}
        if king_distance(from, seen[n - 1]) < king_distance(from, seen[i]) {
            assert forall|j: int| 0 <= j < n - 1 implies king_distance(from, seen[n - 1])
                < king_distance(from, #[trigger] seen[j]) by {
                assert(shorter[j] == seen[j]);
            }
            assert(is_nearest(from, seen, n - 1));
        } else {
            assert forall|j: int| 0 <= j < n implies king_distance(from, seen[i])
                <= king_distance(from, #[trigger] seen[j]) by {
                if j < n - 1 {
                    assert(shorter[j] == seen[j]);
                }
            }
            assert forall|j: int| 0 <= j < i implies king_distance(from, seen[i]) < king_distance(
                from,
                #[trigger] seen[j],
            ) by {
                assert(shorter[j] == seen[j]);
            }
            assert(is_nearest(from, seen, i));
        }
    } else {
        assert forall|j: int| 0 <= j < n - 1 implies king_distance(from, #[trigger] seen[j])
            >= i32::MAX by {
            assert(seen[j] == hostiles[j]);
        }
        assert(is_nearest(from, seen, n - 1));
    }
    if n == hostiles.len() {
        assert(seen =~= hostiles);
    }
}

/// Sand comes down two king moves from the player, never on the player.
pub proof fn sand_lands_two_steps_away(player: Player, m: InputModel)
    requires
        m.cursor.difference_fits(player.pos),
        player.pos.sum_fits(aim(player, m).toward().doubled()),
        m.cursor != player.pos,
    ensures
        king_distance(player.pos, sand_center(player, m)) == 2,
{
}

/// Moving the cursor and moving it back leaves it where it was.
pub proof fn opposite_cursor_moves_cancel(
    frame: Frame,
    player: Player,
    m: InputModel,
    dx: i32,
    dy: i32,
    back_x: i32,
    back_y: i32,
)
    requires
        fits(frame, player, m, Command::Cursor { dx, dy }),
        back_x == -dx,
        back_y == -dy,
    ensures
        ({
            let moved = after(frame, player, m, Command::Cursor { dx, dy });
            &&& fits(frame, player, moved, Command::Cursor { dx: back_x, dy: back_y })
            &&& after(
                frame,
                player,
                moved,
                Command::Cursor { dx: back_x, dy: back_y },
            ).cursor == m.cursor
        }),
{
}

/// Toggling god mode twice brings back the mode that was, and says so both times.
pub proof fn god_mode_toggles(frame: Frame, player: Player, m: InputModel)
    ensures
        after(
            frame,
            player,
            after(frame, player, m, Command::ToggleGodMode),
            Command::ToggleGodMode,
        ) == (InputModel {
            combat_log: m.combat_log.push(
                if m.god_mode {
                    LogLine::GodModeDisabled
                } else {
                    LogLine::GodModeEnabled
                },
            ).push(
                if m.god_mode {
                    LogLine::GodModeEnabled
                } else {
                    LogLine::GodModeDisabled
                },
            ),
            ..m
        }),
{
}

/// Q toggles the pause menu: in a game that is being played it opens the menu and queues the
/// pause; once the game is paused, Q closes the menu and queues the game again. All the rest
/// is as it was.
pub proof fn q_toggles_the_menu(playing: Frame, paused: Frame, m: InputModel)
    requires
        playing.game_state == GameState::Playing,
        paused.game_state == GameState::Paused,
        playing.player matches Some(player) && !player.dead,
        paused.player matches Some(player) && !player.dead,
        m.input_state.mode == InputMode::Game,
        !m.input_state.welcome_visible,
    ensures
        ({
            let q = seq![TermKey::Char('q')];
            let opened = after_input(playing, m, q);
            &&& opened == InputModel {
                next_game_state: Some(GameState::Paused),
                ..m.in_mode(InputMode::EscMenu)
            }
            &&& after_input(paused, opened, q) == InputModel {
                next_game_state: Some(GameState::Playing),
                ..m
            }
        }),
{
    let q = seq![TermKey::Char('q')];
    assert(q[0] == TermKey::Char('q'));
    assert(q.drop_last() =~= Seq::<TermKey>::empty());
    assert(!q.contains(TermKey::Char('r')));
    reveal_with_fuel(after_keys, 2);
    assert(after_input(playing, m, q) == after(
        playing,
        playing.player.unwrap(),
        m,
        Command::OpenMenu,
    ));
}

/// Keys that come in one frame do what they do when they come one after the other in two
/// pieces.
pub proof fn keys_can_be_split(
    frame: Frame,
    player: Player,
    m: InputModel,
    first: Seq<TermKey>,
    second: Seq<TermKey>,
)
    ensures
        after_keys(frame, player, m, first + second) == after_keys(
            frame,
            player,
            after_keys(frame, player, m, first),
            second,
        ),
    decreases second.len(),
{
    if second.len() == 0 {
        assert(first + second =~= first);
    } else {
        keys_can_be_split(frame, player, m, first, second.drop_last());
        assert((first + second).drop_last() =~= first + second.drop_last());
        assert((first + second).last() == second.last());
    }
}

/// The key that sends the welcome screen away does nothing else, whatever key it is, and the
/// keys behind it do what they do without a welcome screen.
pub proof fn welcome_takes_one_key(
    frame: Frame,
    player: Player,
    m: InputModel,
    keys: Seq<TermKey>,
)
    requires
        m.input_state.welcome_visible,
        keys.len() > 0,
    ensures
        after_keys(frame, player, m, keys) == after_keys(
            frame,
            player,
            m.welcomed(),
            keys.drop_first(),
        ),
{
    let first = seq![keys[0]];
    assert(keys =~= first + keys.drop_first());
    keys_can_be_split(frame, player, m, first, keys.drop_first());
    assert(first.drop_last() =~= Seq::<TermKey>::empty());
    assert(after_keys(frame, player, m, first.drop_last()) == m);
}

/// The digits 1 to 6 reach exactly the slots that the player can have.
pub proof fn digits_reach_every_slot(index: usize)
    ensures
        index < MAX_INVENTORY_SIZE <==> exists|key: TermKey| #[trigger]
            binding(key) == Some(Command::UseSlot { index }),
{
    if index < MAX_INVENTORY_SIZE {
        let c = ('1' as int + index) as char;
        assert('1' as int == 49 && '6' as int == 54);
        assert(c as int == 49 + index);
        assert(binding(TermKey::Char(c)) == Some(Command::UseSlot { index }));
    }
}

/// A line that tells the player why nothing happens.
pub open spec fn is_refusal(line: LogLine) -> bool {
    match line {
        LogLine::NoEnemiesVisible => true,
        LogLine::NoStaminaForRoundhouse => true,
        LogLine::NoStamina => true,
        LogLine::NoStaminaToThrow => true,
        LogLine::CursorOnPlayer => true,
        LogLine::NoInventory => true,
        LogLine::InventoryEmpty => true,
        LogLine::GunEmpty => true,
        _ => false,
    }
}

/// A command that is refused costs nothing: the line that says so is all that it leaves. A
/// blind throw for which there is stamina is not covered, since its stamina is set aside
/// before anything can speak against it.
pub proof fn refusals_cost_nothing(frame: Frame, player: Player, m: InputModel, command: Command)
    requires
        after(frame, player, m, command).combat_log.len() > m.combat_log.len(),
        is_refusal(after(frame, player, m, command).combat_log.last()),
        command == Command::ThrowRandom ==> !player.affords(THROW_ITEM_STAMINA_COST as int),
    ensures
        after(frame, player, m, command) == m.logging(
            after(frame, player, m, command).combat_log.last(),
        ),
{
    match command {
        Command::UseSlot { index } => {
            lemma_slot_refusal(frame, player, m, index);
        },
        _ => {},
    }
}

proof fn lemma_slot_refusal(frame: Frame, player: Player, m: InputModel, index: usize)
    requires
        after_slot(frame, player, m, index).combat_log.len() > m.combat_log.len(),
    ensures
        after_slot(frame, player, m, index) == m.logging(
            after_slot(frame, player, m, index).combat_log.last(),
        ),
{
}

/// A blind throw that is refused for another reason than stamina leaves its line and the
/// stamina that was set aside for it.
pub proof fn refused_throw_keeps_its_stamina(frame: Frame, player: Player, m: InputModel)
    requires
        player.affords(THROW_ITEM_STAMINA_COST as int),
        after(frame, player, m, Command::ThrowRandom).intents == m.intents,
    ensures
        after(frame, player, m, Command::ThrowRandom) == m.taking_stamina(
            THROW_ITEM_STAMINA_COST,
        ).logging(after(frame, player, m, Command::ThrowRandom).combat_log.last()),
{
    let paid = m.taking_stamina(THROW_ITEM_STAMINA_COST);
    assert(after(frame, player, m, Command::ThrowRandom) == after_random_throw(
        frame,
        player,
        paid,
    ));
}

/// Ticks that the keybindings list for a command. `None` for a slot without a known item, where
/// nothing is there to be used.
pub open spec fn listed_ticks(player: Player, command: Command) -> Option<int> {
    match command {
        Command::Walk { .. } => Some(3),
        Command::Reload => Some(6),
        Command::Roundhouse => Some(2),
        Command::ThrowRandom => Some(2),
        Command::UseSlot { index } => match player.slot_at(index as int) {
            Some(ItemSlot { kind: Some(ItemKind::Gun { name, .. }), .. }) => Some(
                if double_action_name(name@) {
                    1
                } else {
                    2
                },
            ),
            Some(ItemSlot { kind: Some(_), .. }) => Some(2),
            _ => None,
        },
        _ => Some(1),
    }
}

/// Stamina that the keybindings list for a command.
pub open spec fn listed_stamina(command: Command) -> Option<i32> {
    match command {
        Command::Walk { .. } => Some(MOVE_STAMINA_COST),
        Command::Roundhouse => Some(ROUNDHOUSE_STAMINA_COST),
        Command::ThrowSand => Some(SAND_STAMINA_COST),
        Command::ThrowRandom => Some(THROW_ITEM_STAMINA_COST),
        _ => None,
    }
}

/// Where a command takes the player's turn, it takes the ticks and the stamina that are
/// listed for it: one tick, and the extra ones, which start from none.
pub proof fn commands_cost_what_is_listed(
    frame: Frame,
    player: Player,
    m: InputModel,
    command: Command,
)
    requires
        m.extra_world_ticks == 0,
        after(frame, player, m, command).next_turn_state != m.next_turn_state,
    ensures
        listed_ticks(player, command) matches Some(ticks) ==> 1 + after(
            frame,
            player,
            m,
            command,
        ).extra_world_ticks == ticks,
        listed_stamina(command) matches Some(cost) ==> after(
            frame,
            player,
            m,
            command,
        ).input_state.ability_stamina_pending == cost,
{
    match command {
        Command::UseSlot { index } => {
            lemma_slot_ticks(frame, player, m, index);
        },
        Command::ThrowRandom => {
            lemma_throw_ticks(frame, player, m);
        },
        _ => {},
    }
}

proof fn lemma_slot_ticks(frame: Frame, player: Player, m: InputModel, index: usize)
    requires
        m.extra_world_ticks == 0,
        after_slot(frame, player, m, index).next_turn_state != m.next_turn_state,
    ensures
        listed_ticks(player, Command::UseSlot { index }) matches Some(ticks) ==> 1 + after_slot(
            frame,
            player,
            m,
            index,
        ).extra_world_ticks == ticks,
{
}

proof fn lemma_throw_ticks(frame: Frame, player: Player, m: InputModel)
    requires
        m.extra_world_ticks == 0,
        after_throw_command(frame, player, m).next_turn_state != m.next_turn_state,
    ensures
        after_throw_command(frame, player, m).extra_world_ticks == 1,
        after_throw_command(frame, player, m).input_state.ability_stamina_pending
            == THROW_ITEM_STAMINA_COST,
{
}

/// Shots and throws behind the first `shots` and `throws` of their queues go somewhere.
pub open spec fn aimed_from(m: InputModel, shots: nat, throws: nat) -> bool {
    &&& forall|i: int|
        shots <= i < m.intents.shots.len() ==> #[trigger] m.intents.shots[i].dx != 0
            || m.intents.shots[i].dy != 0
    &&& forall|i: int|
        throws <= i < m.intents.throws.len() ==> #[trigger] m.intents.throws[i].dx != 0
            || m.intents.throws[i].dy != 0
}

/// Nothing is shot or thrown at the player's own position.
pub proof fn nothing_is_aimed_at_oneself(
    frame: Frame,
    player: Player,
    m: InputModel,
    keys: Seq<TermKey>,
)
    requires
        keys_fit(frame, player, m, keys),
    ensures
        aimed_from(
            after_keys(frame, player, m, keys),
            m.intents.shots.len(),
            m.intents.throws.len(),
        ),
    decreases keys.len(),
{
    if keys.len() > 0 {
        nothing_is_aimed_at_oneself(frame, player, m, keys.drop_last());
        let before = after_keys(frame, player, m, keys.drop_last());
        if let Some(command) = command_of(keys.last(), accepts(frame, before)) {
            if !before.input_state.welcome_visible {
                lemma_command_aims(
                    frame,
                    player,
                    before,
                    command,
                    m.intents.shots.len(),
                    m.intents.throws.len(),
                );
            }
        }
    }
}

proof fn lemma_command_aims(
    frame: Frame,
    player: Player,
    m: InputModel,
    command: Command,
    shots: nat,
    throws: nat,
)
    requires
        aimed_from(m, shots, throws),
        fits(frame, player, m, command),
    ensures
        aimed_from(after(frame, player, m, command), shots, throws),
{
    match command {
        Command::UseSlot { index } => {
            lemma_slot_aims(frame, player, m, index, shots, throws);
        },
        Command::ThrowRandom => {
            lemma_throw_aims(frame, player, m, shots, throws);
        },
        _ => {},
    }
}

proof fn lemma_slot_aims(
    frame: Frame,
    player: Player,
    m: InputModel,
    index: usize,
    shots: nat,
    throws: nat,
)
    requires
        aimed_from(m, shots, throws),
        fits(frame, player, m, Command::UseSlot { index }),
    ensures
        aimed_from(after_slot(frame, player, m, index), shots, throws),
{
}

proof fn lemma_throw_aims(
    frame: Frame,
    player: Player,
    m: InputModel,
    shots: nat,
    throws: nat,
)
    requires
        aimed_from(m, shots, throws),
        fits(frame, player, m, Command::ThrowRandom),
    ensures
        aimed_from(after_throw_command(frame, player, m), shots, throws),
{
    let paid = m.taking_stamina(THROW_ITEM_STAMINA_COST);
    assert(aimed_from(paid, shots, throws));
}

/// Both coordinates are at most `spread` away from zero.
pub open spec fn within(v: GridVec, spread: int) -> bool {
    abs(v.x as int) <= spread && abs(v.y as int) <= spread
}

/// The player, the cursor and everyone else are at most `spread` away from the origin, and
/// the drawn slot exists where there are slots.
pub open spec fn on_map(frame: Frame, player: Player, cursor: GridVec, spread: int) -> bool {
    &&& within(player.pos, spread)
    &&& within(cursor, spread)
    &&& forall|i: int|
        0 <= i < frame.hostiles@.len() ==> within(#[trigger] frame.hostiles@[i], spread)
    &&& player.inventory matches Some(slots) ==> slots@.len() > 0 ==> frame.drawn_slot
        < slots@.len()
}

proof fn lemma_command_stays_on_map(
    frame: Frame,
    player: Player,
    m: InputModel,
    command: Command,
    spread: int,
)
    requires
        on_map(frame, player, m.cursor, spread),
        0 <= spread < 1_000_000_000,
        command matches Command::Cursor { dx, dy } ==> abs(dx as int) <= 1 && abs(dy as int) <= 1,
    ensures
        fits(frame, player, m, command),
        on_map(frame, player, after(frame, player, m, command).cursor, spread + 1),
{
    match command {
        Command::AutoAim => {
            if let Some(target) = nearest(player.pos, frame.hostiles@) {
                let i = choose|i: int| is_nearest(player.pos, frame.hostiles@, i);
                assert(is_nearest(player.pos, frame.hostiles@, i));
                assert(within(frame.hostiles@[i], spread));
            }
        },
        Command::UseSlot { index } => {
            assert(after_slot(frame, player, m, index).cursor == m.cursor);
        },
        Command::ThrowRandom => {
            assert(after_throw_command(frame, player, m).cursor == m.cursor);
        },
        _ => {},
    }
}

/// Keys cannot lead out of the limits on any map of a reasonable size.
pub proof fn keys_fit_on_maps(
    frame: Frame,
    player: Player,
    m: InputModel,
    keys: Seq<TermKey>,
    spread: int,
)
    requires
        on_map(frame, player, m.cursor, spread),
        0 <= spread,
        spread + keys.len() <= 1_000_000_000,
    ensures
        keys_fit(frame, player, m, keys),
        on_map(
            frame,
            player,
            after_keys(frame, player, m, keys).cursor,
            spread + keys.len(),
        ),
    decreases keys.len(),
{
    if keys.len() > 0 {
        keys_fit_on_maps(frame, player, m, keys.drop_last(), spread);
        let before = after_keys(frame, player, m, keys.drop_last());
        if let Some(command) = command_of(keys.last(), accepts(frame, before)) {
            lemma_command_stays_on_map(frame, player, before, command, spread + keys.len() - 1);
        }
    }
}

/// The same of a terminal and of a window as a whole.
pub proof fn input_fits_on_maps(
    frame: Frame,
    m: InputModel,
    keys: Seq<TermKey>,
    just: Set<PhysicalKey>,
    shift: bool,
    spread: int,
)
    requires
        frame.player matches Some(player) ==> on_map(frame, player, m.cursor, spread),
        0 <= spread < 1_000_000_000,
        spread + keys.len() <= 1_000_000_000,
    ensures
        input_fits(frame, m, keys),
        windowed_input_fits(frame, m, just, shift),
{
    if let Some(player) = frame.player {
        keys_fit_on_maps(frame, player, m, keys, spread);
        if let Some(command) = windowed_command(just, shift, accepts(frame, m)) {
            lemma_command_stays_on_map(frame, player, m, command, spread);
        }
    }
}

/// `n` can be a coordinate.
pub open spec fn representable(n: int) -> bool {
    i32::MIN <= n <= i32::MAX
}

/// The cursor can be seen from the player: their difference can be computed.
pub open spec fn cursor_in_sight(player: Player, m: InputModel) -> bool {
    representable(m.cursor.x - player.pos.x) && representable(m.cursor.y - player.pos.y)
}

/// The player's turn begins, unless there is no turn state to change.
pub open spec fn turn_begins(m: InputModel, later: InputModel) -> bool {
    later.next_turn_state == if m.next_turn_state is Absent {
        NextTurn::Absent
    } else {
        NextTurn::Pending(TurnState::PlayerTurn)
    }
}

/// All that is new in `later` is one line of the log.
pub open spec fn only_says(m: InputModel, later: InputModel, line: LogLine) -> bool {
    later == InputModel { combat_log: m.combat_log.push(line), ..m }
}

/// The turn begins, the world takes `extra` ticks on top of the first, and `stamina` is due;
/// beyond that nothing but the queues of intents differs.
pub open spec fn acts(m: InputModel, later: InputModel, extra: u32, stamina: i32) -> bool {
    &&& turn_begins(m, later)
    &&& later == InputModel {
        intents: later.intents,
        next_turn_state: later.next_turn_state,
        extra_world_ticks: extra,
        input_state: InputState { ability_stamina_pending: stamina, ..m.input_state },
        ..m
    }
}

/// The cursor stands on `(x, y)`, the field of view is due where there is one, the turn begins,
/// and nothing else differs.
pub open spec fn aims(m: InputModel, later: InputModel, x: int, y: int) -> bool {
    &&& later.cursor.x == x
    &&& later.cursor.y == y
    &&& later.viewshed_dirty is Some <==> m.viewshed_dirty is Some
    &&& later.viewshed_dirty != Some(false)
    &&& turn_begins(m, later)
    &&& later == InputModel {
        cursor: later.cursor,
        viewshed_dirty: later.viewshed_dirty,
        next_turn_state: later.next_turn_state,
        ..m
    }
}

/// The menu gets the keyboard, a game that is being played is about to pause, and nothing else
/// differs.
pub proof fn menu_pauses_the_game(frame: Frame, player: Player, m: InputModel)
    ensures
        ({
            let later = after(frame, player, m, Command::OpenMenu);
            &&& later.input_state.mode == InputMode::EscMenu
            &&& frame.game_state == GameState::Playing ==> later.next_game_state == Some(
                GameState::Paused,
            )
            &&& frame.game_state != GameState::Playing ==> later.next_game_state
                == m.next_game_state
            &&& later == InputModel {
                input_state: InputState { mode: InputMode::EscMenu, ..m.input_state },
                next_game_state: later.next_game_state,
                ..m
            }
        }),
{
}

/// The cursor moves by what it is told to move, and centering puts it on the player.
pub proof fn cursor_goes_where_it_is_sent(
    frame: Frame,
    player: Player,
    m: InputModel,
    dx: i32,
    dy: i32,
)
    requires
        representable(m.cursor.x + dx),
        representable(m.cursor.y + dy),
    ensures
        fits(frame, player, m, Command::Cursor { dx, dy }),
        aims(
            m,
            after(frame, player, m, Command::Cursor { dx, dy }),
            m.cursor.x + dx,
            m.cursor.y + dy,
        ),
        aims(
            m,
            after(frame, player, m, Command::CenterCursor),
            player.pos.x as int,
            player.pos.y as int,
        ),
{
}

/// `d` king moves lead from `a` to `b`, and no fewer.
pub open spec fn moves_apart(a: GridVec, b: GridVec, d: int) -> bool {
    &&& -d <= a.x - b.x <= d
    &&& -d <= a.y - b.y <= d
    &&& a.x - b.x == d || b.x - a.x == d || a.y - b.y == d || b.y - a.y == d
}

/// Where a hostile is in reach, auto-aim steps toward the first of the nearest, along each
/// axis on which the cursor is not there yet.
pub proof fn auto_aim_steps_toward_the_nearest(
    frame: Frame,
    player: Player,
    m: InputModel,
    i: int,
    d: int,
)
    requires
        0 <= i < frame.hostiles@.len(),
        moves_apart(player.pos, frame.hostiles@[i], d),
        d < i32::MAX,
        forall|j: int, e: int|
            0 <= j < frame.hostiles@.len() && #[trigger] moves_apart(
                player.pos,
                frame.hostiles@[j],
                e,
            ) ==> d <= e <= i32::MAX && (j < i ==> d < e),
        representable(frame.hostiles@[i].x - m.cursor.x),
        representable(frame.hostiles@[i].y - m.cursor.y),
    ensures
        fits(frame, player, m, Command::AutoAim),
        ({
            let target = frame.hostiles@[i];
            let step_x: int = if target.x < m.cursor.x {
                -1
            } else if target.x > m.cursor.x {
                1
            } else {
                0
            };
            let step_y: int = if target.y < m.cursor.y {
                -1
            } else if target.y > m.cursor.y {
                1
            } else {
                0
            };
            aims(
                m,
                after(frame, player, m, Command::AutoAim),
                m.cursor.x + step_x,
                m.cursor.y + step_y,
            )
        }),
{
    let hostiles = frame.hostiles@;
    assert forall|j: int| 0 <= j < hostiles.len() implies d <= king_distance(
        player.pos,
        #[trigger] hostiles[j],
    ) <= i32::MAX && (j < i ==> d < king_distance(player.pos, hostiles[j])) by {
        assert(moves_apart(player.pos, hostiles[j], king_distance(player.pos, hostiles[j])));
    }
    assert(king_distance(player.pos, hostiles[i]) == d);
    assert(is_nearest(player.pos, hostiles, i));
    let chosen = choose|k: int| is_nearest(player.pos, hostiles, k);
    assert(is_nearest(player.pos, hostiles, chosen));
    assert(chosen == i) by {
        if chosen < i {
            assert(d < king_distance(player.pos, hostiles[chosen]));
        }
        if i < chosen {
            assert(king_distance(player.pos, hostiles[chosen]) < king_distance(
                player.pos,
                hostiles[i],
            ));
        }
    }
}

/// Without a hostile in reach, auto-aim says so and does nothing.
pub proof fn auto_aim_needs_a_hostile(frame: Frame, player: Player, m: InputModel)
    requires
        forall|i: int|
            0 <= i < frame.hostiles@.len() ==> moves_apart(
                player.pos,
                #[trigger] frame.hostiles@[i],
                i32::MAX as int,
            ),
    ensures
        fits(frame, player, m, Command::AutoAim),
        only_says(m, after(frame, player, m, Command::AutoAim), LogLine::NoEnemiesVisible),
{
    let hostiles = frame.hostiles@;
    assert forall|i: int| 0 <= i < hostiles.len() implies king_distance(
        player.pos,
        #[trigger] hostiles[i],
    ) == i32::MAX by {}
    assert(forall|i: int| !is_nearest(player.pos, hostiles, i));
}

/// Walking asks to move the player, and no one else, as far as the key says. It takes three
/// ticks and two points of stamina.
pub proof fn walking_moves_the_player(
    frame: Frame,
    player: Player,
    m: InputModel,
    dx: i32,
    dy: i32,
)
    ensures
        fits(frame, player, m, Command::Walk { dx, dy }),
        ({
            let later = after(frame, player, m, Command::Walk { dx, dy });
            let step = later.intents.moves.last();
            &&& acts(m, later, 2, 2)
            &&& later.intents == IntentModel { moves: m.intents.moves.push(step), ..m.intents }
            &&& step.entity == player.entity
            &&& step.dx == dx
            &&& step.dy == dy
        }),
{
}

/// Waiting passes the turn and says so; reloading takes six ticks and leaves a note.
pub proof fn waiting_and_reloading(frame: Frame, player: Player, m: InputModel)
    ensures
        fits(frame, player, m, Command::Wait),
        fits(frame, player, m, Command::Reload),
        ({
            let waited = after(frame, player, m, Command::Wait);
            &&& turn_begins(m, waited)
            &&& waited == InputModel {
                combat_log: m.combat_log.push(LogLine::Wait),
                next_turn_state: waited.next_turn_state,
                ..m
            }
        }),
        ({
            let reloaded = after(frame, player, m, Command::Reload);
            &&& turn_begins(m, reloaded)
            &&& reloaded == InputModel {
                input_state: InputState { reload_pending: true, ..m.input_state },
                extra_world_ticks: 5,
                next_turn_state: reloaded.next_turn_state,
                ..m
            }
        }),
{
}

/// A kick takes two ticks and ten points of stamina; without them it is refused.
pub proof fn kicking_takes_stamina(frame: Frame, player: Player, m: InputModel)
    ensures
        fits(frame, player, m, Command::Roundhouse),
        ({
            let later = after(frame, player, m, Command::Roundhouse);
            let kick = later.intents.kicks.last();
            if player.stamina is Some && player.stamina.unwrap() >= 10 {
                &&& acts(m, later, 1, 10)
                &&& later.intents == IntentModel { kicks: m.intents.kicks.push(kick), ..m.intents }
                &&& kick.attacker == player.entity
            } else {
                only_says(m, later, LogLine::NoStaminaForRoundhouse)
            }
        }),
{
}

/// `b` lies from `a` in the direction in which `toward` lies, `n` steps away along each axis
/// on which there is a way to go.
pub open spec fn lies_toward(a: int, b: int, toward: int, n: int) -> bool {
    &&& toward > a ==> b == a + n
    &&& toward < a ==> b == a - n
    &&& toward == a ==> b == a
}

/// Sand comes down two steps from the player in the direction of the cursor, in a cloud with a
/// radius of two, and consumes no grenade. It takes one tick and five points of stamina;
/// without them, or with the cursor on the player, it is refused.
pub proof fn sand_flies_toward_the_cursor(frame: Frame, player: Player, m: InputModel)
    requires
        player.stamina matches Some(stamina) ==> stamina >= 5 ==> {
            &&& cursor_in_sight(player, m)
            &&& m.cursor.x > player.pos.x ==> representable(player.pos.x + 2)
            &&& m.cursor.x < player.pos.x ==> representable(player.pos.x - 2)
            &&& m.cursor.y > player.pos.y ==> representable(player.pos.y + 2)
            &&& m.cursor.y < player.pos.y ==> representable(player.pos.y - 2)
        },
    ensures
        fits(frame, player, m, Command::ThrowSand),
        ({
            let later = after(frame, player, m, Command::ThrowSand);
            let cloud = later.intents.spells.last();
            if player.stamina is None || player.stamina.unwrap() < 5 {
                only_says(m, later, LogLine::NoStamina)
            } else if m.cursor.x == player.pos.x && m.cursor.y == player.pos.y {
                only_says(m, later, LogLine::CursorOnPlayer)
            } else {
                &&& acts(
                    InputModel { combat_log: m.combat_log.push(LogLine::SandThrown), ..m },
                    later,
                    0,
                    5,
                )
                &&& later.intents == IntentModel {
                    spells: m.intents.spells.push(cloud),
                    ..m.intents
                }
                &&& lies_toward(
                    player.pos.x as int,
                    cloud.target.x as int,
                    m.cursor.x as int,
                    2,
                )
                &&& lies_toward(
                    player.pos.y as int,
                    cloud.target.y as int,
                    m.cursor.y as int,
                    2,
                )
                &&& cloud.caster == player.entity
                &&& cloud.radius == 2
                &&& cloud.grenade_index == usize::MAX
            }
        }),
{
}

/// God mode is on exactly if it was off, the log says which, and nothing else differs.
pub proof fn god_mode_changes_sides(frame: Frame, player: Player, m: InputModel)
    ensures
        fits(frame, player, m, Command::ToggleGodMode),
        ({
            let later = after(frame, player, m, Command::ToggleGodMode);
            &&& later.god_mode != m.god_mode
            &&& only_says(
                InputModel { god_mode: later.god_mode, ..m },
                later,
                if later.god_mode {
                    LogLine::GodModeEnabled
                } else {
                    LogLine::GodModeDisabled
                },
            )
        }),
{
}

/// The throw that `later` adds to `m` leads from the player to the cursor; it is the only
/// thing that is new in the queues.
pub open spec fn throws_at_the_cursor(
    frame: Frame,
    player: Player,
    m: InputModel,
    later: InputModel,
) -> bool {
    let flight = later.intents.throws.last();
    &&& later.intents == IntentModel { throws: m.intents.throws.push(flight), ..m.intents }
    &&& player.pos.x + flight.dx == m.cursor.x
    &&& player.pos.y + flight.dy == m.cursor.y
    &&& flight.thrower == player.entity
    &&& flight.range == frame.thrown_range
}

/// What a snatched item does where it hits: a blade its attack, a gun half of it, rounded
/// toward zero, and anything else 2.
pub open spec fn snatched_item_does(kind: Option<ItemKind<String>>, damage: int) -> bool {
    match kind {
        Some(ItemKind::Knife { attack, .. }) => damage == attack,
        Some(ItemKind::Tomahawk { attack, .. }) => damage == attack,
        Some(ItemKind::Gun { attack, .. }) => {
            &&& attack >= 0 ==> 0 <= attack - 2 * damage <= 1
            &&& attack < 0 ==> -1 <= attack - 2 * damage <= 0
        },
        _ => damage == 2,
    }
}

/// The drawn item, and no other, flies from the player to the cursor and does its damage there.
/// With the cursor on the player, or nothing to throw, the throw is refused.
pub proof fn snatched_item_flies_to_the_cursor(frame: Frame, player: Player, m: InputModel)
    requires
        cursor_in_sight(player, m),
        player.inventory matches Some(slots) ==> slots@.len() > 0 && m.cursor != player.pos
            ==> frame.drawn_slot < slots@.len(),
    ensures
        ({
            let later = after_random_throw(frame, player, m);
            let flight = later.intents.throws.last();
            if m.cursor.x == player.pos.x && m.cursor.y == player.pos.y {
                only_says(m, later, LogLine::CursorOnPlayer)
            } else if player.inventory is None {
                only_says(m, later, LogLine::NoInventory)
            } else if player.inventory.unwrap()@.len() == 0 {
                only_says(m, later, LogLine::InventoryEmpty)
            } else {
                let slot = player.inventory.unwrap()@[frame.drawn_slot as int];
                &&& acts(m, later, 1, m.input_state.ability_stamina_pending)
                &&& throws_at_the_cursor(frame, player, m, later)
                &&& flight.item_entity == slot.entity
                &&& flight.item_index == frame.drawn_slot
                &&& snatched_item_does(slot.kind, flight.damage as int)
            }
        }),
{
}

/// A blind throw takes ten points of stamina, which are due as soon as the player has them;
/// all the rest is the throw of the drawn item.
pub proof fn blind_throws_take_stamina(frame: Frame, player: Player, m: InputModel)
    requires
        player.stamina matches Some(stamina) ==> stamina >= 10 ==> {
            &&& cursor_in_sight(player, m)
            &&& player.inventory matches Some(slots) ==> slots@.len() > 0 && m.cursor != player.pos
                ==> frame.drawn_slot < slots@.len()
        },
    ensures
        fits(frame, player, m, Command::ThrowRandom),
        ({
            let later = after(frame, player, m, Command::ThrowRandom);
            if player.stamina is Some && player.stamina.unwrap() >= 10 {
                later == after_random_throw(
                    frame,
                    player,
                    InputModel {
                        input_state: InputState { ability_stamina_pending: 10, ..m.input_state },
                        ..m
                    },
                )
            } else {
                only_says(m, later, LogLine::NoStaminaToThrow)
            }
        }),
{
}

/// The slot under `index` holds `slot`.
pub open spec fn carries(player: Player, index: usize, slot: ItemSlot) -> bool {
    player.inventory is Some && index < player.inventory.unwrap()@.len()
        && player.inventory.unwrap()@[index as int] == slot
}

/// `name` holds the word "Starr", with whatever around it.
pub open spec fn names_a_starr(name: Seq<char>) -> bool {
    exists|front: Seq<char>, back: Seq<char>| name == #[trigger] (front + "Starr"@ + back)
}

/// A name is that of a double-action gun exactly if it holds the word "Starr".
pub proof fn double_action_guns_are_starrs(name: Seq<char>)
    ensures
        double_action_name(name) <==> names_a_starr(name),
{
    let word = "Starr"@;
    if double_action_name(name) {
        let i = choose|i: int|
            0 <= i && i + word.len() <= name.len() && #[trigger] name.subrange(i, i + word.len())
                == word;
        let front = name.take(i);
        let back = name.skip(i + word.len());
        assert(name =~= front + word + back) by {
            assert forall|k: int| 0 <= k < word.len() implies word[k] == #[trigger] name[i + k] by {
                assert(name.subrange(i, i + word.len())[k] == name[i + k]);
            }
        }
    }
    if names_a_starr(name) {
        let (front, back) = choose|front: Seq<char>, back: Seq<char>|
            name == #[trigger] (front + word + back);
        let i = front.len() as int;
        assert(name.subrange(i, i + word.len()) =~= word);
    }
}

/// A loaded gun fires from the player at the cursor, at up to 100 tiles, in two ticks, or in
/// one if it is double-action. An empty gun and a cursor on the player are refused.
pub proof fn guns_fire_at_the_cursor(
    frame: Frame,
    player: Player,
    m: InputModel,
    index: usize,
    slot: ItemSlot,
)
    requires
        carries(player, index, slot),
        slot.kind is Some,
        slot.kind.unwrap() is Gun,
        slot.kind.unwrap()->loaded > 0 ==> cursor_in_sight(player, m),
    ensures
        fits(frame, player, m, Command::UseSlot { index }),
        ({
            let later = after(frame, player, m, Command::UseSlot { index });
            let shot = later.intents.shots.last();
            if slot.kind.unwrap()->loaded <= 0 {
                only_says(m, later, LogLine::GunEmpty)
            } else if m.cursor.x == player.pos.x && m.cursor.y == player.pos.y {
                only_says(m, later, LogLine::CursorOnPlayer)
            } else {
                &&& acts(
                    m,
                    later,
                    if names_a_starr(slot.kind.unwrap()->name@) {
                        0
                    } else {
                        1
                    },
                    m.input_state.ability_stamina_pending,
                )
                &&& later.intents == IntentModel { shots: m.intents.shots.push(shot), ..m.intents }
                &&& player.pos.x + shot.dx == m.cursor.x
                &&& player.pos.y + shot.dy == m.cursor.y
                &&& shot.attacker == player.entity
                &&& shot.gun_item == Some(slot.entity)
                &&& shot.range == 100
            }
        }),
{
    double_action_guns_are_starrs(slot.kind.unwrap()->name@);
}

/// A knife or a tomahawk flies from the player to the cursor in two ticks and does its attack.
/// A cursor on the player is refused.
pub proof fn blades_fly_to_the_cursor(
    frame: Frame,
    player: Player,
    m: InputModel,
    index: usize,
    slot: ItemSlot,
)
    requires
        carries(player, index, slot),
        slot.kind is Some,
        slot.kind.unwrap() is Knife || slot.kind.unwrap() is Tomahawk,
        cursor_in_sight(player, m),
    ensures
        fits(frame, player, m, Command::UseSlot { index }),
        ({
            let later = after(frame, player, m, Command::UseSlot { index });
            let flight = later.intents.throws.last();
            if m.cursor.x == player.pos.x && m.cursor.y == player.pos.y {
                only_says(m, later, LogLine::CursorOnPlayer)
            } else {
                &&& acts(m, later, 1, m.input_state.ability_stamina_pending)
                &&& throws_at_the_cursor(frame, player, m, later)
                &&& flight.item_entity == slot.entity
                &&& flight.item_index == index
                &&& slot.kind.unwrap() is Knife ==> flight.damage
                    == slot.kind.unwrap()->Knife_attack
                &&& slot.kind.unwrap() is Tomahawk ==> flight.damage
                    == slot.kind.unwrap()->Tomahawk_attack
            }
        }),
{
}

/// A grenade goes off where the cursor stands, with a radius of three, and the slot that it
/// was in is the one that is emptied. It takes two ticks, and stamina has to be there.
pub proof fn grenades_go_off_at_the_cursor(
    frame: Frame,
    player: Player,
    m: InputModel,
    index: usize,
    slot: ItemSlot,
)
    requires
        carries(player, index, slot),
        slot.kind is Some,
        slot.kind.unwrap() is Grenade,
    ensures
        fits(frame, player, m, Command::UseSlot { index }),
        ({
            let later = after(frame, player, m, Command::UseSlot { index });
            let blast = later.intents.spells.last();
            if player.stamina is Some && player.stamina.unwrap() >= frame.spell_stamina_cost {
                &&& acts(m, later, 1, m.input_state.ability_stamina_pending)
                &&& later.intents == IntentModel {
                    spells: m.intents.spells.push(blast),
                    ..m.intents
                }
                &&& blast.target.x == m.cursor.x
                &&& blast.target.y == m.cursor.y
                &&& blast.caster == player.entity
                &&& blast.radius == 3
                &&& blast.grenade_index == index
            } else {
                only_says(m, later, LogLine::NoStamina)
            }
        }),
{
}

/// A molotov burns where the cursor stands, as wide and as hot as it says, and the slot that it
/// was in is the one that is emptied. It takes two ticks, and stamina has to be there.
pub proof fn molotovs_burn_at_the_cursor(
    frame: Frame,
    player: Player,
    m: InputModel,
    index: usize,
    slot: ItemSlot,
)
    requires
        carries(player, index, slot),
        slot.kind is Some,
        slot.kind.unwrap() is Molotov,
    ensures
        fits(frame, player, m, Command::UseSlot { index }),
        ({
            let later = after(frame, player, m, Command::UseSlot { index });
            let fire = later.intents.molotovs.last();
            if player.stamina is Some && player.stamina.unwrap() >= frame.spell_stamina_cost {
                &&& acts(m, later, 1, m.input_state.ability_stamina_pending)
                &&& later.intents == IntentModel {
                    molotovs: m.intents.molotovs.push(fire),
                    ..m.intents
                }
                &&& fire.target.x == m.cursor.x
                &&& fire.target.y == m.cursor.y
                &&& fire.caster == player.entity
                &&& fire.radius == slot.kind.unwrap()->Molotov_radius
                &&& fire.damage == slot.kind.unwrap()->Molotov_damage
                &&& fire.item_index == index
            } else {
                only_says(m, later, LogLine::NoStamina)
            }
        }),
{
}

/// Whatever is neither shot nor thrown is used, in two ticks; a slot without a known item is
/// asked for too, and leaves the ticks alone.
pub proof fn other_items_are_used(
    frame: Frame,
    player: Player,
    m: InputModel,
    index: usize,
    kind: Option<ItemKind<String>>,
)
    requires
        match kind {
            Some(known) => {
                &&& player.inventory is Some
                &&& index < player.inventory.unwrap()@.len()
                &&& player.inventory.unwrap()@[index as int].kind == Some(known)
                &&& known !is Gun
                &&& known !is Knife
                &&& known !is Tomahawk
                &&& known !is Grenade
                &&& known !is Molotov
            },
            None => player.inventory is Some && index < player.inventory.unwrap()@.len()
                ==> player.inventory.unwrap()@[index as int].kind is None,
        },
    ensures
        fits(frame, player, m, Command::UseSlot { index }),
        ({
            let later = after(frame, player, m, Command::UseSlot { index });
            let request = later.intents.uses.last();
            &&& acts(
                m,
                later,
                if kind is Some {
                    1
                } else {
                    m.extra_world_ticks
                },
                m.input_state.ability_stamina_pending,
            )
            &&& later.intents == IntentModel { uses: m.intents.uses.push(request), ..m.intents }
            &&& request.user == player.entity
            &&& request.item_index == index
        }),
{
}

} // verus!
