# roguelike

The rules of a turn-based roguelike, verified with Verus, and the Bevy program around them.

## Library (`src/`)

| Module | Contents |
| --- | --- |
| `grid` | vectors on the tile grid |
| `items`, `intents`, `combat_log`, `state` | what the input phase reads and writes |
| `keys` | keys of a terminal, and of a window through Bevy's `ButtonInput` |
| `commands`, `bindings` | which key asks for what, and the list that the help screen shows |
| `rules` | what each command does, as specification |
| `actions`, `input` | the commands and the two input systems, proved against `rules` |
| `input_laws`, `command_laws` | what holds of runs of keys and of single commands |
| `player_spawn`, `gangs`, `session` | where and with what everyone starts, and starts again |
| `schedule` | order and conditions of what runs at the start and in a frame |

At most one key of a frame takes the player's turn; those behind it wait, but for the menu
(`input_laws::one_action_at_a_time`).

Coordinates are `i32`. The input systems require that the coordinates they compute fit, which
`command_laws::input_fits_on_maps` proves of every map of a reasonable size;
`input::try_input_system` and `input::try_input_system_windowed` ask for nothing and say
whether they did.

What the library takes on trust stands in three places: `keys` (three calls of
`ButtonInput`), `items` (`str::contains`) and `intents` (the type `Entity`).

## Program (`app/`)

Reads keys and clocks, samples noise, and moves plain values between the library and the
engine. What runs at the start and before `Update` is a `JobSet`, each part of a frame a
`StepSet`; systems join them with `in_set`.
