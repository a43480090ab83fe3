//! The rules of a roguelike in a frontier town: what the keys of the player do, where everyone
//! starts and with what, what a restart leaves behind, and in which order a frame runs.
//!
//! The modules are free of the engine but for two of its types: the entity handles that
//! intents carry, and the keyboard state of a window, which is read through [`keys`].

pub mod actions;
pub mod bindings;
pub mod combat_log;
pub mod command_laws;
pub mod commands;
pub mod gangs;
pub mod grid;
pub mod input;
pub mod input_laws;
pub mod intents;
pub mod items;
pub mod keys;
pub mod player_spawn;
pub mod rules;
pub mod schedule;
pub mod session;
pub mod state;
