//! Core logic of a small apartment-survival game: the application state
//! stack, the survival-needs bookkeeping, the vulnerability flags with the
//! game-over resolver, and the in-world console with its two embedded
//! mini-games (a labyrinth battler and tic-tac-toe).
//!
//! Rendering, audio, input plumbing and timers are left to a presentation
//! layer; this crate owns the rules and proves them.

pub mod console;
pub mod game_over;
pub mod games;
pub mod interactions;
pub mod laby_art;
pub mod laby_commands;
pub mod laby_data;
pub mod laby_enemies;
pub mod laby_game;
pub mod laby_items;
pub mod needs;
pub mod npcs;
pub mod rng;
pub mod states;
pub mod text;
pub mod tictactoe;
pub mod vulnerability;
