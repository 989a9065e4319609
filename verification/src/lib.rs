//! Game rules of Capybara Commute: a capybara floats down a river and
//! catches falling passengers on its back without tipping over.
//!
//! The library holds the integer-valued rules of the game (passenger kinds,
//! scoring, landing bookkeeping, the end-of-game decision, how the stack of
//! riders is laid out, the spawn lottery and the score read-outs).  The
//! frame loop, rendering and the floating-point physics live in the app.
pub mod passenger;
pub mod game;
pub mod layout;
pub mod spawn;
pub mod controls;
pub mod hud;
