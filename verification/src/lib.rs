//! Core simulation of a local two-player arena duel.
//!
//! Players move, jump, aim and fire projectiles at each other; hits deal
//! damage and may attach timed status effects; a round ends when a player's
//! health reaches zero, which awards a point, resets the arena, and (unless
//! the match is over) lets the losing player draft a stat-modifying card.
//!
//! The crate covers the game's logic only: the entity store, the movement
//! stepper, the combat resolver, the status-effect lifecycle, the round /
//! draft state machine and the card pool. Rendering, input polling and
//! window management are left to the embedding program, which hands the
//! core normalized intents once per tick and reads back a snapshot.
//!
//! All world quantities are integers: lengths in thousandths of a world
//! unit, times in milliseconds, fractions in thousandths. The embedding
//! layer converts to whatever units its renderer uses.

pub mod cards;
pub mod components;
pub mod events;
pub mod laws;
pub mod resources;
pub mod states;
pub mod systems;
