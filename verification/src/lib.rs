//! The rules of Astral Legends, a turn-based combat RPG set in a mythological
//! astral realm: characters and their classes, combat between a champion and
//! an enemy, dialogues, the inventory, and the world map and its entities.

pub mod character;
pub mod combat;
pub mod dialogue;
pub mod inventory;
pub mod num;
pub mod text;
pub mod world;
