//! Accounts of the battle game.
pub mod battle;
pub mod character;
pub mod config;
pub mod entropy;
pub mod offer;
