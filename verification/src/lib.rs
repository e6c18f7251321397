//! Decision logic of a Shakes & Fidget automation bot.
//!
//! Every routine of the bot (arena, daily rewards, dungeons, expeditions,
//! fortress, guard duty, guild, idle game, inventory, mail, mount, pets, shop,
//! skills, underworld, witch) is written here as a function from a snapshot of
//! the game state to the next action the bot takes. The program around the
//! library sends the actions to the game server and builds the snapshots.

pub mod model;
pub mod constant;
pub mod config;
pub mod inventory;
pub mod memory;
pub mod harvest;
pub mod fortress;
pub mod underworld;
pub mod expedition;
pub mod guild;
pub mod text;
pub mod log;
pub mod status;
pub mod dungeon;
pub mod pets;
pub mod session;
pub mod idle;
pub mod arena;
pub mod shop;
pub mod skill;
pub mod daily;
pub mod guard;
pub mod mount;
pub mod witch;
pub mod mail;
