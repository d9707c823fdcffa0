//! Verified core of a pantry tracker and a media catalogue.
//!
//! The pantry keeps items that are either in stock or on the shopping list;
//! the catalogue records uploaded files by the kind of their content. Both
//! keep their records in a relational engine. This library holds what the
//! two services decide and compute, with contracts that Verus proves:
//!
//! - `item` and `media`: the records, the encoding of an item's state, and
//!   the classification of an upload;
//! - `statement`: the parameterized statements sent to the engine;
//! - `store`: for each operation of the item store, the statement to send and
//!   what to make of the engine's answer;
//! - `engine` and `laws`: what a sound engine does with those statements,
//!   and what the store's operations therefore do one after another;
//! - `upload`: the steps of taking in an uploaded file;
//! - `pages` and `handlers`: what the pantry's pages show and how its
//!   requests are answered;
//! - `configuration`: the settings of the service.
//!
//! Talking to the engine, the file system and the network is left to the
//! caller, which hands in plain values and gets plain values back.

pub mod configuration;
pub mod engine;
pub mod handlers;
pub mod item;
pub mod laws;
pub mod media;
pub mod pages;
pub mod statement;
pub mod store;
pub mod upload;
