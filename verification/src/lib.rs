//! Catalog normalization, index bootstrap planning and query gateways for a
//! searchable catalog of game mods.
//!
//! The crate holds the decisions of the service: how a raw catalog record
//! becomes a canonical [`GameMod`], in which order the search index is set
//! up, and how a query and its answer are shaped. Talking to the search
//! engine and to HTTP clients is left to the program around it.

pub mod bootstrap;
pub mod catalog;
pub mod engine;
pub mod json;
pub mod models;
pub mod normalize;
pub mod raw;
pub mod server;

pub use catalog::Catalog;
pub use models::{GameMod, GameModView};
pub use raw::{RawTree, RawValue};
