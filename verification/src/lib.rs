//! Decoding of vehicle identification data: the tagged binary record that a
//! save file embeds, and the fixed-width identification code, both resolved
//! against one field schema and one set of lookup tables.

pub mod text;
pub mod wire;
pub mod value;
pub mod container;
pub mod locator;
pub mod entries;
pub mod schema;
pub mod values;
pub mod code;
pub mod input;
pub mod tables;
pub mod colors;
pub mod listing;
pub mod session;
