//! Lantern teleport: moving a character to any lantern by rewriting the
//! position record of a save file.
//!
//! The library has three parts. The registry (`catalog`, `names`, `registry`,
//! `groups`) is the fixed list of destinations, searchable by name and grouped
//! by region. The patcher (`zone`, `save`) finds the position record in a save
//! buffer, reads it and rewrites it. The session (`event`, `listing`,
//! `session`, `controls`, `display`) is the state of the interactive program:
//! it takes keys and the results of reading and writing files, and says what
//! is to be shown and done next. The library itself reads no file and draws
//! nothing.
//!
//! Coordinates are held as the bits of single-precision numbers throughout,
//! so that everything here works on integers alone.

pub mod catalog;
pub mod controls;
pub mod display;
pub mod event;
pub mod groups;
pub mod listing;
pub mod names;
pub mod registry;
pub mod registry_laws;
pub mod save;
pub mod save_laws;
pub mod session;
pub mod text;
pub mod types;
pub mod zone;
