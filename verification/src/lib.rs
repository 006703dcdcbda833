//! Decoder for the binary package container format used by a game engine to
//! persist packaged assets: a version-gated header ("summary"), an interned
//! name table, an asset-metadata registry, a thumbnail index, and a per-object
//! export table.
//!
//! The decoder works over an in-memory byte buffer; opening and reading the
//! package file is left to the caller.

pub mod asset_registry;
pub mod bytes;
pub mod data_table;
pub mod errors;
pub mod exports;
pub mod export_table;
pub mod fstring;
pub mod laws;
pub mod parser;
pub mod reader;
pub mod summary;
pub mod text;
pub mod unreal_types;
pub mod utf16;
pub mod versions;
