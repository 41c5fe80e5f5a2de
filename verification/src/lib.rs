//! A one-shot source-analysis indexer for a single, already-parsed
//! translation unit.
//!
//! An external front end parses, expands and type-checks the source; this
//! library only re-projects facts about the resulting tree into three flat
//! text artifacts: a ctags-format tag index, a node-identifier-to-span
//! table, and a node-identifier-to-type table.

pub mod ast;
pub mod driver;
pub mod node_id_map;
pub mod source_map;
pub mod tags;
pub mod text;
pub mod type_map;
