//! Index-space bookkeeping for the intermediate representation of
//! WebAssembly components.

pub mod section;
pub mod idx_spaces;
pub mod refs;
pub mod kinds;
pub mod assign;
pub mod scopes;
pub mod collect;
pub mod names;
pub mod items;
pub mod item_refs;
pub mod type_refs;
pub mod core_refs;
pub mod payload;
pub mod wasm;
pub mod nodes;
pub mod component;
pub mod parse;
pub mod resolve;
pub mod index_spaces;
pub mod ids;
pub mod edit;
pub mod concrete;
pub mod fix;
pub mod settle;
pub mod encode;
pub mod emit;
pub mod plain;
