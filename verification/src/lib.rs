//! The node store of the Radix engine: nodes, their substates, and the
//! requests that running code makes to the engine.
pub mod crypto;
pub mod data;
pub mod engine;
pub mod entries;
pub mod fee;
pub mod model;
pub mod resource;
pub mod types;
pub mod wasm;
