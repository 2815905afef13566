pub mod errors;
pub mod interpreters;
pub mod node;
pub mod wasm_runtime;
