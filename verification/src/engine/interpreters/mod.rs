pub mod wasm_runtime;
