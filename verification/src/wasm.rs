//! Errors of WebAssembly execution.
use vstd::prelude::*;

use crate::engine::errors::RuntimeError;
use crate::fee::FeeReserveError;

verus! {

/// Errors of the WebAssembly runtime itself.
#[derive(Debug)]
pub enum WasmError {
    /// The input handed to the engine could not be decoded.
    InvalidRadixEngineInput,
    /// Cost units could not be consumed.
    CostingError(FeeReserveError),
}

/// An error of an invocation: of the callee itself, or raised further down.
#[derive(Debug)]
pub enum InvokeError<E> {
    Error(E),
    Downstream(RuntimeError),
}

} // verus!
