//! The glue between WebAssembly code and the system calls of the kernel: for
//! each request of the running code, the system call that serves it.
use vstd::prelude::*;

use crate::fee::{FeeReserveError, SystemLoanFeeReserve};
use crate::types::{ComponentAddress, Level, PackageAddress, RENodeId, ScryptoRENode, SubstateOffset};
use crate::wasm::{InvokeError, WasmError};

verus! {

/// A Scrypto function: package, blueprint and function name.
#[derive(Debug)]
pub struct ScryptoFunctionIdent {
    pub package_address: PackageAddress,
    pub blueprint_name: String,
    pub function_name: String,
}

/// The receiver of a Scrypto method.
#[derive(Debug)]
pub enum ScryptoReceiver {
    Global(ComponentAddress),
    Component(u32),
}

/// A Scrypto method: receiver and method name.
#[derive(Debug)]
pub struct ScryptoMethodIdent {
    pub receiver: ScryptoReceiver,
    pub method_name: String,
}

/// A function implemented by the engine: blueprint and function name.
#[derive(Debug)]
pub struct NativeFunction {
    pub blueprint_name: String,
    pub function_name: String,
}

/// A method implemented by the engine: receiver node and method name.
#[derive(Debug)]
pub struct NativeMethod {
    pub receiver: RENodeId,
    pub method_name: String,
}

/// A lock on a substate, held by the running code.
pub type LockHandle = u32;

/// A request of the running code to the engine.
#[derive(Debug)]
pub enum RadixEngineInput {
    InvokeScryptoFunction(ScryptoFunctionIdent, Vec<u8>),
    InvokeScryptoMethod(ScryptoMethodIdent, Vec<u8>),
    InvokeNativeFunction(NativeFunction, Vec<u8>),
    InvokeNativeMethod(NativeMethod, Vec<u8>),
    CreateNode(ScryptoRENode),
    GetVisibleNodeIds(),
    DropNode(RENodeId),
    LockSubstate(RENodeId, SubstateOffset, bool),
    Read(LockHandle),
    Write(LockHandle, Vec<u8>),
    DropLock(LockHandle),
    GetActor(),
    GetTransactionHash(),
    GenerateUuid(),
    EmitLog(Level, String),
}

/// The system call that serves a request.
#[derive(Debug)]
pub enum Syscall {
    InvokeScryptoFunction(ScryptoFunctionIdent, Vec<u8>),
    InvokeScryptoMethod(ScryptoMethodIdent, Vec<u8>),
    InvokeNativeFunction(NativeFunction, Vec<u8>),
    InvokeNativeMethod(NativeMethod, Vec<u8>),
    CreateNode(ScryptoRENode),
    GetVisibleNodes,
    DropNode(RENodeId),
    LockSubstate(RENodeId, SubstateOffset, bool),
    Read(LockHandle),
    Write(LockHandle, Vec<u8>),
    DropLock(LockHandle),
    GetActor,
    ReadTransactionHash,
    GenerateUuid,
    EmitLog(Level, String),
}

impl Syscall {
    /// The result goes back to the running code as the bytes the call
    /// returned (invocations and reads), not re-encoded.
    pub open spec fn returns_raw_spec(&self) -> bool {
        self is InvokeScryptoFunction || self is InvokeScryptoMethod || self is InvokeNativeFunction
            || self is InvokeNativeMethod || self is Read
    }

    #[verifier::when_used_as_spec(returns_raw_spec)]
    pub fn returns_raw(&self) -> (r: bool)
        ensures
            r == self.returns_raw_spec(),
            r <==> match self {
                Syscall::InvokeScryptoFunction(..) => true,
                Syscall::InvokeScryptoMethod(..) => true,
                Syscall::InvokeNativeFunction(..) => true,
                Syscall::InvokeNativeMethod(..) => true,
                Syscall::Read(..) => true,
                Syscall::CreateNode(..) => false,
                Syscall::GetVisibleNodes => false,
                Syscall::DropNode(..) => false,
                Syscall::LockSubstate(..) => false,
                Syscall::Write(..) => false,
                Syscall::DropLock(..) => false,
                Syscall::GetActor => false,
                Syscall::ReadTransactionHash => false,
                Syscall::GenerateUuid => false,
                Syscall::EmitLog(..) => false,
            },
    {
        match self {
            Syscall::InvokeScryptoFunction(..) => true,
            Syscall::InvokeScryptoMethod(..) => true,
            Syscall::InvokeNativeFunction(..) => true,
            Syscall::InvokeNativeMethod(..) => true,
            Syscall::Read(..) => true,
            _ => false,
        }
    }
}

/// The results handed back raw are those of the four kinds of invocation and
/// of reads; the result of every other system call is encoded.
pub proof fn law_raw_results_are_invocations_and_reads(call: Syscall)
    ensures
        call.returns_raw_spec() <==> (call is InvokeScryptoFunction || call is InvokeScryptoMethod
            || call is InvokeNativeFunction || call is InvokeNativeMethod || call is Read),
        call is CreateNode || call is GetVisibleNodes || call is DropNode || call is LockSubstate || call is Write
            || call is DropLock || call is GetActor || call is ReadTransactionHash || call is GenerateUuid
            || call is EmitLog ==> !call.returns_raw_spec(),
{
}

/// The WebAssembly runtime of the kernel.
pub struct RadixEngineWasmRuntime {}

impl RadixEngineWasmRuntime {
    pub fn new() -> (r: Self) {
        RadixEngineWasmRuntime {  }
    }

    /// Serves a request of the running code with the system call of the
    /// same name.
    pub fn main(&self, input: RadixEngineInput) -> (r: Syscall)
        ensures
            match input {
                RadixEngineInput::InvokeScryptoFunction(ident, args) => r == Syscall::InvokeScryptoFunction(
                    ident,
                    args,
                ),
                RadixEngineInput::InvokeScryptoMethod(ident, args) => r == Syscall::InvokeScryptoMethod(
                    ident,
                    args,
                ),
                RadixEngineInput::InvokeNativeFunction(f, args) => r == Syscall::InvokeNativeFunction(f, args),
                RadixEngineInput::InvokeNativeMethod(m, args) => r == Syscall::InvokeNativeMethod(m, args),
                RadixEngineInput::CreateNode(node) => r == Syscall::CreateNode(node),
                RadixEngineInput::GetVisibleNodeIds() => r == Syscall::GetVisibleNodes,
                RadixEngineInput::DropNode(node_id) => r == Syscall::DropNode(node_id),
                RadixEngineInput::LockSubstate(node_id, offset, mutable) => r == Syscall::LockSubstate(
                    node_id,
                    offset,
                    mutable,
                ),
                RadixEngineInput::Read(handle) => r == Syscall::Read(handle),
                RadixEngineInput::Write(handle, value) => r == Syscall::Write(handle, value),
                RadixEngineInput::DropLock(handle) => r == Syscall::DropLock(handle),
                RadixEngineInput::GetActor() => r == Syscall::GetActor,
                RadixEngineInput::GetTransactionHash() => r == Syscall::ReadTransactionHash,
                RadixEngineInput::GenerateUuid() => r == Syscall::GenerateUuid,
                RadixEngineInput::EmitLog(level, message) => r == Syscall::EmitLog(level, message),
            },
    {
        match input {
            RadixEngineInput::InvokeScryptoFunction(function_ident, args) => Syscall::InvokeScryptoFunction(
                function_ident,
                args,
            ),
            RadixEngineInput::InvokeScryptoMethod(method_ident, args) => Syscall::InvokeScryptoMethod(
                method_ident,
                args,
            ),
            RadixEngineInput::InvokeNativeFunction(native_function, args) => Syscall::InvokeNativeFunction(
                native_function,
                args,
            ),
            RadixEngineInput::InvokeNativeMethod(native_method, args) => Syscall::InvokeNativeMethod(
                native_method,
                args,
            ),
            RadixEngineInput::CreateNode(node) => Syscall::CreateNode(node),
            RadixEngineInput::GetVisibleNodeIds() => Syscall::GetVisibleNodes,
            RadixEngineInput::DropNode(node_id) => Syscall::DropNode(node_id),
            RadixEngineInput::LockSubstate(node_id, offset, mutable) => Syscall::LockSubstate(
                node_id,
                offset,
                mutable,
            ),
            RadixEngineInput::Read(lock_handle) => Syscall::Read(lock_handle),
            RadixEngineInput::Write(lock_handle, value) => Syscall::Write(lock_handle, value),
            RadixEngineInput::DropLock(lock_handle) => Syscall::DropLock(lock_handle),
            RadixEngineInput::GetActor() => Syscall::GetActor,
            RadixEngineInput::GetTransactionHash() => Syscall::ReadTransactionHash,
            RadixEngineInput::GenerateUuid() => Syscall::GenerateUuid,
            RadixEngineInput::EmitLog(level, message) => Syscall::EmitLog(level, message),
        }
    }
}

/// A runtime that accepts any call by doing nothing, while still charging
/// the cost units the code consumes.
pub struct NopWasmRuntime {
    fee_reserve: SystemLoanFeeReserve,
}

impl NopWasmRuntime {
    /// The fee reserve cost units are drawn from.
    pub closed spec fn reserve(&self) -> SystemLoanFeeReserve {
        self.fee_reserve
    }

    pub fn new(fee_reserve: SystemLoanFeeReserve) -> (r: Self)
        ensures
            r.reserve() == fee_reserve,
    {
        Self { fee_reserve }
    }

    /// Accepts any call, doing nothing.
    pub fn main(&mut self, _input: Vec<u8>) -> (r: Result<(), InvokeError<WasmError>>)
        ensures
            r is Ok,
            final(self).reserve() == old(self).reserve(),
    {
        Ok(())
    }

    /// Draws `n` cost units from the fee reserve.
    pub fn consume_cost_units(&mut self, n: u32) -> (r: Result<(), InvokeError<WasmError>>)
        requires
            old(self).reserve().wf(),
        ensures
            final(self).reserve().wf(),
            final(self).reserve().limit() == old(self).reserve().limit(),
            old(self).reserve().consumed_units() + n <= old(self).reserve().limit() ==> r is Ok
                && final(self).reserve().consumed_units() == old(self).reserve().consumed_units() + n,
            old(self).reserve().consumed_units() + n > old(self).reserve().limit() ==> (r matches Err(
                InvokeError::Error(WasmError::CostingError(FeeReserveError::LimitExceeded)),
            )) && final(self).reserve().consumed_units() == old(self).reserve().consumed_units(),
    {
        match self.fee_reserve.consume(n) {
            Ok(()) => Ok(()),
            Err(e) => Err(InvokeError::Error(WasmError::CostingError(e))),
        }
    }
}

} // verus!
