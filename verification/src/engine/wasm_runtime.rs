//! The glue between WebAssembly code and the system API: for each request of
//! the running code, the call to make on the system API.
use vstd::prelude::*;

use crate::engine::errors::{KernelError, RuntimeError};
use crate::engine::node::RENode;
use crate::fee::SystemLoanFeeReserve;
use crate::model::{ComponentInfoSubstate, ComponentStateSubstate, KeyValueStore};
use crate::types::{FnIdentifier, Level, PackageAddress, RENodeId, Receiver, ScryptoActor, ScryptoRENode, SubstateId};
use crate::wasm::{InvokeError, WasmError};

verus! {

/// A request of the running code to the engine.
#[derive(Debug)]
pub enum RadixEngineInput {
    InvokeFunction(FnIdentifier, Vec<u8>),
    InvokeMethod(Receiver, FnIdentifier, Vec<u8>),
    RENodeGlobalize(RENodeId),
    RENodeCreate(ScryptoRENode),
    GetOwnedRENodeIds(),
    SubstateRead(SubstateId),
    SubstateWrite(SubstateId, Vec<u8>),
    GetActor(),
    GenerateUuid(),
    EmitLog(Level, String),
}

/// What serves a request: a call on the system API, or the actor itself.
#[derive(Debug)]
pub enum SystemCall {
    InvokeFunction(FnIdentifier, Vec<u8>),
    InvokeMethod(Receiver, FnIdentifier, Vec<u8>),
    NodeGlobalize(RENodeId),
    NodeCreate(RENode),
    GetOwnedNodeIds,
    SubstateRead(SubstateId),
    SubstateWrite(SubstateId, Vec<u8>),
    ReturnActor(ScryptoActor),
    GenerateUuid,
    EmitLog(Level, String),
}

/// The node the engine creates for `node`, on behalf of `actor`: a component
/// only of the actor's own blueprint and package, with no access rules.
pub open spec fn creates(actor: ScryptoActor, node: ScryptoRENode, r: Result<RENode, RuntimeError>) -> bool {
    match node {
        ScryptoRENode::Component(package_address, blueprint_name, state) => {
            if blueprint_name@ != actor.blueprint_name()@ || package_address != *actor.package_address() {
                r matches Err(RuntimeError::KernelError(KernelError::RENodeCreateInvalidPermission))
            } else {
                &&& r matches Ok(RENode::Component(info, component_state))
                &&& info.package_address == package_address
                &&& info.blueprint_name == blueprint_name
                &&& info.access_rules@.len() == 0
                &&& component_state.raw == state
            }
        },
        ScryptoRENode::KeyValueStore => {
            &&& r matches Ok(RENode::KeyValueStore(store))
            &&& store.wf()
            &&& store.loaded_entries@.len() == 0
        },
    }
}

/// The engine creates a component only of the running code's own blueprint
/// and package, with no access rules and the state the code gave; any other
/// component is refused for want of permission.
pub proof fn law_created_components_belong_to_actor(
    actor: ScryptoActor,
    package_address: PackageAddress,
    blueprint_name: String,
    state: Vec<u8>,
    r: Result<RENode, RuntimeError>,
)
    requires
        creates(actor, ScryptoRENode::Component(package_address, blueprint_name, state), r),
    ensures
        r is Ok <==> (package_address == *actor.package_address() && blueprint_name@ == actor.blueprint_name()@),
        r matches Ok(node) ==> (node matches RENode::Component(info, component_state) && info.package_address
            == *actor.package_address() && info.blueprint_name@ == actor.blueprint_name()@
            && info.access_rules@.len() == 0 && component_state.raw == state),
        r is Err ==> r == Err::<RENode, RuntimeError>(
            RuntimeError::KernelError(KernelError::RENodeCreateInvalidPermission),
        ),
{
}

/// The WebAssembly runtime of the engine, for the code of one actor.
pub struct RadixEngineWasmRuntime {
    actor: ScryptoActor,
}

impl RadixEngineWasmRuntime {
    /// The code being run.
    pub closed spec fn actor(&self) -> ScryptoActor {
        self.actor
    }

    pub fn new(actor: ScryptoActor) -> (r: Self)
        ensures
            r.actor() == actor,
    {
        RadixEngineWasmRuntime { actor }
    }

    /// The node to create for `scrypto_node`.
    fn handle_node_create(&self, scrypto_node: ScryptoRENode) -> (r: Result<RENode, RuntimeError>)
        ensures
            creates(self.actor(), scrypto_node, r),
    {
        let node = match scrypto_node {
            ScryptoRENode::Component(package_address, blueprint_name, state) => {
                if !blueprint_name.eq(self.actor.blueprint_name()) {
                    return Err(RuntimeError::KernelError(KernelError::RENodeCreateInvalidPermission));
                }
                if !package_address.same_as(self.actor.package_address()) {
                    return Err(RuntimeError::KernelError(KernelError::RENodeCreateInvalidPermission));
                }
                RENode::Component(
                    ComponentInfoSubstate::new(package_address, blueprint_name, Vec::new()),
                    ComponentStateSubstate::new(state),
                )
            },
            ScryptoRENode::KeyValueStore => RENode::KeyValueStore(KeyValueStore::new()),
        };
        Ok(node)
    }

    /// The actor, for the running code to read: always the one the runtime
    /// was made with.
    pub fn handle_get_actor(&self) -> (r: Result<ScryptoActor, RuntimeError>)
        ensures
            r == Ok::<ScryptoActor, RuntimeError>(self.actor()),
    {
        Ok(self.actor.clone())
    }

    /// Serves a request of the running code: every request but the creation
    /// of a node and the reading of the actor goes to the system API as is.
    pub fn main(&self, input: RadixEngineInput) -> (r: Result<SystemCall, RuntimeError>)
        ensures
            match input {
                RadixEngineInput::InvokeFunction(f, call_data) => r == Ok::<SystemCall, RuntimeError>(
                    SystemCall::InvokeFunction(f, call_data),
                ),
                RadixEngineInput::InvokeMethod(receiver, f, call_data) => r == Ok::<
                    SystemCall,
                    RuntimeError,
                >(SystemCall::InvokeMethod(receiver, f, call_data)),
                RadixEngineInput::RENodeGlobalize(node_id) => r == Ok::<SystemCall, RuntimeError>(
                    SystemCall::NodeGlobalize(node_id),
                ),
                RadixEngineInput::RENodeCreate(node) => match r {
                    Ok(SystemCall::NodeCreate(created)) => creates(self.actor(), node, Ok(created)),
                    Ok(_) => false,
                    Err(e) => creates(self.actor(), node, Err(e)),
                },
                RadixEngineInput::GetOwnedRENodeIds() => r == Ok::<SystemCall, RuntimeError>(
                    SystemCall::GetOwnedNodeIds,
                ),
                RadixEngineInput::SubstateRead(substate_id) => r == Ok::<SystemCall, RuntimeError>(
                    SystemCall::SubstateRead(substate_id),
                ),
                RadixEngineInput::SubstateWrite(substate_id, value) => r == Ok::<SystemCall, RuntimeError>(
                    SystemCall::SubstateWrite(substate_id, value),
                ),
                RadixEngineInput::GetActor() => r == Ok::<SystemCall, RuntimeError>(
                    SystemCall::ReturnActor(self.actor()),
                ),
                RadixEngineInput::GenerateUuid() => r == Ok::<SystemCall, RuntimeError>(
                    SystemCall::GenerateUuid,
                ),
                RadixEngineInput::EmitLog(level, message) => r == Ok::<SystemCall, RuntimeError>(
                    SystemCall::EmitLog(level, message),
                ),
            },
    {
        match input {
            RadixEngineInput::InvokeFunction(fn_identifier, input_bytes) => Ok(
                SystemCall::InvokeFunction(fn_identifier, input_bytes),
            ),
            RadixEngineInput::InvokeMethod(receiver, fn_identifier, input_bytes) => Ok(
                SystemCall::InvokeMethod(receiver, fn_identifier, input_bytes),
            ),
            RadixEngineInput::RENodeGlobalize(node_id) => Ok(SystemCall::NodeGlobalize(node_id)),
            RadixEngineInput::RENodeCreate(node) => match self.handle_node_create(node) {
                Ok(created) => Ok(SystemCall::NodeCreate(created)),
                Err(e) => Err(e),
            },
            RadixEngineInput::GetOwnedRENodeIds() => Ok(SystemCall::GetOwnedNodeIds),
            RadixEngineInput::SubstateRead(substate_id) => Ok(SystemCall::SubstateRead(substate_id)),
            RadixEngineInput::SubstateWrite(substate_id, value) => Ok(
                SystemCall::SubstateWrite(substate_id, value),
            ),
            RadixEngineInput::GetActor() => match self.handle_get_actor() {
                Ok(actor) => Ok(SystemCall::ReturnActor(actor)),
                Err(e) => Err(e),
            },
            RadixEngineInput::GenerateUuid() => Ok(SystemCall::GenerateUuid),
            RadixEngineInput::EmitLog(level, message) => Ok(SystemCall::EmitLog(level, message)),
        }
    }
}

/// A runtime that accepts any call by doing nothing, while still charging
/// the cost units the code consumes.
pub struct NopWasmRuntime {
    fee_reserve: SystemLoanFeeReserve,
}

impl NopWasmRuntime {
    /// The fee reserve cost units are drawn from.
    pub closed spec fn reserve(&self) -> SystemLoanFeeReserve {
        self.fee_reserve
    }

    pub fn new(fee_reserve: SystemLoanFeeReserve) -> (r: Self)
        ensures
            r.reserve() == fee_reserve,
    {
        Self { fee_reserve }
    }

    /// Accepts any call, doing nothing.
    pub fn main(&mut self, _input: Vec<u8>) -> (r: Result<(), InvokeError<WasmError>>)
        ensures
            r is Ok,
            final(self).reserve() == old(self).reserve(),
    {
        Ok(())
    }

    /// Draws `n` cost units from the fee reserve.
    pub fn consume_cost_units(&mut self, n: u32) -> (r: Result<(), InvokeError<WasmError>>)
        requires
            old(self).reserve().wf(),
        ensures
            final(self).reserve().wf(),
            final(self).reserve().limit() == old(self).reserve().limit(),
            old(self).reserve().consumed_units() + n <= old(self).reserve().limit() ==> r is Ok
                && final(self).reserve().consumed_units() == old(self).reserve().consumed_units() + n,
            old(self).reserve().consumed_units() + n > old(self).reserve().limit() ==> (r matches Err(
                InvokeError::Error(WasmError::CostingError(crate::fee::FeeReserveError::LimitExceeded)),
            )) && final(self).reserve().consumed_units() == old(self).reserve().consumed_units(),
    {
        match self.fee_reserve.consume(n) {
            Ok(()) => Ok(()),
            Err(e) => Err(InvokeError::Error(WasmError::CostingError(e))),
        }
    }
}

} // verus!
