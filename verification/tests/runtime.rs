use lib::engine::errors::{KernelError, RuntimeError};
use lib::engine::interpreters::wasm_runtime as kernel;
use lib::engine::node::RENode;
use lib::engine::wasm_runtime::{NopWasmRuntime, RadixEngineInput, RadixEngineWasmRuntime, SystemCall};
use lib::fee::{FeeReserveError, SystemLoanFeeReserve};
use lib::types::{ComponentAddress, FnIdentifier, Level, PackageAddress, RENodeId, ScryptoActor, ScryptoRENode};
use lib::wasm::{InvokeError, WasmError};

fn package() -> PackageAddress {
    PackageAddress([3u8; 26])
}

fn runtime() -> RadixEngineWasmRuntime {
    RadixEngineWasmRuntime::new(ScryptoActor::Component(ComponentAddress([4u8; 26]), package(), "Counter".to_string()))
}

#[test]
fn node_create_of_own_blueprint_makes_a_component() {
    let call = runtime().main(RadixEngineInput::RENodeCreate(ScryptoRENode::Component(package(), "Counter".to_string(), vec![5, 6])));
    match call {
        Ok(SystemCall::NodeCreate(RENode::Component(info, state))) => {
            assert_eq!(info.package_address, package());
            assert_eq!(info.blueprint_name, "Counter");
            assert!(info.access_rules.is_empty());
            assert_eq!(state.raw, vec![5, 6]);
        }
        other => panic!("unexpected {:?}", other),
    }
}

#[test]
fn node_create_of_another_blueprint_is_refused() {
    let call = runtime().main(RadixEngineInput::RENodeCreate(ScryptoRENode::Component(package(), "Other".to_string(), vec![])));
    assert!(matches!(call, Err(RuntimeError::KernelError(KernelError::RENodeCreateInvalidPermission))));
}

#[test]
fn node_create_in_another_package_is_refused() {
    let call = runtime().main(RadixEngineInput::RENodeCreate(ScryptoRENode::Component(PackageAddress([9u8; 26]), "Counter".to_string(), vec![])));
    assert!(matches!(call, Err(RuntimeError::KernelError(KernelError::RENodeCreateInvalidPermission))));
}

#[test]
fn node_create_of_key_value_store_is_empty() {
    match runtime().main(RadixEngineInput::RENodeCreate(ScryptoRENode::KeyValueStore)) {
        Ok(SystemCall::NodeCreate(RENode::KeyValueStore(store))) => assert!(store.loaded_entries.is_empty()),
        other => panic!("unexpected {:?}", other),
    }
}

#[test]
fn get_actor_returns_the_actor() {
    let rt = RadixEngineWasmRuntime::new(ScryptoActor::Blueprint(package(), "Counter".to_string()));
    match rt.main(RadixEngineInput::GetActor()) {
        Ok(SystemCall::ReturnActor(ScryptoActor::Blueprint(p, name))) => {
            assert_eq!(p, package());
            assert_eq!(name, "Counter");
        }
        other => panic!("unexpected {:?}", other),
    }
}

#[test]
fn handle_get_actor_gives_the_actor_of_new_every_time() {
    let rt = RadixEngineWasmRuntime::new(ScryptoActor::Blueprint(package(), "Counter".to_string()));
    for _ in 0..2 {
        match rt.handle_get_actor() {
            Ok(ScryptoActor::Blueprint(p, name)) => {
                assert_eq!(p, package());
                assert_eq!(name, "Counter");
            }
            other => panic!("unexpected {:?}", other),
        }
    }
}

#[test]
fn other_requests_go_to_the_system_api_as_is() {
    let rt = runtime();
    let f = FnIdentifier { package_address: package(), blueprint_name: "Counter".to_string(), ident: "new".to_string() };
    match rt.main(RadixEngineInput::InvokeFunction(f, vec![1])) {
        Ok(SystemCall::InvokeFunction(f, data)) => {
            assert_eq!(f.ident, "new");
            assert_eq!(data, vec![1]);
        }
        other => panic!("unexpected {:?}", other),
    }
    assert!(matches!(rt.main(RadixEngineInput::RENodeGlobalize(RENodeId::Component(2))), Ok(SystemCall::NodeGlobalize(RENodeId::Component(2)))));
    assert!(matches!(rt.main(RadixEngineInput::GetOwnedRENodeIds()), Ok(SystemCall::GetOwnedNodeIds)));
    assert!(matches!(rt.main(RadixEngineInput::GenerateUuid()), Ok(SystemCall::GenerateUuid)));
    match rt.main(RadixEngineInput::EmitLog(Level::Info, "hi".to_string())) {
        Ok(SystemCall::EmitLog(Level::Info, m)) => assert_eq!(m, "hi"),
        other => panic!("unexpected {:?}", other),
    }
}

#[test]
fn nop_runtime_accepts_calls_and_charges_cost_units() {
    let mut rt = NopWasmRuntime::new(SystemLoanFeeReserve::new(100));
    assert!(rt.main(vec![1, 2]).is_ok());
    assert!(rt.consume_cost_units(60).is_ok());
    assert!(rt.consume_cost_units(40).is_ok());
    assert!(matches!(
        rt.consume_cost_units(1),
        Err(InvokeError::Error(WasmError::CostingError(FeeReserveError::LimitExceeded)))
    ));
}

#[test]
fn fee_reserve_consumes_up_to_its_limit() {
    let mut reserve = SystemLoanFeeReserve::new(10);
    assert_eq!(reserve.consume(4), Ok(()));
    assert_eq!(reserve.consumed(), 4);
    assert_eq!(reserve.consume(7), Err(FeeReserveError::LimitExceeded));
    assert_eq!(reserve.consumed(), 4);
    assert_eq!(reserve.consume(6), Ok(()));
    assert_eq!(reserve.consumed(), 10);
    assert_eq!(reserve.cost_unit_limit(), 10);
    assert_eq!(reserve.consume(u32::MAX), Err(FeeReserveError::LimitExceeded));
}

#[test]
fn kernel_runtime_routes_each_request_to_its_syscall() {
    let rt = kernel::RadixEngineWasmRuntime::new();
    let call = rt.main(kernel::RadixEngineInput::InvokeNativeFunction(
        kernel::NativeFunction { blueprint_name: "ResourceManager".to_string(), function_name: "create".to_string() },
        vec![7],
    ));
    assert!(call.returns_raw());
    match call {
        kernel::Syscall::InvokeNativeFunction(f, args) => {
            assert_eq!(f.function_name, "create");
            assert_eq!(args, vec![7]);
        }
        other => panic!("unexpected {:?}", other),
    }
    let call = rt.main(kernel::RadixEngineInput::GetTransactionHash());
    assert!(matches!(call, kernel::Syscall::ReadTransactionHash));
    assert!(!call.returns_raw());
    let call = rt.main(kernel::RadixEngineInput::Read(3));
    assert!(matches!(call, kernel::Syscall::Read(3)));
    assert!(call.returns_raw());
    let call = rt.main(kernel::RadixEngineInput::DropLock(3));
    assert!(matches!(call, kernel::Syscall::DropLock(3)));
    assert!(!call.returns_raw());
    assert!(matches!(rt.main(kernel::RadixEngineInput::GetVisibleNodeIds()), kernel::Syscall::GetVisibleNodes));
}

#[test]
fn kernel_nop_runtime_charges_cost_units() {
    let mut rt = kernel::NopWasmRuntime::new(SystemLoanFeeReserve::new(5));
    assert!(rt.main(vec![]).is_ok());
    assert!(rt.consume_cost_units(5).is_ok());
    assert!(matches!(
        rt.consume_cost_units(1),
        Err(InvokeError::Error(WasmError::CostingError(FeeReserveError::LimitExceeded)))
    ));
}
