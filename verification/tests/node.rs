use std::collections::HashSet;

use lib::engine::errors::{DropFailure, KernelError, RuntimeError};
use lib::engine::node::{HeapRENode, RENode};
use lib::model::{
    AuthZone, AuthZoneStackSubstate, BucketSubstate, ComponentInfoSubstate, ComponentStateSubstate,
    GlobalAddressSubstate, KeyValueStore, KeyValueStoreEntrySubstate, NonFungible, NonFungibleStore,
    NonFungibleSubstate, PackageSubstate, ProofSubstate, RawSubstateRefMut, Resource,
    ResourceManagerSubstate, RuntimeSubstate, SubstateMap, SubstateRef, SystemSubstate,
    VaultRuntimeSubstate, WorktopSubstate,
};
use lib::types::{
    AuthZoneOffset, BucketOffset, ComponentOffset, Decimal, GlobalAddress, GlobalOffset,
    KeyValueStoreOffset, NonFungibleId, NonFungibleStoreOffset, PackageAddress, PackageOffset,
    ProofOffset, RENodeId, ResourceAddress, ResourceManagerOffset, SubstateOffset, SystemOffset,
    VaultOffset, WorktopOffset,
};

fn resource_address() -> ResourceAddress {
    ResourceAddress([7u8; 26])
}

fn fungible(amount: i128) -> Resource {
    Resource::Fungible { resource_address: resource_address(), divisibility: 18, amount: Decimal(amount) }
}

fn component() -> RENode {
    RENode::Component(
        ComponentInfoSubstate::new(PackageAddress([1u8; 26]), "Hello".to_string(), Vec::new()),
        ComponentStateSubstate::new(vec![1, 2, 3]),
    )
}

fn kv_store(entries: Vec<(Vec<u8>, Option<Vec<u8>>)>) -> RENode {
    let mut store = KeyValueStore::new();
    for (k, v) in entries {
        store.loaded_entries.push((k, KeyValueStoreEntrySubstate(v)));
    }
    RENode::KeyValueStore(store)
}

fn nf_store(ids: Vec<Vec<u8>>) -> RENode {
    let mut store = NonFungibleStore::new();
    for id in ids {
        store.loaded_non_fungibles.push((
            NonFungibleId(id),
            NonFungibleSubstate(Some(NonFungible { immutable_data: vec![1], mutable_data: vec![2] })),
        ));
    }
    RENode::NonFungibleStore(store)
}

fn worktop(amounts: Vec<i128>) -> RENode {
    RENode::Worktop(WorktopSubstate { resources: amounts.into_iter().map(fungible).collect() })
}

fn heap(root: RENode) -> HeapRENode {
    HeapRENode { root, child_nodes: HashSet::new() }
}

fn kv_offset(key: &[u8]) -> SubstateOffset {
    SubstateOffset::KeyValueStore(KeyValueStoreOffset::Entry(key.to_vec()))
}

fn is_invalid_offset(e: &RuntimeError, expected: &SubstateOffset) -> bool {
    match e {
        RuntimeError::KernelError(KernelError::InvalidOffset(o)) => o.same_as(expected),
        _ => false,
    }
}

#[test]
fn get_offsets_of_component_lists_state_then_info() {
    let offsets = component().get_offsets();
    assert_eq!(offsets.len(), 2);
    assert!(matches!(offsets[0], SubstateOffset::Component(ComponentOffset::State)));
    assert!(matches!(offsets[1], SubstateOffset::Component(ComponentOffset::Info)));
}

#[test]
fn get_offsets_of_key_value_store_lists_loaded_keys_in_order() {
    let node = kv_store(vec![(vec![3], None), (vec![1, 1], Some(vec![5]))]);
    let offsets = node.get_offsets();
    assert_eq!(offsets.len(), 2);
    assert!(offsets[0].same_as(&kv_offset(&[3])));
    assert!(offsets[1].same_as(&kv_offset(&[1, 1])));
}

#[test]
fn get_offsets_of_non_fungible_store_is_empty() {
    let node = nf_store(vec![vec![1], vec![2]]);
    assert!(node.get_offsets().is_empty());
}

#[test]
fn get_offsets_of_single_substate_nodes() {
    let global = RENode::Global(GlobalAddressSubstate { node_id: RENodeId::Component(1) });
    let offsets = global.get_offsets();
    assert_eq!(offsets.len(), 1);
    assert!(matches!(offsets[0], SubstateOffset::Global(GlobalOffset::Global)));

    let system = RENode::System(SystemSubstate { epoch: 4 });
    let offsets = system.get_offsets();
    assert_eq!(offsets.len(), 1);
    assert!(matches!(offsets[0], SubstateOffset::System(SystemOffset::System)));

    let auth = RENode::AuthZone(AuthZoneStackSubstate { auth_zones: vec![] });
    let offsets = auth.get_offsets();
    assert!(matches!(offsets[0], SubstateOffset::AuthZone(AuthZoneOffset::AuthZone)));

    let wt = worktop(vec![]);
    assert!(matches!(wt.get_offsets()[0], SubstateOffset::Worktop(WorktopOffset::Worktop)));
}

#[test]
fn to_substates_of_component_holds_info_and_state() {
    let map = component().to_substates();
    assert_eq!(map.entries.len(), 2);
    match map.get(&SubstateOffset::Component(ComponentOffset::Info)) {
        Some(RuntimeSubstate::ComponentInfo(info)) => assert_eq!(info.blueprint_name, "Hello"),
        other => panic!("unexpected {:?}", other),
    }
    match map.get(&SubstateOffset::Component(ComponentOffset::State)) {
        Some(RuntimeSubstate::ComponentState(state)) => assert_eq!(state.raw, vec![1, 2, 3]),
        other => panic!("unexpected {:?}", other),
    }
}

#[test]
fn to_substates_of_key_value_store_holds_each_entry() {
    let node = kv_store(vec![(vec![3], None), (vec![1, 1], Some(vec![5]))]);
    let map = node.to_substates();
    assert_eq!(map.entries.len(), 2);
    match map.get(&kv_offset(&[1, 1])) {
        Some(RuntimeSubstate::KeyValueStoreEntry(e)) => assert_eq!(e.0, Some(vec![5])),
        other => panic!("unexpected {:?}", other),
    }
    match map.get(&kv_offset(&[3])) {
        Some(RuntimeSubstate::KeyValueStoreEntry(e)) => assert_eq!(e.0, None),
        other => panic!("unexpected {:?}", other),
    }
    assert!(map.get(&kv_offset(&[9])).is_none());
}

#[test]
fn to_substates_of_non_fungible_store_holds_each_loaded_non_fungible() {
    let node = nf_store(vec![vec![1], vec![2]]);
    let map = node.to_substates();
    assert_eq!(map.entries.len(), 2);
    let offset = SubstateOffset::NonFungibleStore(NonFungibleStoreOffset::Entry(NonFungibleId(vec![2])));
    assert!(matches!(map.get(&offset), Some(RuntimeSubstate::NonFungible(NonFungibleSubstate(Some(_))))));
}

#[test]
fn to_substates_of_single_substate_nodes() {
    let map = RENode::Global(GlobalAddressSubstate { node_id: RENodeId::Package(3) }).to_substates();
    assert!(matches!(
        map.get(&SubstateOffset::Global(GlobalOffset::Global)),
        Some(RuntimeSubstate::GlobalRENode(GlobalAddressSubstate { node_id: RENodeId::Package(3) }))
    ));
    let map = RENode::Vault(VaultRuntimeSubstate { resource: fungible(5) }).to_substates();
    assert!(matches!(map.get(&SubstateOffset::Vault(VaultOffset::Vault)), Some(RuntimeSubstate::Vault(_))));
    let map = RENode::Package(PackageSubstate { code: vec![0] }).to_substates();
    assert!(matches!(map.get(&SubstateOffset::Package(PackageOffset::Package)), Some(RuntimeSubstate::Package(_))));
    let map = RENode::ResourceManager(ResourceManagerSubstate {
        resource_address: resource_address(),
        divisibility: 18,
        total_supply: Decimal(10),
    })
    .to_substates();
    assert!(matches!(
        map.get(&SubstateOffset::ResourceManager(ResourceManagerOffset::ResourceManager)),
        Some(RuntimeSubstate::ResourceManager(_))
    ));
    assert_eq!(map.entries.len(), 1);
}

#[test]
fn offsets_are_substate_keys() {
    for node in [component(), kv_store(vec![(vec![4], None), (vec![5], None)]), RENode::System(SystemSubstate { epoch: 1 })] {
        let offsets = node.get_offsets();
        let map = node.to_substates();
        assert_eq!(offsets.len(), map.entries.len());
        for o in offsets.iter() {
            assert!(map.get(o).is_some());
        }
    }
}

#[test]
fn non_fungible_store_offsets_differ_from_its_substates() {
    let node = nf_store(vec![vec![1]]);
    assert_eq!(node.get_offsets().len(), 0);
    assert_eq!(node.to_substates().entries.len(), 1);
}

#[test]
fn borrow_component_state_and_info() {
    let mut node = component();
    match node.borrow_substate(&SubstateOffset::Component(ComponentOffset::State)) {
        Ok(SubstateRef::ComponentState(s)) => assert_eq!(s.raw, vec![1, 2, 3]),
        _ => panic!("expected component state"),
    }
    match node.borrow_substate(&SubstateOffset::Component(ComponentOffset::Info)) {
        Ok(SubstateRef::ComponentInfo(i)) => assert_eq!(i.package_address, PackageAddress([1u8; 26])),
        _ => panic!("expected component info"),
    }
}

#[test]
fn borrow_key_value_entry_loads_it_once() {
    let mut node = kv_store(vec![(vec![1], Some(vec![10]))]);
    match node.borrow_substate(&kv_offset(&[2])) {
        Ok(SubstateRef::KeyValueStoreEntry(e)) => assert_eq!(e.0, None),
        _ => panic!("expected entry"),
    }
    let offsets = node.get_offsets();
    assert_eq!(offsets.len(), 2);
    assert!(offsets[0].same_as(&kv_offset(&[1])));
    assert!(offsets[1].same_as(&kv_offset(&[2])));
    match node.borrow_substate(&kv_offset(&[2])) {
        Ok(SubstateRef::KeyValueStoreEntry(e)) => assert_eq!(e.0, None),
        _ => panic!("expected entry"),
    }
    assert_eq!(node.get_offsets().len(), 2);
    match node.borrow_substate(&kv_offset(&[1])) {
        Ok(SubstateRef::KeyValueStoreEntry(e)) => assert_eq!(e.0, Some(vec![10])),
        _ => panic!("expected entry"),
    }
    assert_eq!(node.get_offsets().len(), 2);
}

#[test]
fn borrow_non_fungible_loads_an_empty_one() {
    let mut node = nf_store(vec![]);
    let offset = SubstateOffset::NonFungibleStore(NonFungibleStoreOffset::Entry(NonFungibleId(vec![8])));
    match node.borrow_substate(&offset) {
        Ok(SubstateRef::NonFungible(n)) => assert!(n.0.is_none()),
        _ => panic!("expected non-fungible"),
    }
    match &node {
        RENode::NonFungibleStore(store) => assert_eq!(store.loaded_non_fungibles.len(), 1),
        _ => panic!("node changed kind"),
    }
}

#[test]
fn borrow_invalid_offset_is_an_error() {
    let mut node = component();
    let offset = SubstateOffset::Vault(VaultOffset::Vault);
    match node.borrow_substate(&offset) {
        Err(e) => assert!(is_invalid_offset(&e, &offset)),
        Ok(_) => panic!("expected an error"),
    }
    let mut store = kv_store(vec![]);
    let offset = SubstateOffset::Bucket(BucketOffset::Bucket);
    match store.borrow_substate_mut(&offset) {
        Err(e) => assert!(is_invalid_offset(&e, &offset)),
        Ok(_) => panic!("expected an error"),
    }
    assert_eq!(store.get_offsets().len(), 0);
}

#[test]
fn borrow_global_is_an_error() {
    let mut node = RENode::Global(GlobalAddressSubstate {
        node_id: RENodeId::Global(GlobalAddress::Package(PackageAddress([2u8; 26]))),
    });
    let offset = SubstateOffset::Global(GlobalOffset::Global);
    match node.borrow_substate(&offset) {
        Err(e) => assert!(is_invalid_offset(&e, &offset)),
        Ok(_) => panic!("expected an error"),
    }
}

#[test]
fn key_value_entry_read_after_write() {
    let mut node = kv_store(vec![(vec![1], Some(vec![10]))]);
    match node.borrow_substate_mut(&kv_offset(&[7])) {
        Ok(RawSubstateRefMut::KeyValueStoreEntry(e)) => {
            assert_eq!(e.0, None);
            e.0 = Some(vec![42]);
        }
        _ => panic!("expected entry"),
    }
    match node.borrow_substate(&kv_offset(&[7])) {
        Ok(SubstateRef::KeyValueStoreEntry(e)) => assert_eq!(e.0, Some(vec![42])),
        _ => panic!("expected entry"),
    }
    match node.borrow_substate_mut(&kv_offset(&[1])) {
        Ok(RawSubstateRefMut::KeyValueStoreEntry(e)) => {
            assert_eq!(e.0, Some(vec![10]));
            e.0 = None;
        }
        _ => panic!("expected entry"),
    }
    match node.borrow_substate(&kv_offset(&[1])) {
        Ok(SubstateRef::KeyValueStoreEntry(e)) => assert_eq!(e.0, None),
        _ => panic!("expected entry"),
    }
}

#[test]
fn non_fungible_read_after_write() {
    let mut node = nf_store(vec![vec![1]]);
    let offset = SubstateOffset::NonFungibleStore(NonFungibleStoreOffset::Entry(NonFungibleId(vec![1])));
    match node.borrow_substate_mut(&offset) {
        Ok(RawSubstateRefMut::NonFungible(n)) => {
            assert!(n.0.is_some());
            n.0 = None;
        }
        _ => panic!("expected non-fungible"),
    }
    match node.borrow_substate(&offset) {
        Ok(SubstateRef::NonFungible(n)) => assert!(n.0.is_none()),
        _ => panic!("expected non-fungible"),
    }
}

#[test]
fn component_state_write_is_kept() {
    let mut node = component();
    match node.borrow_substate_mut(&SubstateOffset::Component(ComponentOffset::State)) {
        Ok(RawSubstateRefMut::ComponentState(s)) => s.raw = vec![9],
        _ => panic!("expected state"),
    }
    match node.borrow_substate(&SubstateOffset::Component(ComponentOffset::State)) {
        Ok(SubstateRef::ComponentState(s)) => assert_eq!(s.raw, vec![9]),
        _ => panic!("expected state"),
    }
}

#[test]
fn borrow_mut_of_every_single_substate_kind() {
    let mut system = RENode::System(SystemSubstate { epoch: 1 });
    match system.borrow_substate_mut(&SubstateOffset::System(SystemOffset::System)) {
        Ok(RawSubstateRefMut::System(s)) => s.epoch = 2,
        _ => panic!("expected system"),
    }
    match system.borrow_substate(&SubstateOffset::System(SystemOffset::System)) {
        Ok(SubstateRef::System(s)) => assert_eq!(s.epoch, 2),
        _ => panic!("expected system"),
    }
    let mut bucket = RENode::Bucket(BucketSubstate { resource: fungible(3) });
    assert!(matches!(bucket.borrow_substate(&SubstateOffset::Bucket(BucketOffset::Bucket)), Ok(SubstateRef::Bucket(_))));
    let mut proof = RENode::Proof(ProofSubstate { resource_address: resource_address(), restricted: false, total_locked: fungible(1) });
    assert!(matches!(proof.borrow_substate_mut(&SubstateOffset::Proof(ProofOffset::Proof)), Ok(RawSubstateRefMut::Proof(_))));
    let mut wt = worktop(vec![0]);
    assert!(matches!(wt.borrow_substate(&SubstateOffset::Worktop(WorktopOffset::Worktop)), Ok(SubstateRef::Worktop(_))));
}

#[test]
fn try_drop_of_each_kind() {
    assert_eq!(RENode::AuthZone(AuthZoneStackSubstate { auth_zones: vec![AuthZone { proofs: vec![] }] }).try_drop(), Ok(()));
    assert_eq!(
        RENode::Proof(ProofSubstate { resource_address: resource_address(), restricted: true, total_locked: fungible(1) }).try_drop(),
        Ok(())
    );
    assert_eq!(RENode::Package(PackageSubstate { code: vec![] }).try_drop(), Err(DropFailure::Package));
    assert_eq!(RENode::Vault(VaultRuntimeSubstate { resource: fungible(0) }).try_drop(), Err(DropFailure::Vault));
    assert_eq!(kv_store(vec![]).try_drop(), Err(DropFailure::KeyValueStore));
    assert_eq!(nf_store(vec![]).try_drop(), Err(DropFailure::NonFungibleStore));
    assert_eq!(component().try_drop(), Err(DropFailure::Component));
    assert_eq!(RENode::Bucket(BucketSubstate { resource: fungible(0) }).try_drop(), Err(DropFailure::Bucket));
    assert_eq!(
        RENode::ResourceManager(ResourceManagerSubstate { resource_address: resource_address(), divisibility: 0, total_supply: Decimal(0) }).try_drop(),
        Err(DropFailure::Resource)
    );
    assert_eq!(RENode::System(SystemSubstate { epoch: 0 }).try_drop(), Err(DropFailure::System));
    assert_eq!(worktop(vec![0, 0]).try_drop(), Ok(()));
    assert_eq!(worktop(vec![0, 5]).try_drop(), Err(DropFailure::Worktop));
    let non_fungible_worktop = RENode::Worktop(WorktopSubstate {
        resources: vec![Resource::NonFungible { resource_address: resource_address(), ids: vec![NonFungibleId(vec![1])] }],
    });
    assert_eq!(non_fungible_worktop.try_drop(), Err(DropFailure::Worktop));
}

#[test]
fn auth_zone_clear_all_empties_every_zone() {
    let proof = ProofSubstate { resource_address: resource_address(), restricted: false, total_locked: fungible(1) };
    let mut stack = AuthZoneStackSubstate { auth_zones: vec![AuthZone { proofs: vec![proof] }, AuthZone { proofs: vec![] }] };
    stack.clear_all();
    assert_eq!(stack.auth_zones.len(), 2);
    assert!(stack.auth_zones.iter().all(|z| z.proofs.is_empty()));
}

#[test]
fn drop_nodes_of_nothing_succeeds() {
    assert_eq!(RENode::drop_nodes(vec![]), Ok(()));
}

#[test]
fn drop_nodes_refuses_a_node_with_children() {
    let mut with_children = heap(RENode::Proof(ProofSubstate { resource_address: resource_address(), restricted: false, total_locked: fungible(1) }));
    with_children.child_nodes.insert(RENodeId::Bucket(1));
    let nodes = vec![heap(worktop(vec![0])), with_children, heap(RENode::Package(PackageSubstate { code: vec![] }))];
    assert_eq!(RENode::drop_nodes(nodes), Err(DropFailure::DroppingNodeWithChildren));
}

#[test]
fn drop_nodes_reports_the_first_failure() {
    let nodes = vec![
        heap(RENode::AuthZone(AuthZoneStackSubstate { auth_zones: vec![] })),
        heap(RENode::Vault(VaultRuntimeSubstate { resource: fungible(1) })),
        heap(RENode::Package(PackageSubstate { code: vec![] })),
    ];
    assert_eq!(RENode::drop_nodes(nodes), Err(DropFailure::Vault));
}

#[test]
fn drop_nodes_drops_worktops_last() {
    let nodes = vec![heap(worktop(vec![3])), heap(RENode::Package(PackageSubstate { code: vec![] }))];
    assert_eq!(RENode::drop_nodes(nodes), Err(DropFailure::Package));
    let nodes = vec![heap(worktop(vec![3])), heap(RENode::Proof(ProofSubstate { resource_address: resource_address(), restricted: false, total_locked: fungible(1) }))];
    assert_eq!(RENode::drop_nodes(nodes), Err(DropFailure::Worktop));
    let nodes = vec![heap(worktop(vec![0])), heap(RENode::AuthZone(AuthZoneStackSubstate { auth_zones: vec![] })), heap(worktop(vec![]))];
    assert_eq!(RENode::drop_nodes(nodes), Ok(()));
}

#[test]
fn drop_single_node_is_its_try_drop() {
    assert_eq!(RENode::drop_nodes(vec![heap(component())]), component().try_drop());
    assert_eq!(RENode::drop_nodes(vec![heap(worktop(vec![1]))]), worktop(vec![1]).try_drop());
    assert_eq!(RENode::drop_nodes(vec![heap(worktop(vec![0]))]), Ok(()));
}

#[test]
fn heap_node_get_mut_and_try_drop() {
    let mut node = heap(RENode::System(SystemSubstate { epoch: 1 }));
    *node.get_mut() = RENode::AuthZone(AuthZoneStackSubstate { auth_zones: vec![] });
    assert!(matches!(node.root, RENode::AuthZone(_)));
    assert_eq!(node.try_drop(), Ok(()));
    assert_eq!(heap(component()).try_drop(), Err(DropFailure::Component));
}

#[test]
fn heap_node_into_bucket_and_proof() {
    let bucket = heap(RENode::Bucket(BucketSubstate { resource: fungible(8) })).into_bucket();
    assert!(matches!(bucket.resource, Resource::Fungible { amount: Decimal(8), .. }));
    let proof = heap(RENode::Proof(ProofSubstate { resource_address: resource_address(), restricted: true, total_locked: fungible(1) })).into_proof();
    assert!(proof.restricted);
}

#[test]
fn substate_map_get_after_insert() {
    let mut map = SubstateMap::new();
    map.insert(SubstateOffset::System(SystemOffset::System), RuntimeSubstate::System(SystemSubstate { epoch: 1 }));
    map.insert(kv_offset(&[1]), RuntimeSubstate::KeyValueStoreEntry(KeyValueStoreEntrySubstate(None)));
    map.insert(SubstateOffset::System(SystemOffset::System), RuntimeSubstate::System(SystemSubstate { epoch: 2 }));
    assert_eq!(map.entries.len(), 2);
    assert!(matches!(map.get(&SubstateOffset::System(SystemOffset::System)), Some(RuntimeSubstate::System(SystemSubstate { epoch: 2 }))));
    assert!(matches!(map.get(&kv_offset(&[1])), Some(RuntimeSubstate::KeyValueStoreEntry(_))));
    assert!(map.get(&kv_offset(&[2])).is_none());
}

#[test]
fn offsets_compare_by_value() {
    assert!(kv_offset(&[1, 2]).same_as(&kv_offset(&[1, 2])));
    assert!(!kv_offset(&[1, 2]).same_as(&kv_offset(&[1])));
    assert!(!SubstateOffset::Component(ComponentOffset::Info).same_as(&SubstateOffset::Component(ComponentOffset::State)));
    assert!(kv_offset(&[3]).clone().same_as(&kv_offset(&[3])));
}

#[test]
fn listed_offsets_can_be_borrowed() {
    let mut nodes = vec![
        component(),
        kv_store(vec![(vec![1], None), (vec![2], Some(vec![3]))]),
        RENode::Package(PackageSubstate { code: vec![] }),
        RENode::AuthZone(AuthZoneStackSubstate { auth_zones: vec![] }),
        worktop(vec![1]),
    ];
    for node in nodes.iter_mut() {
        let offsets = node.get_offsets();
        for o in offsets.iter() {
            assert!(node.borrow_substate(o).is_ok());
        }
    }
    let mut global = RENode::Global(GlobalAddressSubstate { node_id: RENodeId::Worktop });
    let offsets = global.get_offsets();
    assert!(global.borrow_substate(&offsets[0]).is_err());
}

#[test]
fn borrow_substate_mut_agrees_with_borrow_substate() {
    let entries = || vec![(vec![1u8], Some(vec![10u8])), (vec![2u8], None)];
    let mut a = kv_store(entries());
    let mut b = kv_store(entries());
    for key in [&[1u8][..], &[9u8][..]] {
        let written = match a.borrow_substate_mut(&kv_offset(key)) {
            Ok(RawSubstateRefMut::KeyValueStoreEntry(e)) => e.0.clone(),
            other => panic!("unexpected {:?}", other.is_ok()),
        };
        let read = match b.borrow_substate(&kv_offset(key)) {
            Ok(SubstateRef::KeyValueStoreEntry(e)) => e.0.clone(),
            other => panic!("unexpected {:?}", other.is_ok()),
        };
        assert_eq!(written, read);
    }
    match (&a, &b) {
        (RENode::KeyValueStore(x), RENode::KeyValueStore(y)) => {
            let xs: Vec<(Vec<u8>, Option<Vec<u8>>)> = x.loaded_entries.iter().map(|(k, v)| (k.clone(), v.0.clone())).collect();
            let ys: Vec<(Vec<u8>, Option<Vec<u8>>)> = y.loaded_entries.iter().map(|(k, v)| (k.clone(), v.0.clone())).collect();
            assert_eq!(xs, ys);
            assert_eq!(xs, vec![(vec![1u8], Some(vec![10u8])), (vec![2u8], None), (vec![9u8], None)]);
        }
        _ => panic!("not a key-value store"),
    }
    let offset = SubstateOffset::Vault(VaultOffset::Vault);
    match (a.borrow_substate_mut(&offset), b.borrow_substate(&offset)) {
        (Err(x), Err(y)) => {
            assert!(is_invalid_offset(&x, &offset));
            assert!(is_invalid_offset(&y, &offset));
        }
        _ => panic!("both borrows should fail"),
    }
}
