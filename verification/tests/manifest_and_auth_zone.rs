use std::collections::BTreeSet;

use lib::data::manifest_blob::{ManifestBlobRef, ParseManifestBlobRefError};
use lib::resource::auth_zone::{
    AuthZoneClearInvocation, AuthZoneCreateProofByIdsInvocation, AuthZoneMethodInvocation,
    AuthZonePopInvocation, AuthZonePushInvocation, ComponentAuthZone, NativeFnInvocation,
    NativeMethodInvocation, Proof,
};
use lib::types::{Decimal, NonFungibleId, RENodeId, ResourceAddress};

#[test]
fn blob_ref_from_32_bytes_round_trips() {
    let bytes: Vec<u8> = (0u8..32).collect();
    let blob = ManifestBlobRef::try_from_slice(&bytes).unwrap();
    assert_eq!(blob.to_vec(), bytes);
    let again = ManifestBlobRef::try_from(blob.to_vec().as_slice()).unwrap();
    assert_eq!(again, blob);
}

#[test]
fn blob_ref_of_other_length_is_refused() {
    assert_eq!(ManifestBlobRef::try_from_slice(&[0u8; 31]), Err(ParseManifestBlobRefError::InvalidLength));
    assert_eq!(ManifestBlobRef::try_from(&[0u8; 33][..]), Err(ParseManifestBlobRefError::InvalidLength));
    assert_eq!(ManifestBlobRef::try_from(&[][..]), Err(ParseManifestBlobRefError::InvalidLength));
    assert_eq!(ParseManifestBlobRefError::InvalidLength.to_string(), "InvalidLength");
}

#[test]
fn auth_zone_is_the_first_auth_zone_stack() {
    let ids = vec![RENodeId::Bucket(1), RENodeId::AuthZoneStack(7), RENodeId::AuthZoneStack(2)];
    assert_eq!(ComponentAuthZone::find_auth_zone(ids), Some(7));
    assert_eq!(ComponentAuthZone::find_auth_zone(vec![RENodeId::Worktop, RENodeId::Proof(2)]), None);
    assert_eq!(ComponentAuthZone::find_auth_zone(vec![]), None);
}

#[test]
fn auth_zone_invocations_are_native_method_invocations() {
    let pop: NativeFnInvocation = AuthZonePopInvocation { receiver: 3 }.into();
    assert!(matches!(
        pop,
        NativeFnInvocation::Method(NativeMethodInvocation::AuthZone(AuthZoneMethodInvocation::Pop(AuthZonePopInvocation { receiver: 3 })))
    ));
    let push: NativeFnInvocation = AuthZonePushInvocation { receiver: 1, proof: Proof(9) }.into();
    assert!(matches!(
        push,
        NativeFnInvocation::Method(NativeMethodInvocation::AuthZone(AuthZoneMethodInvocation::Push(AuthZonePushInvocation { receiver: 1, proof: Proof(9) })))
    ));
    let clear: NativeFnInvocation = AuthZoneClearInvocation { receiver: 4 }.into();
    assert!(matches!(clear, NativeFnInvocation::Method(NativeMethodInvocation::AuthZone(AuthZoneMethodInvocation::Clear(_)))));
    let mut ids = BTreeSet::new();
    ids.insert(NonFungibleId(vec![1]));
    let by_ids: NativeFnInvocation = AuthZoneCreateProofByIdsInvocation { receiver: 2, ids, resource_address: ResourceAddress([0u8; 26]) }.into();
    match by_ids {
        NativeFnInvocation::Method(NativeMethodInvocation::AuthZone(AuthZoneMethodInvocation::CreateProofByIds(inv))) => {
            assert_eq!(inv.receiver, 2);
            assert_eq!(inv.ids.len(), 1);
        }
        other => panic!("unexpected {:?}", other),
    }
}

#[test]
fn auth_zone_invocations_go_to_the_first_auth_zone_stack() {
    let visible = || vec![RENodeId::Proof(5), RENodeId::AuthZoneStack(7), RENodeId::AuthZoneStack(2)];
    let resource = ResourceAddress([8u8; 26]);
    let pop = ComponentAuthZone::pop_invocation(visible()).unwrap();
    assert_eq!(pop.receiver, 7);
    let proof = ComponentAuthZone::create_proof_invocation(visible(), resource).unwrap();
    assert_eq!(proof.receiver, 7);
    assert_eq!(proof.resource_address, resource);
    let by_amount = ComponentAuthZone::create_proof_by_amount_invocation(visible(), Decimal(42), resource).unwrap();
    assert_eq!(by_amount.receiver, 7);
    assert_eq!(by_amount.amount, Decimal(42));
    assert_eq!(by_amount.resource_address, resource);
    let mut ids = BTreeSet::new();
    ids.insert(NonFungibleId(vec![1, 2]));
    let by_ids = ComponentAuthZone::create_proof_by_ids_invocation(visible(), ids, resource).unwrap();
    assert_eq!(by_ids.receiver, 7);
    assert!(by_ids.ids.contains(&NonFungibleId(vec![1, 2])));
    assert_eq!(by_ids.ids.len(), 1);
    let push = ComponentAuthZone::push_invocation(visible(), Proof(3)).unwrap();
    assert_eq!(push.receiver, 7);
    assert_eq!(push.proof, Proof(3));
}

#[test]
fn auth_zone_invocations_need_a_visible_auth_zone() {
    let visible = || vec![RENodeId::Worktop, RENodeId::Bucket(1)];
    let resource = ResourceAddress([8u8; 26]);
    assert!(ComponentAuthZone::pop_invocation(visible()).is_none());
    assert!(ComponentAuthZone::create_proof_invocation(visible(), resource).is_none());
    assert!(ComponentAuthZone::create_proof_by_amount_invocation(visible(), Decimal(1), resource).is_none());
    assert!(ComponentAuthZone::create_proof_by_ids_invocation(vec![], BTreeSet::new(), resource).is_none());
    assert!(ComponentAuthZone::push_invocation(visible(), Proof(3)).is_none());
}
