//! The auth zone of a component: invocations on it, and where to send them.
use std::collections::BTreeSet;

use vstd::prelude::*;

use crate::types::{AuthZoneId, Decimal, NonFungibleId, RENodeId, ResourceAddress};

verus! {

/// A proof held by Scrypto code, by its id.
#[derive(Clone, Copy, Debug, PartialEq, Eq, Hash)]
pub struct Proof(pub u32);

#[derive(Debug)]
pub struct AuthZonePopInvocation {
    pub receiver: AuthZoneId,
}

#[derive(Debug)]
pub struct AuthZonePushInvocation {
    pub receiver: AuthZoneId,
    pub proof: Proof,
}

#[derive(Debug)]
pub struct AuthZoneCreateProofInvocation {
    pub receiver: AuthZoneId,
    pub resource_address: ResourceAddress,
}

#[derive(Debug)]
pub struct AuthZoneCreateProofByAmountInvocation {
    pub receiver: AuthZoneId,
    pub amount: Decimal,
    pub resource_address: ResourceAddress,
}

#[derive(Debug)]
pub struct AuthZoneCreateProofByIdsInvocation {
    pub receiver: AuthZoneId,
    pub ids: BTreeSet<NonFungibleId>,
    pub resource_address: ResourceAddress,
}

#[derive(Debug)]
pub struct AuthZoneClearInvocation {
    pub receiver: AuthZoneId,
}

#[derive(Debug)]
pub struct AuthZoneDrainInvocation {
    pub receiver: AuthZoneId,
}

/// A method invocation on an auth zone.
#[derive(Debug)]
pub enum AuthZoneMethodInvocation {
    Pop(AuthZonePopInvocation),
    Push(AuthZonePushInvocation),
    CreateProof(AuthZoneCreateProofInvocation),
    CreateProofByAmount(AuthZoneCreateProofByAmountInvocation),
    CreateProofByIds(AuthZoneCreateProofByIdsInvocation),
    Clear(AuthZoneClearInvocation),
    Drain(AuthZoneDrainInvocation),
}

/// A method invocation on a native object.
#[derive(Debug)]
pub enum NativeMethodInvocation {
    AuthZone(AuthZoneMethodInvocation),
}

/// An invocation of a native function or method.
#[derive(Debug)]
pub enum NativeFnInvocation {
    Method(NativeMethodInvocation),
}

impl From<AuthZonePopInvocation> for NativeFnInvocation {
    fn from(invocation: AuthZonePopInvocation) -> (r: NativeFnInvocation)
        ensures
            r == NativeFnInvocation::Method(
                NativeMethodInvocation::AuthZone(AuthZoneMethodInvocation::Pop(invocation)),
            ),
    {
        NativeFnInvocation::Method(NativeMethodInvocation::AuthZone(AuthZoneMethodInvocation::Pop(invocation)))
    }
}

impl vstd::std_specs::convert::FromSpecImpl<AuthZonePopInvocation> for NativeFnInvocation {
    open spec fn obeys_from_spec() -> bool {
        true
    }

    open spec fn from_spec(invocation: AuthZonePopInvocation) -> NativeFnInvocation {
        NativeFnInvocation::Method(NativeMethodInvocation::AuthZone(AuthZoneMethodInvocation::Pop(invocation)))
    }
}

impl From<AuthZonePushInvocation> for NativeFnInvocation {
    fn from(invocation: AuthZonePushInvocation) -> (r: NativeFnInvocation)
        ensures
            r == NativeFnInvocation::Method(
                NativeMethodInvocation::AuthZone(AuthZoneMethodInvocation::Push(invocation)),
            ),
    {
        NativeFnInvocation::Method(NativeMethodInvocation::AuthZone(AuthZoneMethodInvocation::Push(invocation)))
    }
}

impl vstd::std_specs::convert::FromSpecImpl<AuthZonePushInvocation> for NativeFnInvocation {
    open spec fn obeys_from_spec() -> bool {
        true
    }

    open spec fn from_spec(invocation: AuthZonePushInvocation) -> NativeFnInvocation {
        NativeFnInvocation::Method(NativeMethodInvocation::AuthZone(AuthZoneMethodInvocation::Push(invocation)))
    }
}

impl From<AuthZoneCreateProofInvocation> for NativeFnInvocation {
    fn from(invocation: AuthZoneCreateProofInvocation) -> (r: NativeFnInvocation)
        ensures
            r == NativeFnInvocation::Method(
                NativeMethodInvocation::AuthZone(AuthZoneMethodInvocation::CreateProof(invocation)),
            ),
    {
        NativeFnInvocation::Method(
            NativeMethodInvocation::AuthZone(AuthZoneMethodInvocation::CreateProof(invocation)),
        )
    }
}

impl vstd::std_specs::convert::FromSpecImpl<AuthZoneCreateProofInvocation> for NativeFnInvocation {
    open spec fn obeys_from_spec() -> bool {
        true
    }

    open spec fn from_spec(invocation: AuthZoneCreateProofInvocation) -> NativeFnInvocation {
        NativeFnInvocation::Method(
            NativeMethodInvocation::AuthZone(AuthZoneMethodInvocation::CreateProof(invocation)),
        )
    }
}

impl From<AuthZoneCreateProofByAmountInvocation> for NativeFnInvocation {
    fn from(invocation: AuthZoneCreateProofByAmountInvocation) -> (r: NativeFnInvocation)
        ensures
            r == NativeFnInvocation::Method(
                NativeMethodInvocation::AuthZone(AuthZoneMethodInvocation::CreateProofByAmount(invocation)),
            ),
    {
        NativeFnInvocation::Method(
            NativeMethodInvocation::AuthZone(AuthZoneMethodInvocation::CreateProofByAmount(invocation)),
        )
    }
}

impl vstd::std_specs::convert::FromSpecImpl<AuthZoneCreateProofByAmountInvocation> for NativeFnInvocation {
    open spec fn obeys_from_spec() -> bool {
        true
    }

    open spec fn from_spec(invocation: AuthZoneCreateProofByAmountInvocation) -> NativeFnInvocation {
        NativeFnInvocation::Method(
            NativeMethodInvocation::AuthZone(AuthZoneMethodInvocation::CreateProofByAmount(invocation)),
        )
    }
}

impl From<AuthZoneCreateProofByIdsInvocation> for NativeFnInvocation {
    fn from(invocation: AuthZoneCreateProofByIdsInvocation) -> (r: NativeFnInvocation)
        ensures
            r == NativeFnInvocation::Method(
                NativeMethodInvocation::AuthZone(AuthZoneMethodInvocation::CreateProofByIds(invocation)),
            ),
    {
        NativeFnInvocation::Method(
            NativeMethodInvocation::AuthZone(AuthZoneMethodInvocation::CreateProofByIds(invocation)),
        )
    }
}

impl vstd::std_specs::convert::FromSpecImpl<AuthZoneCreateProofByIdsInvocation> for NativeFnInvocation {
    open spec fn obeys_from_spec() -> bool {
        true
    }

    open spec fn from_spec(invocation: AuthZoneCreateProofByIdsInvocation) -> NativeFnInvocation {
        NativeFnInvocation::Method(
            NativeMethodInvocation::AuthZone(AuthZoneMethodInvocation::CreateProofByIds(invocation)),
        )
    }
}

impl From<AuthZoneClearInvocation> for NativeFnInvocation {
    fn from(invocation: AuthZoneClearInvocation) -> (r: NativeFnInvocation)
        ensures
            r == NativeFnInvocation::Method(
                NativeMethodInvocation::AuthZone(AuthZoneMethodInvocation::Clear(invocation)),
            ),
    {
        NativeFnInvocation::Method(NativeMethodInvocation::AuthZone(AuthZoneMethodInvocation::Clear(invocation)))
    }
}

impl vstd::std_specs::convert::FromSpecImpl<AuthZoneClearInvocation> for NativeFnInvocation {
    open spec fn obeys_from_spec() -> bool {
        true
    }

    open spec fn from_spec(invocation: AuthZoneClearInvocation) -> NativeFnInvocation {
        NativeFnInvocation::Method(NativeMethodInvocation::AuthZone(AuthZoneMethodInvocation::Clear(invocation)))
    }
}

impl From<AuthZoneDrainInvocation> for NativeFnInvocation {
    fn from(invocation: AuthZoneDrainInvocation) -> (r: NativeFnInvocation)
        ensures
            r == NativeFnInvocation::Method(
                NativeMethodInvocation::AuthZone(AuthZoneMethodInvocation::Drain(invocation)),
            ),
    {
        NativeFnInvocation::Method(NativeMethodInvocation::AuthZone(AuthZoneMethodInvocation::Drain(invocation)))
    }
}

impl vstd::std_specs::convert::FromSpecImpl<AuthZoneDrainInvocation> for NativeFnInvocation {
    open spec fn obeys_from_spec() -> bool {
        true
    }

    open spec fn from_spec(invocation: AuthZoneDrainInvocation) -> NativeFnInvocation {
        NativeFnInvocation::Method(NativeMethodInvocation::AuthZone(AuthZoneMethodInvocation::Drain(invocation)))
    }
}

/// Represents the auth zone, which is used by system for checking
/// if this component is allowed to
///
/// 1. Call methods on another component;
/// 2. Access resource system.
pub struct ComponentAuthZone {}

/// `r` is the auth zone that invocations go to, among the nodes
/// `owned_node_ids` visible to the caller: the first auth zone stack; `None`
/// when there is none.
pub open spec fn first_auth_zone(owned_node_ids: Seq<RENodeId>, r: Option<AuthZoneId>) -> bool {
    match r {
        Some(id) => exists|i: int|
            0 <= i < owned_node_ids.len() && owned_node_ids[i] == RENodeId::AuthZoneStack(id) && forall|j: int|
                0 <= j < i ==> !(#[trigger] owned_node_ids[j] is AuthZoneStack),
        None => forall|i: int| 0 <= i < owned_node_ids.len() ==> !(#[trigger] owned_node_ids[i] is AuthZoneStack),
    }
}

/// The auth zone that invocations go to is determined by the visible nodes:
/// when the first of them is an auth zone stack, it is that one; there is
/// one exactly when some visible node is an auth zone stack.
pub proof fn law_receiver_is_first_visible_auth_zone(
    owned_node_ids: Seq<RENodeId>,
    r: Option<AuthZoneId>,
    other: Option<AuthZoneId>,
)
    requires
        first_auth_zone(owned_node_ids, r),
        first_auth_zone(owned_node_ids, other),
    ensures
        r == other,
        r is Some <==> exists|i: int| 0 <= i < owned_node_ids.len() && #[trigger] owned_node_ids[i] is AuthZoneStack,
        owned_node_ids.len() > 0 && owned_node_ids[0] is AuthZoneStack ==> r == Some(
            owned_node_ids[0]->AuthZoneStack_0,
        ),
{
    if let Some(a) = r {
        let i = choose|i: int|
            0 <= i < owned_node_ids.len() && owned_node_ids[i] == RENodeId::AuthZoneStack(a) && forall|j: int|
                0 <= j < i ==> !(#[trigger] owned_node_ids[j] is AuthZoneStack);
        assert(owned_node_ids[i] is AuthZoneStack);
        if let Some(b) = other {
            let k = choose|k: int|
                0 <= k < owned_node_ids.len() && owned_node_ids[k] == RENodeId::AuthZoneStack(b) && forall|j: int|
                    0 <= j < k ==> !(#[trigger] owned_node_ids[j] is AuthZoneStack);
            if i < k {
                assert(!(owned_node_ids[i] is AuthZoneStack));
            } else if k < i {
                assert(!(owned_node_ids[k] is AuthZoneStack));
            }
        } else {
            assert(!(owned_node_ids[i] is AuthZoneStack));
        }
        if owned_node_ids.len() > 0 && owned_node_ids[0] is AuthZoneStack && i > 0 {
            assert(!(owned_node_ids[0] is AuthZoneStack));
        }
    } else {
        if let Some(b) = other {
            let k = choose|k: int|
                0 <= k < owned_node_ids.len() && owned_node_ids[k] == RENodeId::AuthZoneStack(b) && forall|j: int|
                    0 <= j < k ==> !(#[trigger] owned_node_ids[j] is AuthZoneStack);
            assert(!(owned_node_ids[k] is AuthZoneStack));
        }
        if owned_node_ids.len() > 0 && owned_node_ids[0] is AuthZoneStack {
            assert(!(owned_node_ids[0] is AuthZoneStack));
        }
    }
}

impl ComponentAuthZone {
    /// The auth zone that invocations go to: the first auth zone stack among
    /// the nodes visible to the caller; `None` when there is none.
    pub fn find_auth_zone(owned_node_ids: Vec<RENodeId>) -> (r: Option<AuthZoneId>)
        ensures
            first_auth_zone(owned_node_ids@, r),
    {
        let n = owned_node_ids.len();
        let mut i: usize = 0;
        while i < n
            invariant
                n == owned_node_ids@.len(),
                i <= n,
                forall|j: int| 0 <= j < i ==> !(#[trigger] owned_node_ids@[j] is AuthZoneStack),
            decreases n - i,
        {
            match owned_node_ids[i] {
                RENodeId::AuthZoneStack(id) => {
                    return Some(id);
                },
                _ => {},
            }
            i += 1;
        }
        None
    }

    /// The invocation that pops a proof off the auth zone; `None` when no
    /// auth zone is visible.
    pub fn pop_invocation(owned_node_ids: Vec<RENodeId>) -> (r: Option<AuthZonePopInvocation>)
        ensures
            match r {
                Some(inv) => first_auth_zone(owned_node_ids@, Some(inv.receiver)),
                None => first_auth_zone(owned_node_ids@, None),
            },
    {
        match Self::find_auth_zone(owned_node_ids) {
            Some(receiver) => Some(AuthZonePopInvocation { receiver }),
            None => None,
        }
    }

    /// The invocation that creates a proof of `resource_address` from the
    /// auth zone; `None` when no auth zone is visible.
    pub fn create_proof_invocation(owned_node_ids: Vec<RENodeId>, resource_address: ResourceAddress) -> (r:
        Option<AuthZoneCreateProofInvocation>)
        ensures
            match r {
                Some(inv) => {
                    &&& first_auth_zone(owned_node_ids@, Some(inv.receiver))
                    &&& inv.resource_address == resource_address
                },
                None => first_auth_zone(owned_node_ids@, None),
            },
    {
        match Self::find_auth_zone(owned_node_ids) {
            Some(receiver) => Some(AuthZoneCreateProofInvocation { receiver, resource_address }),
            None => None,
        }
    }

    /// The invocation that creates a proof of `amount` of `resource_address`
    /// from the auth zone; `None` when no auth zone is visible.
    pub fn create_proof_by_amount_invocation(
        owned_node_ids: Vec<RENodeId>,
        amount: Decimal,
        resource_address: ResourceAddress,
    ) -> (r: Option<AuthZoneCreateProofByAmountInvocation>)
        ensures
            match r {
                Some(inv) => {
                    &&& first_auth_zone(owned_node_ids@, Some(inv.receiver))
                    &&& inv.amount == amount
                    &&& inv.resource_address == resource_address
                },
                None => first_auth_zone(owned_node_ids@, None),
            },
    {
        match Self::find_auth_zone(owned_node_ids) {
            Some(receiver) => Some(AuthZoneCreateProofByAmountInvocation { receiver, amount, resource_address }),
            None => None,
        }
    }

    /// The invocation that creates a proof of the non-fungibles `ids` of
    /// `resource_address` from the auth zone; `None` when no auth zone is
    /// visible.
    pub fn create_proof_by_ids_invocation(
        owned_node_ids: Vec<RENodeId>,
        ids: BTreeSet<NonFungibleId>,
        resource_address: ResourceAddress,
    ) -> (r: Option<AuthZoneCreateProofByIdsInvocation>)
        ensures
            match r {
                Some(inv) => {
                    &&& first_auth_zone(owned_node_ids@, Some(inv.receiver))
                    &&& inv.ids == ids
                    &&& inv.resource_address == resource_address
                },
                None => first_auth_zone(owned_node_ids@, None),
            },
    {
        match Self::find_auth_zone(owned_node_ids) {
            Some(receiver) => Some(AuthZoneCreateProofByIdsInvocation { receiver, ids, resource_address }),
            None => None,
        }
    }

    /// The invocation that pushes `proof` onto the auth zone; `None` when no
    /// auth zone is visible.
    pub fn push_invocation(owned_node_ids: Vec<RENodeId>, proof: Proof) -> (r: Option<AuthZonePushInvocation>)
        ensures
            match r {
                Some(inv) => {
                    &&& first_auth_zone(owned_node_ids@, Some(inv.receiver))
                    &&& inv.proof == proof
                },
                None => first_auth_zone(owned_node_ids@, None),
            },
    {
        match Self::find_auth_zone(owned_node_ids) {
            Some(receiver) => Some(AuthZonePushInvocation { receiver, proof }),
            None => None,
        }
    }
}

} // verus!
