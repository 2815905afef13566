//! Identifiers, addresses and substate offsets shared by the engine.
use vstd::prelude::*;

use crate::entries::ByteKey;

verus! {

broadcast use vstd::array::group_array_axioms;

/// Compares two byte strings.
pub fn bytes_eq(a: &[u8], b: &[u8]) -> (r: bool)
    ensures
        r == (a@ == b@),
{
    if a.len() != b.len() {
        return false;
    }
    let n = a.len();
    let mut i: usize = 0;
    while i < n
        invariant
            n == a@.len(),
            n == b@.len(),
            i <= n,
            forall|j: int| 0 <= j < i ==> a@[j] == b@[j],
        decreases n - i,
    {
        if a[i] != b[i] {
            return false;
        }
        i += 1;
    }
    assert(a@ =~= b@);
    true
}

/// Copies a byte vector.
pub fn copy_bytes(v: &Vec<u8>) -> (r: Vec<u8>)
    ensures
        r@ == v@,
{
    let mut r: Vec<u8> = Vec::new();
    let n = v.len();
    let mut i: usize = 0;
    while i < n
        invariant
            n == v@.len(),
            i <= n,
            r@ == v@.subrange(0, i as int),
        decreases n - i,
    {
        r.push(v[i]);
        i += 1;
        assert(r@ =~= v@.subrange(0, i as int));
    }
    assert(r@ =~= v@);
    r
}

/// The address of a package.
#[derive(Clone, Copy, Debug, PartialEq, Eq, Hash)]
pub struct PackageAddress(pub [u8; 26]);

/// The address of a component.
#[derive(Clone, Copy, Debug, PartialEq, Eq, Hash)]
pub struct ComponentAddress(pub [u8; 26]);

/// The address of a resource.
#[derive(Clone, Copy, Debug, PartialEq, Eq, Hash)]
pub struct ResourceAddress(pub [u8; 26]);

/// The address of a system component.
#[derive(Clone, Copy, Debug, PartialEq, Eq, Hash)]
pub struct SystemAddress(pub [u8; 26]);

impl PackageAddress {
    /// Address equality.
    pub fn same_as(&self, other: &PackageAddress) -> (r: bool)
        ensures
            r == (*self == *other),
    {
        let r = bytes_eq(self.0.as_slice(), other.0.as_slice());
        proof {
            if self.0@ == other.0@ {
                assert(self.0 == other.0);
            }
        }
        r
    }
}

/// A globally addressable entity.
#[derive(Clone, Copy, Debug, PartialEq, Eq, Hash)]
pub enum GlobalAddress {
    Component(ComponentAddress),
    Package(PackageAddress),
    Resource(ResourceAddress),
    System(SystemAddress),
}

/// Identifies a node of the engine's node store.
#[derive(Clone, Copy, Debug, PartialEq, Eq, Hash)]
pub enum RENodeId {
    Global(GlobalAddress),
    Bucket(u32),
    Proof(u32),
    AuthZoneStack(u32),
    Worktop,
    Component(u32),
    KeyValueStore(u32),
    NonFungibleStore(u32),
    Vault(u32),
    ResourceManager(u32),
    Package(u32),
    System(u32),
}

/// The identifier of an auth zone stack.
pub type AuthZoneId = u32;

/// A fixed-point decimal amount, in units of 10^-18.
#[derive(Clone, Copy, Debug, PartialEq, Eq, Hash)]
pub struct Decimal(pub i128);

/// The identifier of a non-fungible unit, as bytes.
#[derive(Debug, PartialEq, Eq, PartialOrd, Ord, Hash)]
pub struct NonFungibleId(pub Vec<u8>);

impl View for NonFungibleId {
    type V = Seq<u8>;

    open spec fn view(&self) -> Seq<u8> {
        self.0@
    }
}

impl ByteKey for NonFungibleId {
    fn key_bytes(&self) -> (r: &[u8]) {
        self.0.as_slice()
    }

    fn copy_key(&self) -> (r: Self) {
        NonFungibleId(copy_bytes(&self.0))
    }
}

impl Clone for NonFungibleId {
    fn clone(&self) -> (r: Self)
        ensures
            r@ == self@,
    {
        NonFungibleId(copy_bytes(&self.0))
    }
}

#[derive(Clone, Copy, Debug)]
pub enum GlobalOffset {
    Global,
}

#[derive(Clone, Copy, Debug)]
pub enum ComponentOffset {
    Info,
    State,
}

#[derive(Debug)]
pub enum KeyValueStoreOffset {
    Entry(Vec<u8>),
}

#[derive(Debug)]
pub enum NonFungibleStoreOffset {
    Entry(NonFungibleId),
}

#[derive(Clone, Copy, Debug)]
pub enum ResourceManagerOffset {
    ResourceManager,
}

#[derive(Clone, Copy, Debug)]
pub enum PackageOffset {
    Package,
}

#[derive(Clone, Copy, Debug)]
pub enum BucketOffset {
    Bucket,
}

#[derive(Clone, Copy, Debug)]
pub enum ProofOffset {
    Proof,
}

#[derive(Clone, Copy, Debug)]
pub enum AuthZoneOffset {
    AuthZone,
}

#[derive(Clone, Copy, Debug)]
pub enum VaultOffset {
    Vault,
}

#[derive(Clone, Copy, Debug)]
pub enum WorktopOffset {
    Worktop,
}

#[derive(Clone, Copy, Debug)]
pub enum SystemOffset {
    System,
}

/// Where a substate lies within its node.
#[derive(Debug)]
pub enum SubstateOffset {
    Global(GlobalOffset),
    Component(ComponentOffset),
    KeyValueStore(KeyValueStoreOffset),
    NonFungibleStore(NonFungibleStoreOffset),
    ResourceManager(ResourceManagerOffset),
    Package(PackageOffset),
    Bucket(BucketOffset),
    Proof(ProofOffset),
    AuthZone(AuthZoneOffset),
    Vault(VaultOffset),
    Worktop(WorktopOffset),
    System(SystemOffset),
}

/// The mathematical value of a substate offset: entry keys are byte sequences.
pub enum OffsetView {
    Global,
    ComponentInfo,
    ComponentState,
    KeyValueStoreEntry(Seq<u8>),
    NonFungibleStoreEntry(Seq<u8>),
    ResourceManager,
    Package,
    Bucket,
    Proof,
    AuthZone,
    Vault,
    Worktop,
    System,
}

impl View for SubstateOffset {
    type V = OffsetView;

    open spec fn view(&self) -> OffsetView {
        match self {
            SubstateOffset::Global(_) => OffsetView::Global,
            SubstateOffset::Component(ComponentOffset::Info) => OffsetView::ComponentInfo,
            SubstateOffset::Component(ComponentOffset::State) => OffsetView::ComponentState,
            SubstateOffset::KeyValueStore(KeyValueStoreOffset::Entry(k)) => OffsetView::KeyValueStoreEntry(k@),
            SubstateOffset::NonFungibleStore(NonFungibleStoreOffset::Entry(id)) => OffsetView::NonFungibleStoreEntry(id@),
            SubstateOffset::ResourceManager(_) => OffsetView::ResourceManager,
            SubstateOffset::Package(_) => OffsetView::Package,
            SubstateOffset::Bucket(_) => OffsetView::Bucket,
            SubstateOffset::Proof(_) => OffsetView::Proof,
            SubstateOffset::AuthZone(_) => OffsetView::AuthZone,
            SubstateOffset::Vault(_) => OffsetView::Vault,
            SubstateOffset::Worktop(_) => OffsetView::Worktop,
            SubstateOffset::System(_) => OffsetView::System,
        }
    }
}

impl Clone for SubstateOffset {
    fn clone(&self) -> (r: Self)
        ensures
            r@ == self@,
    {
        match self {
            SubstateOffset::Global(o) => SubstateOffset::Global(*o),
            SubstateOffset::Component(o) => SubstateOffset::Component(*o),
            SubstateOffset::KeyValueStore(KeyValueStoreOffset::Entry(k)) => SubstateOffset::KeyValueStore(
                KeyValueStoreOffset::Entry(copy_bytes(k)),
            ),
            SubstateOffset::NonFungibleStore(NonFungibleStoreOffset::Entry(id)) => SubstateOffset::NonFungibleStore(
                NonFungibleStoreOffset::Entry(id.clone()),
            ),
            SubstateOffset::ResourceManager(o) => SubstateOffset::ResourceManager(*o),
            SubstateOffset::Package(o) => SubstateOffset::Package(*o),
            SubstateOffset::Bucket(o) => SubstateOffset::Bucket(*o),
            SubstateOffset::Proof(o) => SubstateOffset::Proof(*o),
            SubstateOffset::AuthZone(o) => SubstateOffset::AuthZone(*o),
            SubstateOffset::Vault(o) => SubstateOffset::Vault(*o),
            SubstateOffset::Worktop(o) => SubstateOffset::Worktop(*o),
            SubstateOffset::System(o) => SubstateOffset::System(*o),
        }
    }
}

impl SubstateOffset {
    /// Offset equality, by value.
    pub fn same_as(&self, other: &SubstateOffset) -> (r: bool)
        ensures
            r == (self@ == other@),
    {
        match (self, other) {
            (SubstateOffset::Global(_), SubstateOffset::Global(_)) => true,
            (SubstateOffset::Component(a), SubstateOffset::Component(b)) => match (a, b) {
                (ComponentOffset::Info, ComponentOffset::Info) => true,
                (ComponentOffset::State, ComponentOffset::State) => true,
                _ => false,
            },
            (
                SubstateOffset::KeyValueStore(KeyValueStoreOffset::Entry(a)),
                SubstateOffset::KeyValueStore(KeyValueStoreOffset::Entry(b)),
            ) => bytes_eq(a.as_slice(), b.as_slice()),
            (
                SubstateOffset::NonFungibleStore(NonFungibleStoreOffset::Entry(a)),
                SubstateOffset::NonFungibleStore(NonFungibleStoreOffset::Entry(b)),
            ) => bytes_eq(a.0.as_slice(), b.0.as_slice()),
            (SubstateOffset::ResourceManager(_), SubstateOffset::ResourceManager(_)) => true,
            (SubstateOffset::Package(_), SubstateOffset::Package(_)) => true,
            (SubstateOffset::Bucket(_), SubstateOffset::Bucket(_)) => true,
            (SubstateOffset::Proof(_), SubstateOffset::Proof(_)) => true,
            (SubstateOffset::AuthZone(_), SubstateOffset::AuthZone(_)) => true,
            (SubstateOffset::Vault(_), SubstateOffset::Vault(_)) => true,
            (SubstateOffset::Worktop(_), SubstateOffset::Worktop(_)) => true,
            (SubstateOffset::System(_), SubstateOffset::System(_)) => true,
            _ => false,
        }
    }
}

/// Who is running: a blueprint function or a component method.
#[derive(Debug)]
pub enum ScryptoActor {
    Blueprint(PackageAddress, String),
    Component(ComponentAddress, PackageAddress, String),
}

impl ScryptoActor {
    pub open spec fn blueprint_name_spec(&self) -> &String {
        match self {
            ScryptoActor::Blueprint(_, name) => name,
            ScryptoActor::Component(_, _, name) => name,
        }
    }

    pub open spec fn package_address_spec(&self) -> &PackageAddress {
        match self {
            ScryptoActor::Blueprint(package, _) => package,
            ScryptoActor::Component(_, package, _) => package,
        }
    }

    /// The blueprint of the running code.
    #[verifier::when_used_as_spec(blueprint_name_spec)]
    pub fn blueprint_name(&self) -> (r: &String)
        ensures
            *r == self.blueprint_name_spec(),
    {
        match self {
            ScryptoActor::Blueprint(_, name) => name,
            ScryptoActor::Component(_, _, name) => name,
        }
    }

    /// The package of the running code.
    #[verifier::when_used_as_spec(package_address_spec)]
    pub fn package_address(&self) -> (r: &PackageAddress)
        ensures
            *r == self.package_address_spec(),
    {
        match self {
            ScryptoActor::Blueprint(package, _) => package,
            ScryptoActor::Component(_, package, _) => package,
        }
    }
}

impl Clone for ScryptoActor {
    fn clone(&self) -> (r: Self)
        ensures
            r == *self,
    {
        match self {
            ScryptoActor::Blueprint(package, name) => ScryptoActor::Blueprint(*package, name.clone()),
            ScryptoActor::Component(component, package, name) => ScryptoActor::Component(
                *component,
                *package,
                name.clone(),
            ),
        }
    }
}

/// A node that Scrypto code asks the engine to create.
#[derive(Debug)]
pub enum ScryptoRENode {
    /// A component of a blueprint, with its encoded initial state.
    Component(PackageAddress, String, Vec<u8>),
    KeyValueStore,
}

/// A Scrypto function: package, blueprint and function name.
#[derive(Debug)]
pub struct FnIdentifier {
    pub package_address: PackageAddress,
    pub blueprint_name: String,
    pub ident: String,
}

/// The receiver of a method call, and whether the call consumes it.
#[derive(Debug)]
pub enum Receiver {
    Ref(RENodeId),
    Consumed(RENodeId),
}

/// A substate: its node and its offset within the node.
#[derive(Debug)]
pub struct SubstateId(pub RENodeId, pub SubstateOffset);

/// The severity of a log message.
#[derive(Clone, Copy, Debug)]
pub enum Level {
    Error,
    Warn,
    Info,
    Debug,
    Trace,
}

} // verus!
