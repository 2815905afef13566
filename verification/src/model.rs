//! Substates: the pieces of state that the nodes of the engine hold.
use vstd::prelude::*;

use crate::engine::errors::DropFailure;
use crate::entries::{
    ByteKey, after_load, byte_keyed, has_key, keys_distinct, lemma_pairs_view_index, lemma_pairs_view_push,
    lemma_pairs_view_update, load_key, pairs_view, value_mut,
};
use crate::types::{
    Decimal, KeyValueStoreOffset, NonFungibleId, NonFungibleStoreOffset, OffsetView, PackageAddress, RENodeId,
    ResourceAddress, SubstateOffset,
};

verus! {

/// A quantity of a resource.
#[derive(Debug)]
pub enum Resource {
    Fungible { resource_address: ResourceAddress, divisibility: u8, amount: Decimal },
    NonFungible { resource_address: ResourceAddress, ids: Vec<NonFungibleId> },
}

impl Resource {
    /// Holds nothing: a zero amount, or no non-fungible unit.
    pub open spec fn is_empty_spec(&self) -> bool {
        match self {
            Resource::Fungible { amount, .. } => amount.0 == 0,
            Resource::NonFungible { ids, .. } => ids@.len() == 0,
        }
    }

    #[verifier::when_used_as_spec(is_empty_spec)]
    pub fn is_empty(&self) -> (r: bool)
        ensures
            r == self.is_empty_spec(),
    {
        match self {
            Resource::Fungible { amount, .. } => amount.0 == 0,
            Resource::NonFungible { ids, .. } => ids.len() == 0,
        }
    }
}

/// The substate behind a global address: the node it points at.
#[derive(Debug)]
pub struct GlobalAddressSubstate {
    pub node_id: RENodeId,
}

#[derive(Debug)]
pub struct BucketSubstate {
    pub resource: Resource,
}

#[derive(Debug)]
pub struct ProofSubstate {
    pub resource_address: ResourceAddress,
    pub restricted: bool,
    pub total_locked: Resource,
}

/// One auth zone: the proofs pushed onto it.
#[derive(Debug)]
pub struct AuthZone {
    pub proofs: Vec<ProofSubstate>,
}

/// The stack of auth zones of a call frame.
#[derive(Debug)]
pub struct AuthZoneStackSubstate {
    pub auth_zones: Vec<AuthZone>,
}

impl AuthZoneStackSubstate {
    /// Drops the proofs of every auth zone, keeping the zones.
    pub fn clear_all(&mut self)
        ensures
            final(self).auth_zones@.len() == old(self).auth_zones@.len(),
            forall|i: int|
                0 <= i < final(self).auth_zones@.len() ==> #[trigger] final(self).auth_zones@[i].proofs@.len()
                    == 0,
    {
        let n = self.auth_zones.len();
        let mut cleared: Vec<AuthZone> = Vec::new();
        let mut i: usize = 0;
        while i < n
            invariant
                i <= n,
                cleared@.len() == i,
                forall|j: int| 0 <= j < i ==> #[trigger] cleared@[j].proofs@.len() == 0,
            decreases n - i,
        {
            cleared.push(AuthZone { proofs: Vec::new() });
            i += 1;
        }
        self.auth_zones = cleared;
    }
}

#[derive(Debug)]
pub struct VaultRuntimeSubstate {
    pub resource: Resource,
}

/// Access rules of a component, in their encoded form.
#[derive(Debug)]
pub struct AccessRules(pub Vec<u8>);

#[derive(Debug)]
pub struct ComponentInfoSubstate {
    pub package_address: PackageAddress,
    pub blueprint_name: String,
    pub access_rules: Vec<AccessRules>,
}

impl ComponentInfoSubstate {
    pub fn new(
        package_address: PackageAddress,
        blueprint_name: String,
        access_rules: Vec<AccessRules>,
    ) -> (r: Self)
        ensures
            r == (ComponentInfoSubstate { package_address, blueprint_name, access_rules }),
    {
        ComponentInfoSubstate { package_address, blueprint_name, access_rules }
    }
}

/// The encoded state of a component.
#[derive(Debug)]
pub struct ComponentStateSubstate {
    pub raw: Vec<u8>,
}

impl ComponentStateSubstate {
    pub fn new(raw: Vec<u8>) -> (r: Self)
        ensures
            r == (ComponentStateSubstate { raw }),
    {
        ComponentStateSubstate { raw }
    }
}

#[derive(Debug)]
pub struct PackageSubstate {
    pub code: Vec<u8>,
}

#[derive(Debug)]
pub struct ResourceManagerSubstate {
    pub resource_address: ResourceAddress,
    pub divisibility: u8,
    pub total_supply: Decimal,
}

#[derive(Debug)]
pub struct SystemSubstate {
    pub epoch: u64,
}

/// The resources a transaction holds between instructions.
#[derive(Debug)]
pub struct WorktopSubstate {
    pub resources: Vec<Resource>,
}

impl WorktopSubstate {
    /// Every resource on the worktop is empty.
    pub open spec fn is_clear(&self) -> bool {
        forall|i: int| 0 <= i < self.resources@.len() ==> (#[trigger] self.resources@[i]).is_empty_spec()
    }

    /// Drops the worktop; refused while it still holds a non-empty resource.
    pub fn drop(self) -> (r: Result<(), DropFailure>)
        ensures
            r == (if self.is_clear() {
                Ok::<(), DropFailure>(())
            } else {
                Err(DropFailure::Worktop)
            }),
            r is Ok <==> forall|i: int|
                0 <= i < self.resources@.len() ==> match #[trigger] self.resources@[i] {
                    Resource::Fungible { amount, .. } => amount.0 == 0,
                    Resource::NonFungible { ids, .. } => ids@.len() == 0,
                },
            r is Err ==> r == Err::<(), DropFailure>(DropFailure::Worktop),
    {
        let n = self.resources.len();
        let mut i: usize = 0;
        while i < n
            invariant
                n == self.resources@.len(),
                i <= n,
                forall|j: int| 0 <= j < i ==> (#[trigger] self.resources@[j]).is_empty_spec(),
            decreases n - i,
        {
            if !self.resources[i].is_empty() {
                return Err(DropFailure::Worktop);
            }
            i += 1;
        }
        Ok(())
    }
}

/// The value stored under one key of a key-value store, if any.
#[derive(Debug)]
pub struct KeyValueStoreEntrySubstate(pub Option<Vec<u8>>);

#[derive(Debug)]
pub struct NonFungible {
    pub immutable_data: Vec<u8>,
    pub mutable_data: Vec<u8>,
}

/// The non-fungible stored under one id, if any.
#[derive(Debug)]
pub struct NonFungibleSubstate(pub Option<NonFungible>);

/// The entries of a key-value store that have been loaded, by key.
#[derive(Debug)]
pub struct KeyValueStore {
    pub loaded_entries: Vec<(Vec<u8>, KeyValueStoreEntrySubstate)>,
}

impl KeyValueStore {
    /// The loaded entries, keys taken as byte sequences.
    pub open spec fn entries_view(self) -> Seq<(Seq<u8>, KeyValueStoreEntrySubstate)> {
        byte_keyed(self.loaded_entries@)
    }

    /// No key is loaded twice.
    pub open spec fn wf(self) -> bool {
        keys_distinct(self.entries_view())
    }

    /// The loaded entries once the entry under `key` is loaded: an absent key
    /// gets an empty entry after the others.
    pub open spec fn entries_after_load(self, key: Seq<u8>) -> Seq<(Seq<u8>, KeyValueStoreEntrySubstate)> {
        after_load(self.entries_view(), key, KeyValueStoreEntrySubstate(None))
    }

    /// What the store holds after the entry under `key` is loaded: an absent
    /// key gets an empty entry.
    pub open spec fn loaded_with(self, key: Seq<u8>) -> Map<Seq<u8>, KeyValueStoreEntrySubstate> {
        if self@.contains_key(key) {
            self@
        } else {
            self@.insert(key, KeyValueStoreEntrySubstate(None))
        }
    }

    pub fn new() -> (r: Self)
        ensures
            r.wf(),
            r@ == Map::<Seq<u8>, KeyValueStoreEntrySubstate>::empty(),
            r.loaded_entries@.len() == 0,
    {
        let r = KeyValueStore { loaded_entries: Vec::new() };
        assert(r@ =~= Map::<Seq<u8>, KeyValueStoreEntrySubstate>::empty());
        r
    }

    /// Loads the entry under `key`, adding an empty one if absent; returns its position.
    pub fn load(&mut self, key: &Vec<u8>) -> (r: usize)
        requires
            old(self).wf(),
        ensures
            final(self).wf(),
            final(self)@ == old(self).loaded_with(key@),
            final(self).entries_view() == old(self).entries_after_load(key@),
            r < final(self).loaded_entries@.len(),
            final(self).entries_view()[r as int].0 == key@,
    {
        load_key(&mut self.loaded_entries, key, KeyValueStoreEntrySubstate(None))
    }

    /// The entry at position `i`, for writing.
    pub fn entry_mut(&mut self, i: usize) -> (r: &mut KeyValueStoreEntrySubstate)
        requires
            old(self).wf(),
            i < old(self).loaded_entries@.len(),
        ensures
            *r == old(self).entries_view()[i as int].1,
            final(self).wf(),
            final(self)@ == old(self)@.insert(old(self).entries_view()[i as int].0, *final(r)),
            final(self).entries_view() == old(self).entries_view().update(
                i as int,
                (old(self).entries_view()[i as int].0, *final(r)),
            ),
    {
        value_mut(&mut self.loaded_entries, i)
    }
}

impl View for KeyValueStore {
    type V = Map<Seq<u8>, KeyValueStoreEntrySubstate>;

    open spec fn view(&self) -> Map<Seq<u8>, KeyValueStoreEntrySubstate> {
        pairs_view(self.entries_view())
    }
}

/// The non-fungibles of a resource that have been loaded, by id.
#[derive(Debug)]
pub struct NonFungibleStore {
    pub loaded_non_fungibles: Vec<(NonFungibleId, NonFungibleSubstate)>,
}

impl NonFungibleStore {
    /// The loaded non-fungibles, ids taken as byte sequences.
    pub open spec fn entries_view(self) -> Seq<(Seq<u8>, NonFungibleSubstate)> {
        byte_keyed(self.loaded_non_fungibles@)
    }

    /// No id is loaded twice.
    pub open spec fn wf(self) -> bool {
        keys_distinct(self.entries_view())
    }

    /// The loaded non-fungibles once `id` is loaded: an absent id gets an
    /// empty substate after the others.
    pub open spec fn entries_after_load(self, id: Seq<u8>) -> Seq<(Seq<u8>, NonFungibleSubstate)> {
        after_load(self.entries_view(), id, NonFungibleSubstate(None))
    }

    /// What the store holds after the non-fungible `id` is loaded: an absent
    /// id gets an empty substate.
    pub open spec fn loaded_with(self, id: Seq<u8>) -> Map<Seq<u8>, NonFungibleSubstate> {
        if self@.contains_key(id) {
            self@
        } else {
            self@.insert(id, NonFungibleSubstate(None))
        }
    }

    pub fn new() -> (r: Self)
        ensures
            r.wf(),
            r@ == Map::<Seq<u8>, NonFungibleSubstate>::empty(),
            r.loaded_non_fungibles@.len() == 0,
    {
        let r = NonFungibleStore { loaded_non_fungibles: Vec::new() };
        assert(r@ =~= Map::<Seq<u8>, NonFungibleSubstate>::empty());
        r
    }

    /// Loads the non-fungible `id`, adding an empty substate if absent; returns its position.
    pub fn load(&mut self, id: &NonFungibleId) -> (r: usize)
        requires
            old(self).wf(),
        ensures
            final(self).wf(),
            final(self)@ == old(self).loaded_with(id@),
            final(self).entries_view() == old(self).entries_after_load(id@),
            r < final(self).loaded_non_fungibles@.len(),
            final(self).entries_view()[r as int].0 == id@,
    {
        load_key(&mut self.loaded_non_fungibles, id, NonFungibleSubstate(None))
    }

    /// The non-fungible substate at position `i`, for writing.
    pub fn entry_mut(&mut self, i: usize) -> (r: &mut NonFungibleSubstate)
        requires
            old(self).wf(),
            i < old(self).loaded_non_fungibles@.len(),
        ensures
            *r == old(self).entries_view()[i as int].1,
            final(self).wf(),
            final(self)@ == old(self)@.insert(old(self).entries_view()[i as int].0, *final(r)),
            final(self).entries_view() == old(self).entries_view().update(
                i as int,
                (old(self).entries_view()[i as int].0, *final(r)),
            ),
    {
        value_mut(&mut self.loaded_non_fungibles, i)
    }
}

impl View for NonFungibleStore {
    type V = Map<Seq<u8>, NonFungibleSubstate>;

    open spec fn view(&self) -> Map<Seq<u8>, NonFungibleSubstate> {
        pairs_view(self.entries_view())
    }
}

/// A substate taken out of its node, as the store keeps it.
#[derive(Debug)]
pub enum RuntimeSubstate {
    GlobalRENode(GlobalAddressSubstate),
    System(SystemSubstate),
    ResourceManager(ResourceManagerSubstate),
    ComponentInfo(ComponentInfoSubstate),
    ComponentState(ComponentStateSubstate),
    Package(PackageSubstate),
    Vault(VaultRuntimeSubstate),
    NonFungible(NonFungibleSubstate),
    KeyValueStoreEntry(KeyValueStoreEntrySubstate),
}

/// A shared reference to a substate inside a node.
pub enum SubstateRef<'a> {
    ComponentInfo(&'a ComponentInfoSubstate),
    ComponentState(&'a ComponentStateSubstate),
    NonFungible(&'a NonFungibleSubstate),
    KeyValueStoreEntry(&'a KeyValueStoreEntrySubstate),
    ResourceManager(&'a ResourceManagerSubstate),
    Bucket(&'a BucketSubstate),
    Proof(&'a ProofSubstate),
    Worktop(&'a WorktopSubstate),
    AuthZone(&'a AuthZoneStackSubstate),
    Vault(&'a VaultRuntimeSubstate),
    Package(&'a PackageSubstate),
    System(&'a SystemSubstate),
}

/// A mutable reference to a substate inside a node.
pub enum RawSubstateRefMut<'a> {
    ComponentInfo(&'a mut ComponentInfoSubstate),
    ComponentState(&'a mut ComponentStateSubstate),
    NonFungible(&'a mut NonFungibleSubstate),
    KeyValueStoreEntry(&'a mut KeyValueStoreEntrySubstate),
    ResourceManager(&'a mut ResourceManagerSubstate),
    Bucket(&'a mut BucketSubstate),
    Proof(&'a mut ProofSubstate),
    Worktop(&'a mut WorktopSubstate),
    AuthZone(&'a mut AuthZoneStackSubstate),
    Vault(&'a mut VaultRuntimeSubstate),
    Package(&'a mut PackageSubstate),
    System(&'a mut SystemSubstate),
}

/// Substates keyed by their offset; no offset occurs twice.
#[derive(Debug)]
pub struct SubstateMap {
    pub entries: Vec<(SubstateOffset, RuntimeSubstate)>,
}

impl SubstateMap {
    /// The entries, offsets taken by value.
    pub open spec fn entries_view(self) -> Seq<(OffsetView, RuntimeSubstate)> {
        self.entries@.map_values(|e: (SubstateOffset, RuntimeSubstate)| (e.0@, e.1))
    }

    /// No offset occurs twice.
    pub open spec fn wf(self) -> bool {
        keys_distinct(self.entries_view())
    }

    pub fn new() -> (r: Self)
        ensures
            r.wf(),
            r@ == Map::<OffsetView, RuntimeSubstate>::empty(),
    {
        let r = SubstateMap { entries: Vec::new() };
        assert(r@ =~= Map::<OffsetView, RuntimeSubstate>::empty());
        r
    }

    /// The position of `offset` among the entries.
    fn find(&self, offset: &SubstateOffset) -> (r: Option<usize>)
        ensures
            match r {
                Some(i) => i < self.entries@.len() && self.entries_view()[i as int].0 == offset@,
                None => !has_key(self.entries_view(), offset@),
            },
    {
        let n = self.entries.len();
        let mut i: usize = 0;
        while i < n
            invariant
                n == self.entries@.len(),
                i <= n,
                forall|j: int| 0 <= j < i ==> (#[trigger] self.entries_view()[j]).0 != offset@,
            decreases n - i,
        {
            if self.entries[i].0.same_as(offset) {
                return Some(i);
            }
            i += 1;
        }
        assert forall|j: int| 0 <= j < self.entries_view().len() implies #[trigger] self.entries_view()[j].0
            != offset@ by {}
        None
    }

    /// Puts `substate` under `offset`, replacing what was there.
    pub fn insert(&mut self, offset: SubstateOffset, substate: RuntimeSubstate)
        requires
            old(self).wf(),
        ensures
            final(self).wf(),
            final(self)@ == old(self)@.insert(offset@, substate),
    {
        let ghost before = self.entries_view();
        let ghost key = offset@;
        match self.find(&offset) {
            Some(i) => {
                self.entries.set(i, (offset, substate));
                proof {
                    assert(self.entries_view() =~= before.update(i as int, (before[i as int].0, substate)));
                    lemma_pairs_view_update(before, i as int, substate);
                }
            },
            None => {
                self.entries.push((offset, substate));
                proof {
                    assert(self.entries_view() =~= before.push((key, substate)));
                    lemma_pairs_view_push(before, key, substate);
                }
            },
        }
    }

    /// The substate under `offset`.
    pub fn get(&self, offset: &SubstateOffset) -> (r: Option<&RuntimeSubstate>)
        requires
            self.wf(),
        ensures
            match r {
                Some(v) => self@.contains_key(offset@) && *v == self@[offset@],
                None => !self@.contains_key(offset@),
            },
    {
        match self.find(offset) {
            Some(i) => {
                proof {
                    lemma_pairs_view_index(self.entries_view(), i as int);
                }
                Some(&self.entries[i].1)
            },
            None => None,
        }
    }
}

impl View for SubstateMap {
    type V = Map<OffsetView, RuntimeSubstate>;

    open spec fn view(&self) -> Map<OffsetView, RuntimeSubstate> {
        pairs_view(self.entries_view())
    }
}

/// A substate that a store keeps under a byte-string key, and the offset it
/// takes when the store is flattened.
pub trait StoreSubstate: Sized {
    type Key: ByteKey;

    /// The offset of the entry under `key`.
    spec fn entry_offset(key: Seq<u8>) -> OffsetView;

    /// `o` is the offset of an entry of such a store.
    spec fn is_entry_offset(o: OffsetView) -> bool;

    /// The key of the entry at offset `o`.
    spec fn entry_key(o: OffsetView) -> Seq<u8>;

    /// The substate, as a flattened node holds it.
    spec fn flattened(self) -> RuntimeSubstate;

    /// Entry offsets and keys correspond one to one.
    proof fn lemma_entry_offset(key: Seq<u8>)
        ensures
            Self::is_entry_offset(Self::entry_offset(key)),
            Self::entry_key(Self::entry_offset(key)) == key,
    ;

    /// Each entry offset is that of its key.
    proof fn lemma_entry_key(o: OffsetView)
        requires
            Self::is_entry_offset(o),
        ensures
            Self::entry_offset(Self::entry_key(o)) == o,
    ;

    /// The offset and the substate of the entry under `key`.
    fn into_entry(key: Self::Key, value: Self) -> (r: (SubstateOffset, RuntimeSubstate))
        ensures
            r.0@ == Self::entry_offset(key@),
            r.1 == value.flattened(),
    ;
}

impl StoreSubstate for KeyValueStoreEntrySubstate {
    type Key = Vec<u8>;

    open spec fn entry_offset(key: Seq<u8>) -> OffsetView {
        OffsetView::KeyValueStoreEntry(key)
    }

    open spec fn is_entry_offset(o: OffsetView) -> bool {
        o is KeyValueStoreEntry
    }

    open spec fn entry_key(o: OffsetView) -> Seq<u8> {
        o->KeyValueStoreEntry_0
    }

    open spec fn flattened(self) -> RuntimeSubstate {
        RuntimeSubstate::KeyValueStoreEntry(self)
    }

    proof fn lemma_entry_offset(key: Seq<u8>) {
    }

    proof fn lemma_entry_key(o: OffsetView) {
    }

    fn into_entry(key: Vec<u8>, value: Self) -> (r: (SubstateOffset, RuntimeSubstate)) {
        (SubstateOffset::KeyValueStore(KeyValueStoreOffset::Entry(key)), RuntimeSubstate::KeyValueStoreEntry(value))
    }
}

impl StoreSubstate for NonFungibleSubstate {
    type Key = NonFungibleId;

    open spec fn entry_offset(key: Seq<u8>) -> OffsetView {
        OffsetView::NonFungibleStoreEntry(key)
    }

    open spec fn is_entry_offset(o: OffsetView) -> bool {
        o is NonFungibleStoreEntry
    }

    open spec fn entry_key(o: OffsetView) -> Seq<u8> {
        o->NonFungibleStoreEntry_0
    }

    open spec fn flattened(self) -> RuntimeSubstate {
        RuntimeSubstate::NonFungible(self)
    }

    proof fn lemma_entry_offset(key: Seq<u8>) {
    }

    proof fn lemma_entry_key(o: OffsetView) {
    }

    fn into_entry(key: NonFungibleId, value: Self) -> (r: (SubstateOffset, RuntimeSubstate)) {
        (SubstateOffset::NonFungibleStore(NonFungibleStoreOffset::Entry(key)), RuntimeSubstate::NonFungible(value))
    }
}

/// The substates of a flattened store holding `store`: one for each key, at
/// the key's entry offset.
pub open spec fn flattened_store<V: StoreSubstate>(store: Map<Seq<u8>, V>) -> Map<OffsetView, RuntimeSubstate> {
    Map::new(
        |o: OffsetView| V::is_entry_offset(o) && store.contains_key(V::entry_key(o)),
        |o: OffsetView| store[V::entry_key(o)].flattened(),
    )
}

/// Flattens the loaded entries of a store into substates.
pub fn flatten_store<V: StoreSubstate>(entries: Vec<(V::Key, V)>) -> (r: SubstateMap)
    requires
        keys_distinct(byte_keyed(entries@)),
    ensures
        r.wf(),
        r@ == flattened_store(pairs_view(byte_keyed(entries@))),
{
    let ghost view = byte_keyed(entries@);
    let ghost orig = entries@;
    let mut substates = SubstateMap::new();
    let mut entries = entries;
    let n = entries.len();
    let mut i: usize = 0;
    while i < n
        invariant
            n == orig.len(),
            view == byte_keyed(orig),
            view.len() == n,
            keys_distinct(view),
            i <= n,
            entries@ == orig.subrange(i as int, n as int),
            substates.wf(),
            forall|o: OffsetView|
                #![trigger substates@.contains_key(o)]
                substates@.contains_key(o) <==> (V::is_entry_offset(o) && exists|j: int|
                    0 <= j < i && #[trigger] view[j].0 == V::entry_key(o)),
            forall|j: int|
                0 <= j < i ==> substates@[V::entry_offset(#[trigger] view[j].0)] == view[j].1.flattened(),
        decreases n - i,
    {
        let (k, v) = entries.remove(0);
        assert(orig[i as int] == (k, v));
        assert(view[i as int] == (k@, v));
        let (offset, substate) = V::into_entry(k, v);
        substates.insert(offset, substate);
        proof {
            V::lemma_entry_offset(view[i as int].0);
        }
        i += 1;
        assert(entries@ =~= orig.subrange(i as int, n as int));
        assert forall|o: OffsetView|
            #![trigger substates@.contains_key(o)]
            substates@.contains_key(o) <==> (V::is_entry_offset(o) && exists|j: int|
                0 <= j < i && #[trigger] view[j].0 == V::entry_key(o)) by {
            if o == V::entry_offset(view[i - 1].0) {
                assert(view[i - 1].0 == V::entry_key(o));
            }
            if V::is_entry_offset(o) && view[i - 1].0 == V::entry_key(o) {
                V::lemma_entry_key(o);
            }
        }
        assert forall|j: int| 0 <= j < i implies substates@[V::entry_offset(#[trigger] view[j].0)]
            == view[j].1.flattened() by {
            if j < i - 1 {
                V::lemma_entry_offset(view[j].0);
                if V::entry_offset(view[j].0) == V::entry_offset(view[i - 1].0) {
                    assert(view[j].0 == view[i - 1].0);
                }
            }
        }
    }
    let ghost target = flattened_store(pairs_view(view));
    assert forall|o: OffsetView| #[trigger] substates@.contains_key(o) implies substates@[o] == target[o] by {
        let j = choose|j: int| 0 <= j < n && #[trigger] view[j].0 == V::entry_key(o);
        lemma_pairs_view_index(view, j);
        V::lemma_entry_key(o);
    }
    assert forall|o: OffsetView| #[trigger] target.contains_key(o) implies substates@.contains_key(o) by {
        let j = choose|j: int| 0 <= j < view.len() && #[trigger] view[j].0 == V::entry_key(o);
    }
    assert(substates@ =~= target);
    substates
}

/// Reading an offset of a substate map right after putting a substate
/// there gives that substate; other offsets keep theirs.
pub proof fn law_substate_map_get_after_insert(
    before: SubstateMap,
    after: SubstateMap,
    offset: OffsetView,
    substate: RuntimeSubstate,
    other: OffsetView,
)
    requires
        before.wf(),
        after@ == before@.insert(offset, substate),
        other != offset,
    ensures
        after@.contains_key(offset),
        after@[offset] == substate,
        after@.contains_key(other) == before@.contains_key(other),
        before@.contains_key(other) ==> after@[other] == before@[other],
{
}

} // verus!
