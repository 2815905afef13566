//! Nodes of the engine's heap and the substates they are made of.
use std::collections::HashSet;

use vstd::prelude::*;

use crate::engine::errors::{DropFailure, KernelError, RuntimeError};
use crate::entries::{has_key, keys_of, lemma_pairs_view_index, lemma_pairs_view_push, lemma_same_keys_same_map};
use crate::model::{
    flatten_store, AuthZoneStackSubstate, Resource, BucketSubstate, ComponentInfoSubstate, ComponentStateSubstate,
    GlobalAddressSubstate, KeyValueStore, KeyValueStoreEntrySubstate, NonFungibleStore,
    NonFungibleSubstate, PackageSubstate, ProofSubstate, RawSubstateRefMut, ResourceManagerSubstate,
    RuntimeSubstate, SubstateMap, SubstateRef, SystemSubstate, VaultRuntimeSubstate, WorktopSubstate,
};
use crate::types::{
    copy_bytes, AuthZoneOffset, BucketOffset, ComponentOffset, GlobalOffset, KeyValueStoreOffset,
    NonFungibleStoreOffset, OffsetView, PackageOffset, ProofOffset, RENodeId,
    ResourceManagerOffset, SubstateOffset, SystemOffset, VaultOffset, WorktopOffset,
};

verus! {

/// A node of the engine: one kind of object, with the substates it owns.
#[derive(Debug)]
pub enum RENode {
    Global(GlobalAddressSubstate),
    Bucket(BucketSubstate),
    Proof(ProofSubstate),
    AuthZone(AuthZoneStackSubstate),
    Vault(VaultRuntimeSubstate),
    Component(ComponentInfoSubstate, ComponentStateSubstate),
    Worktop(WorktopSubstate),
    Package(PackageSubstate),
    KeyValueStore(KeyValueStore),
    NonFungibleStore(NonFungibleStore),
    ResourceManager(ResourceManagerSubstate),
    System(SystemSubstate),
}

/// The key-value store's loaded entries, as offsets, in the order they are held.
pub open spec fn key_value_offsets(store: KeyValueStore) -> Seq<OffsetView> {
    store.entries_view().map_values(
        |e: (Seq<u8>, KeyValueStoreEntrySubstate)| OffsetView::KeyValueStoreEntry(e.0),
    )
}

impl RENode {
    /// The stores of the node hold each key at most once.
    pub open spec fn wf(self) -> bool {
        match self {
            RENode::KeyValueStore(store) => store.wf(),
            RENode::NonFungibleStore(store) => store.wf(),
            _ => true,
        }
    }

    /// The offsets of the substates the node holds.
    pub open spec fn offsets_spec(self) -> Seq<OffsetView> {
        match self {
            RENode::Global(..) => seq![OffsetView::Global],
            RENode::Component(..) => seq![OffsetView::ComponentState, OffsetView::ComponentInfo],
            RENode::KeyValueStore(store) => key_value_offsets(store),
            RENode::NonFungibleStore(..) => Seq::empty(),
            RENode::ResourceManager(..) => seq![OffsetView::ResourceManager],
            RENode::Package(..) => seq![OffsetView::Package],
            RENode::Bucket(..) => seq![OffsetView::Bucket],
            RENode::Proof(..) => seq![OffsetView::Proof],
            RENode::AuthZone(..) => seq![OffsetView::AuthZone],
            RENode::Vault(..) => seq![OffsetView::Vault],
            RENode::Worktop(..) => seq![OffsetView::Worktop],
            RENode::System(..) => seq![OffsetView::System],
        }
    }

    /// The offsets of the node's substates: for a key-value store, one for each
    /// loaded entry, in the order the store holds them; none for a
    /// non-fungible store.
    pub fn get_offsets(&self) -> (r: Vec<SubstateOffset>)
        ensures
            r@.map_values(|o: SubstateOffset| o@) == self.offsets_spec(),
    {
        let r = match self {
            RENode::Global(..) => vec![SubstateOffset::Global(GlobalOffset::Global)],
            RENode::Component(..) => vec![
                SubstateOffset::Component(ComponentOffset::State),
                SubstateOffset::Component(ComponentOffset::Info),
            ],
            RENode::KeyValueStore(store) => {
                let mut offsets: Vec<SubstateOffset> = Vec::new();
                let n = store.loaded_entries.len();
                let mut i: usize = 0;
                while i < n
                    invariant
                        n == store.loaded_entries@.len(),
                        i <= n,
                        offsets@.len() == i,
                        forall|j: int|
                            0 <= j < i ==> (#[trigger] offsets@[j])@ == OffsetView::KeyValueStoreEntry(
                                store.entries_view()[j].0,
                            ),
                    decreases n - i,
                {
                    let key = copy_bytes(&store.loaded_entries[i].0);
                    offsets.push(SubstateOffset::KeyValueStore(KeyValueStoreOffset::Entry(key)));
                    i += 1;
                }
                assert(offsets@.map_values(|o: SubstateOffset| o@) =~= key_value_offsets(*store));
                offsets
            },
            RENode::NonFungibleStore(..) => Vec::new(),
            RENode::ResourceManager(..) => vec![
                SubstateOffset::ResourceManager(ResourceManagerOffset::ResourceManager),
            ],
            RENode::Package(..) => vec![SubstateOffset::Package(PackageOffset::Package)],
            RENode::Bucket(..) => vec![SubstateOffset::Bucket(BucketOffset::Bucket)],
            RENode::Proof(..) => vec![SubstateOffset::Proof(ProofOffset::Proof)],
            RENode::AuthZone(..) => vec![SubstateOffset::AuthZone(AuthZoneOffset::AuthZone)],
            RENode::Vault(..) => vec![SubstateOffset::Vault(VaultOffset::Vault)],
            RENode::Worktop(..) => vec![SubstateOffset::Worktop(WorktopOffset::Worktop)],
            RENode::System(..) => vec![SubstateOffset::System(SystemOffset::System)],
        };
        assert(r@.map_values(|o: SubstateOffset| o@) =~= self.offsets_spec());
        r
    }
}


/// The error raised for an offset that names no substate of the node.
pub open spec fn is_invalid_offset_error(e: RuntimeError, offset: OffsetView) -> bool {
    e matches RuntimeError::KernelError(KernelError::InvalidOffset(o)) && o@ == offset
}

/// `r` refers to the substate at `offset` of `node`.
pub open spec fn refers_to(r: SubstateRef, node: RENode, offset: OffsetView) -> bool {
    match r {
        SubstateRef::ComponentInfo(s) => {
            &&& offset is ComponentInfo
            &&& node matches RENode::Component(info, _)
            &&& *s == info
        },
        SubstateRef::ComponentState(s) => {
            &&& offset is ComponentState
            &&& node matches RENode::Component(_, state)
            &&& *s == state
        },
        SubstateRef::NonFungible(s) => {
            &&& offset matches OffsetView::NonFungibleStoreEntry(id)
            &&& node matches RENode::NonFungibleStore(store)
            &&& store@.contains_key(id)
            &&& *s == store@[id]
        },
        SubstateRef::KeyValueStoreEntry(s) => {
            &&& offset matches OffsetView::KeyValueStoreEntry(k)
            &&& node matches RENode::KeyValueStore(store)
            &&& store@.contains_key(k)
            &&& *s == store@[k]
        },
        SubstateRef::ResourceManager(s) => {
            &&& offset is ResourceManager
            &&& node matches RENode::ResourceManager(m)
            &&& *s == m
        },
        SubstateRef::Bucket(s) => {
            &&& offset is Bucket
            &&& node matches RENode::Bucket(b)
            &&& *s == b
        },
        SubstateRef::Proof(s) => {
            &&& offset is Proof
            &&& node matches RENode::Proof(p)
            &&& *s == p
        },
        SubstateRef::Worktop(s) => {
            &&& offset is Worktop
            &&& node matches RENode::Worktop(w)
            &&& *s == w
        },
        SubstateRef::AuthZone(s) => {
            &&& offset is AuthZone
            &&& node matches RENode::AuthZone(a)
            &&& *s == a
        },
        SubstateRef::Vault(s) => {
            &&& offset is Vault
            &&& node matches RENode::Vault(v)
            &&& *s == v
        },
        SubstateRef::Package(s) => {
            &&& offset is Package
            &&& node matches RENode::Package(p)
            &&& *s == p
        },
        SubstateRef::System(s) => {
            &&& offset is System
            &&& node matches RENode::System(y)
            &&& *s == y
        },
    }
}

/// `w` gives write access to what the substate at `offset` of `node` holds
/// once loaded: a store entry that is not loaded yet holds nothing.
pub open spec fn writes_to(w: RawSubstateRefMut, node: RENode, offset: OffsetView) -> bool {
    match w {
        RawSubstateRefMut::ComponentInfo(s) => {
            &&& offset is ComponentInfo
            &&& node matches RENode::Component(info, _)
            &&& *s == info
        },
        RawSubstateRefMut::ComponentState(s) => {
            &&& offset is ComponentState
            &&& node matches RENode::Component(_, state)
            &&& *s == state
        },
        RawSubstateRefMut::NonFungible(s) => {
            &&& offset matches OffsetView::NonFungibleStoreEntry(id)
            &&& node matches RENode::NonFungibleStore(store)
            &&& *s == store.loaded_with(id)[id]
        },
        RawSubstateRefMut::KeyValueStoreEntry(s) => {
            &&& offset matches OffsetView::KeyValueStoreEntry(k)
            &&& node matches RENode::KeyValueStore(store)
            &&& *s == store.loaded_with(k)[k]
        },
        RawSubstateRefMut::ResourceManager(s) => offset is ResourceManager && node == RENode::ResourceManager(*s),
        RawSubstateRefMut::Bucket(s) => offset is Bucket && node == RENode::Bucket(*s),
        RawSubstateRefMut::Proof(s) => offset is Proof && node == RENode::Proof(*s),
        RawSubstateRefMut::Worktop(s) => offset is Worktop && node == RENode::Worktop(*s),
        RawSubstateRefMut::AuthZone(s) => offset is AuthZone && node == RENode::AuthZone(*s),
        RawSubstateRefMut::Vault(s) => offset is Vault && node == RENode::Vault(*s),
        RawSubstateRefMut::Package(s) => offset is Package && node == RENode::Package(*s),
        RawSubstateRefMut::System(s) => offset is System && node == RENode::System(*s),
    }
}

/// A reference for writing and one for reading are of the same kind and
/// hold the same substate.
pub open spec fn same_substate(w: RawSubstateRefMut, r: SubstateRef) -> bool {
    match (w, r) {
        (RawSubstateRefMut::ComponentInfo(a), SubstateRef::ComponentInfo(b)) => *a == *b,
        (RawSubstateRefMut::ComponentState(a), SubstateRef::ComponentState(b)) => *a == *b,
        (RawSubstateRefMut::NonFungible(a), SubstateRef::NonFungible(b)) => *a == *b,
        (RawSubstateRefMut::KeyValueStoreEntry(a), SubstateRef::KeyValueStoreEntry(b)) => *a == *b,
        (RawSubstateRefMut::ResourceManager(a), SubstateRef::ResourceManager(b)) => *a == *b,
        (RawSubstateRefMut::Bucket(a), SubstateRef::Bucket(b)) => *a == *b,
        (RawSubstateRefMut::Proof(a), SubstateRef::Proof(b)) => *a == *b,
        (RawSubstateRefMut::Worktop(a), SubstateRef::Worktop(b)) => *a == *b,
        (RawSubstateRefMut::AuthZone(a), SubstateRef::AuthZone(b)) => *a == *b,
        (RawSubstateRefMut::Vault(a), SubstateRef::Vault(b)) => *a == *b,
        (RawSubstateRefMut::Package(a), SubstateRef::Package(b)) => *a == *b,
        (RawSubstateRefMut::System(a), SubstateRef::System(b)) => *a == *b,
        _ => false,
    }
}

impl RENode {
    /// The offset names a substate of the node.
    pub open spec fn has_offset(self, offset: OffsetView) -> bool {
        match self {
            RENode::Component(..) => offset is ComponentState || offset is ComponentInfo,
            RENode::NonFungibleStore(..) => offset is NonFungibleStoreEntry,
            RENode::KeyValueStore(..) => offset is KeyValueStoreEntry,
            RENode::ResourceManager(..) => offset is ResourceManager,
            RENode::Bucket(..) => offset is Bucket,
            RENode::Proof(..) => offset is Proof,
            RENode::Worktop(..) => offset is Worktop,
            RENode::AuthZone(..) => offset is AuthZone,
            RENode::Vault(..) => offset is Vault,
            RENode::Package(..) => offset is Package,
            RENode::System(..) => offset is System,
            RENode::Global(..) => false,
        }
    }

    /// `after` is the node once the substate at `offset` is loaded: a store
    /// entry that was not loaded yet is added empty; nothing else changes.
    pub open spec fn loaded(self, after: RENode, offset: OffsetView) -> bool {
        match self {
            RENode::KeyValueStore(store) => match offset {
                OffsetView::KeyValueStoreEntry(k) => {
                    &&& after matches RENode::KeyValueStore(s)
                    &&& s.wf()
                    &&& s@ == store.loaded_with(k)
                    &&& s.entries_view() == store.entries_after_load(k)
                },
                _ => after == self,
            },
            RENode::NonFungibleStore(store) => match offset {
                OffsetView::NonFungibleStoreEntry(id) => {
                    &&& after matches RENode::NonFungibleStore(s)
                    &&& s.wf()
                    &&& s@ == store.loaded_with(id)
                    &&& s.entries_view() == store.entries_after_load(id)
                },
                _ => after == self,
            },
            _ => after == self,
        }
    }

    /// Loads the store entry that `offset` names, if the node is a store and
    /// the offset one of its entries; returns its position.
    fn load_entry(&mut self, offset: &SubstateOffset) -> (r: usize)
        requires
            old(self).wf(),
        ensures
            final(self).wf(),
            old(self).has_offset(offset@) ==> old(self).loaded(*final(self), offset@),
            !old(self).has_offset(offset@) ==> *final(self) == *old(self),
            *final(self) matches RENode::KeyValueStore(s) ==> (offset@ is KeyValueStoreEntry ==> r
                < s.loaded_entries@.len() && s.entries_view()[r as int].0
                == offset@->KeyValueStoreEntry_0),
            *final(self) matches RENode::NonFungibleStore(s) ==> (offset@ is NonFungibleStoreEntry ==> r
                < s.loaded_non_fungibles@.len() && s.entries_view()[r as int].0
                == offset@->NonFungibleStoreEntry_0),
            (*old(self) is KeyValueStore) == (*final(self) is KeyValueStore),
            (*old(self) is NonFungibleStore) == (*final(self) is NonFungibleStore),
    {
        match self {
            RENode::NonFungibleStore(store) => match offset {
                SubstateOffset::NonFungibleStore(NonFungibleStoreOffset::Entry(id)) => store.load(id),
                _ => 0,
            },
            RENode::KeyValueStore(store) => match offset {
                SubstateOffset::KeyValueStore(KeyValueStoreOffset::Entry(key)) => store.load(key),
                _ => 0,
            },
            _ => 0,
        }
    }

    /// Borrows the substate at `offset`, loading a store entry that is not
    /// loaded yet; an offset the node does not have is an error.
    pub fn borrow_substate(&mut self, offset: &SubstateOffset) -> (r: Result<SubstateRef<'_>, RuntimeError>)
        requires
            old(self).wf(),
        ensures
            final(self).wf(),
            r is Ok <==> old(self).has_offset(offset@),
            match r {
                Ok(sr) => old(self).loaded(*final(self), offset@) && refers_to(sr, *final(self), offset@),
                Err(e) => is_invalid_offset_error(e, offset@) && *final(self) == *old(self),
            },
    {
        let idx = self.load_entry(offset);
        let node: &RENode = self;
        let substate_ref = match node {
            RENode::Component(info, state) => match offset {
                SubstateOffset::Component(ComponentOffset::State) => SubstateRef::ComponentState(state),
                SubstateOffset::Component(ComponentOffset::Info) => SubstateRef::ComponentInfo(info),
                _ => {
                    return Err(RuntimeError::KernelError(KernelError::InvalidOffset(offset.clone())));
                },
            },
            RENode::NonFungibleStore(store) => match offset {
                SubstateOffset::NonFungibleStore(NonFungibleStoreOffset::Entry(_)) => {
                    proof {
                        lemma_pairs_view_index(store.entries_view(), idx as int);
                    }
                    SubstateRef::NonFungible(&store.loaded_non_fungibles[idx].1)
                },
                _ => {
                    return Err(RuntimeError::KernelError(KernelError::InvalidOffset(offset.clone())));
                },
            },
            RENode::KeyValueStore(store) => match offset {
                SubstateOffset::KeyValueStore(KeyValueStoreOffset::Entry(_)) => {
                    proof {
                        lemma_pairs_view_index(store.entries_view(), idx as int);
                    }
                    SubstateRef::KeyValueStoreEntry(&store.loaded_entries[idx].1)
                },
                _ => {
                    return Err(RuntimeError::KernelError(KernelError::InvalidOffset(offset.clone())));
                },
            },
            RENode::ResourceManager(resource_manager) => match offset {
                SubstateOffset::ResourceManager(ResourceManagerOffset::ResourceManager) => SubstateRef::ResourceManager(
                    resource_manager,
                ),
                _ => {
                    return Err(RuntimeError::KernelError(KernelError::InvalidOffset(offset.clone())));
                },
            },
            RENode::Bucket(bucket) => match offset {
                SubstateOffset::Bucket(BucketOffset::Bucket) => SubstateRef::Bucket(bucket),
                _ => {
                    return Err(RuntimeError::KernelError(KernelError::InvalidOffset(offset.clone())));
                },
            },
            RENode::Proof(proof) => match offset {
                SubstateOffset::Proof(ProofOffset::Proof) => SubstateRef::Proof(proof),
                _ => {
                    return Err(RuntimeError::KernelError(KernelError::InvalidOffset(offset.clone())));
                },
            },
            RENode::Worktop(worktop) => match offset {
                SubstateOffset::Worktop(WorktopOffset::Worktop) => SubstateRef::Worktop(worktop),
                _ => {
                    return Err(RuntimeError::KernelError(KernelError::InvalidOffset(offset.clone())));
                },
            },
            RENode::AuthZone(auth_zone) => match offset {
                SubstateOffset::AuthZone(AuthZoneOffset::AuthZone) => SubstateRef::AuthZone(auth_zone),
                _ => {
                    return Err(RuntimeError::KernelError(KernelError::InvalidOffset(offset.clone())));
                },
            },
            RENode::Vault(vault) => match offset {
                SubstateOffset::Vault(VaultOffset::Vault) => SubstateRef::Vault(vault),
                _ => {
                    return Err(RuntimeError::KernelError(KernelError::InvalidOffset(offset.clone())));
                },
            },
            RENode::Package(package) => match offset {
                SubstateOffset::Package(PackageOffset::Package) => SubstateRef::Package(package),
                _ => {
                    return Err(RuntimeError::KernelError(KernelError::InvalidOffset(offset.clone())));
                },
            },
            RENode::System(system) => match offset {
                SubstateOffset::System(SystemOffset::System) => SubstateRef::System(system),
                _ => {
                    return Err(RuntimeError::KernelError(KernelError::InvalidOffset(offset.clone())));
                },
            },
            RENode::Global(..) => {
                return Err(RuntimeError::KernelError(KernelError::InvalidOffset(offset.clone())));
            },
        };
        Ok(substate_ref)
    }
    /// Borrows the substate at `offset` for writing, loading a store entry
    /// that is not loaded yet; an offset the node does not have is an error.
    /// What is written through the reference is what the node holds afterwards.
    pub fn borrow_substate_mut(&mut self, offset: &SubstateOffset) -> (r: Result<RawSubstateRefMut<'_>, RuntimeError>)
        requires
            old(self).wf(),
        ensures
            final(self).wf(),
            r is Ok <==> old(self).has_offset(offset@),
            r matches Ok(w) ==> writes_to(w, *old(self), offset@),
            match r {
                Ok(RawSubstateRefMut::ComponentInfo(s)) => {
                    &&& offset@ is ComponentInfo
                    &&& *old(self) matches RENode::Component(info, state)
                    &&& *s == info
                    &&& *final(self) == RENode::Component(*final(s), state)
                },
                Ok(RawSubstateRefMut::ComponentState(s)) => {
                    &&& offset@ is ComponentState
                    &&& *old(self) matches RENode::Component(info, state)
                    &&& *s == state
                    &&& *final(self) == RENode::Component(info, *final(s))
                },
                Ok(RawSubstateRefMut::NonFungible(s)) => {
                    &&& offset@ matches OffsetView::NonFungibleStoreEntry(id)
                    &&& *old(self) matches RENode::NonFungibleStore(store)
                    &&& *s == (if store@.contains_key(id) {
                        store@[id]
                    } else {
                        NonFungibleSubstate(None)
                    })
                    &&& *final(self) matches RENode::NonFungibleStore(after)
                    &&& after@ == store@.insert(id, *final(s))
                    &&& keys_of(after.entries_view()) == keys_of(store.entries_after_load(id))
                },
                Ok(RawSubstateRefMut::KeyValueStoreEntry(s)) => {
                    &&& offset@ matches OffsetView::KeyValueStoreEntry(k)
                    &&& *old(self) matches RENode::KeyValueStore(store)
                    &&& *s == (if store@.contains_key(k) {
                        store@[k]
                    } else {
                        KeyValueStoreEntrySubstate(None)
                    })
                    &&& *final(self) matches RENode::KeyValueStore(after)
                    &&& after@ == store@.insert(k, *final(s))
                    &&& keys_of(after.entries_view()) == keys_of(store.entries_after_load(k))
                },
                Ok(RawSubstateRefMut::ResourceManager(s)) => {
                    &&& offset@ is ResourceManager
                    &&& *old(self) == RENode::ResourceManager(*s)
                    &&& *final(self) == RENode::ResourceManager(*final(s))
                },
                Ok(RawSubstateRefMut::Bucket(s)) => {
                    &&& offset@ is Bucket
                    &&& *old(self) == RENode::Bucket(*s)
                    &&& *final(self) == RENode::Bucket(*final(s))
                },
                Ok(RawSubstateRefMut::Proof(s)) => {
                    &&& offset@ is Proof
                    &&& *old(self) == RENode::Proof(*s)
                    &&& *final(self) == RENode::Proof(*final(s))
                },
                Ok(RawSubstateRefMut::Worktop(s)) => {
                    &&& offset@ is Worktop
                    &&& *old(self) == RENode::Worktop(*s)
                    &&& *final(self) == RENode::Worktop(*final(s))
                },
                Ok(RawSubstateRefMut::AuthZone(s)) => {
                    &&& offset@ is AuthZone
                    &&& *old(self) == RENode::AuthZone(*s)
                    &&& *final(self) == RENode::AuthZone(*final(s))
                },
                Ok(RawSubstateRefMut::Vault(s)) => {
                    &&& offset@ is Vault
                    &&& *old(self) == RENode::Vault(*s)
                    &&& *final(self) == RENode::Vault(*final(s))
                },
                Ok(RawSubstateRefMut::Package(s)) => {
                    &&& offset@ is Package
                    &&& *old(self) == RENode::Package(*s)
                    &&& *final(self) == RENode::Package(*final(s))
                },
                Ok(RawSubstateRefMut::System(s)) => {
                    &&& offset@ is System
                    &&& *old(self) == RENode::System(*s)
                    &&& *final(self) == RENode::System(*final(s))
                },
                Err(e) => is_invalid_offset_error(e, offset@) && *final(self) == *old(self),
            },
    {
        let substate_ref = match self {
            RENode::Component(info, state) => match offset {
                SubstateOffset::Component(ComponentOffset::State) => RawSubstateRefMut::ComponentState(state),
                SubstateOffset::Component(ComponentOffset::Info) => RawSubstateRefMut::ComponentInfo(info),
                _ => {
                    return Err(RuntimeError::KernelError(KernelError::InvalidOffset(offset.clone())));
                },
            },
            RENode::NonFungibleStore(non_fungible_store) => match offset {
                SubstateOffset::NonFungibleStore(NonFungibleStoreOffset::Entry(id)) => {
                    let i = non_fungible_store.load(id);
                    proof {
                        lemma_pairs_view_index(non_fungible_store.entries_view(), i as int);
                        let loaded = non_fungible_store.entries_view();
                        assert forall|v: NonFungibleSubstate|
                            #![trigger loaded.update(i as int, (loaded[i as int].0, v))]
                            keys_of(loaded.update(i as int, (loaded[i as int].0, v))) == keys_of(loaded) by {
                            assert(keys_of(loaded.update(i as int, (loaded[i as int].0, v))) =~= keys_of(loaded));
                        }
                    }
                    RawSubstateRefMut::NonFungible(non_fungible_store.entry_mut(i))
                },
                _ => {
                    return Err(RuntimeError::KernelError(KernelError::InvalidOffset(offset.clone())));
                },
            },
            RENode::KeyValueStore(kv_store) => match offset {
                SubstateOffset::KeyValueStore(KeyValueStoreOffset::Entry(key)) => {
                    let i = kv_store.load(key);
                    proof {
                        lemma_pairs_view_index(kv_store.entries_view(), i as int);
                        let loaded = kv_store.entries_view();
                        assert forall|v: KeyValueStoreEntrySubstate|
                            #![trigger loaded.update(i as int, (loaded[i as int].0, v))]
                            keys_of(loaded.update(i as int, (loaded[i as int].0, v))) == keys_of(loaded) by {
                            assert(keys_of(loaded.update(i as int, (loaded[i as int].0, v))) =~= keys_of(loaded));
                        }
                    }
                    RawSubstateRefMut::KeyValueStoreEntry(kv_store.entry_mut(i))
                },
                _ => {
                    return Err(RuntimeError::KernelError(KernelError::InvalidOffset(offset.clone())));
                },
            },
            RENode::ResourceManager(resource_manager) => match offset {
                SubstateOffset::ResourceManager(ResourceManagerOffset::ResourceManager) => RawSubstateRefMut::ResourceManager(
                    resource_manager,
                ),
                _ => {
                    return Err(RuntimeError::KernelError(KernelError::InvalidOffset(offset.clone())));
                },
            },
            RENode::Bucket(bucket) => match offset {
                SubstateOffset::Bucket(BucketOffset::Bucket) => RawSubstateRefMut::Bucket(bucket),
                _ => {
                    return Err(RuntimeError::KernelError(KernelError::InvalidOffset(offset.clone())));
                },
            },
            RENode::Proof(proof) => match offset {
                SubstateOffset::Proof(ProofOffset::Proof) => RawSubstateRefMut::Proof(proof),
                _ => {
                    return Err(RuntimeError::KernelError(KernelError::InvalidOffset(offset.clone())));
                },
            },
            RENode::Worktop(worktop) => match offset {
                SubstateOffset::Worktop(WorktopOffset::Worktop) => RawSubstateRefMut::Worktop(worktop),
                _ => {
                    return Err(RuntimeError::KernelError(KernelError::InvalidOffset(offset.clone())));
                },
            },
            RENode::AuthZone(auth_zone) => match offset {
                SubstateOffset::AuthZone(AuthZoneOffset::AuthZone) => RawSubstateRefMut::AuthZone(auth_zone),
                _ => {
                    return Err(RuntimeError::KernelError(KernelError::InvalidOffset(offset.clone())));
                },
            },
            RENode::Vault(vault) => match offset {
                SubstateOffset::Vault(VaultOffset::Vault) => RawSubstateRefMut::Vault(vault),
                _ => {
                    return Err(RuntimeError::KernelError(KernelError::InvalidOffset(offset.clone())));
                },
            },
            RENode::Package(package) => match offset {
                SubstateOffset::Package(PackageOffset::Package) => RawSubstateRefMut::Package(package),
                _ => {
                    return Err(RuntimeError::KernelError(KernelError::InvalidOffset(offset.clone())));
                },
            },
            RENode::System(system) => match offset {
                SubstateOffset::System(SystemOffset::System) => RawSubstateRefMut::System(system),
                _ => {
                    return Err(RuntimeError::KernelError(KernelError::InvalidOffset(offset.clone())));
                },
            },
            RENode::Global(..) => {
                return Err(RuntimeError::KernelError(KernelError::InvalidOffset(offset.clone())));
            },
        };
        Ok(substate_ref)
    }
    /// The substates of the node, by offset.
    pub open spec fn substates_spec(self) -> Map<OffsetView, RuntimeSubstate> {
        match self {
            RENode::Global(global_node) => map![OffsetView::Global => RuntimeSubstate::GlobalRENode(global_node)],
            RENode::Vault(vault) => map![OffsetView::Vault => RuntimeSubstate::Vault(vault)],
            RENode::KeyValueStore(store) => Map::new(
                |o: OffsetView| o is KeyValueStoreEntry && store@.contains_key(o->KeyValueStoreEntry_0),
                |o: OffsetView| RuntimeSubstate::KeyValueStoreEntry(store@[o->KeyValueStoreEntry_0]),
            ),
            RENode::Component(info, state) => map![
                OffsetView::ComponentInfo => RuntimeSubstate::ComponentInfo(info),
                OffsetView::ComponentState => RuntimeSubstate::ComponentState(state),
            ],
            RENode::Package(package) => map![OffsetView::Package => RuntimeSubstate::Package(package)],
            RENode::ResourceManager(resource_manager) => map![
                OffsetView::ResourceManager => RuntimeSubstate::ResourceManager(resource_manager),
            ],
            RENode::NonFungibleStore(store) => Map::new(
                |o: OffsetView| o is NonFungibleStoreEntry && store@.contains_key(o->NonFungibleStoreEntry_0),
                |o: OffsetView| RuntimeSubstate::NonFungible(store@[o->NonFungibleStoreEntry_0]),
            ),
            RENode::System(system) => map![OffsetView::System => RuntimeSubstate::System(system)],
            _ => Map::empty(),
        }
    }

    /// Buckets, proofs, auth zones and worktops are never flattened into substates.
    pub open spec fn is_transient(self) -> bool {
        self is Bucket || self is Proof || self is AuthZone || self is Worktop
    }

    /// Flattens the node into its substates, keyed by offset: one for each
    /// loaded entry of a store, the info and the state of a component, the
    /// single substate of any other kind of node.
    pub fn to_substates(self) -> (r: SubstateMap)
        requires
            self.wf(),
            !self.is_transient(),
        ensures
            r.wf(),
            r@ == self.substates_spec(),
            self matches RENode::Global(g) ==> r@ == map![OffsetView::Global => RuntimeSubstate::GlobalRENode(g)],
            self matches RENode::Vault(v) ==> r@ == map![OffsetView::Vault => RuntimeSubstate::Vault(v)],
            self matches RENode::Package(p) ==> r@ == map![OffsetView::Package => RuntimeSubstate::Package(p)],
            self matches RENode::ResourceManager(m) ==> r@ == map![
                OffsetView::ResourceManager => RuntimeSubstate::ResourceManager(m),
            ],
            self matches RENode::System(y) ==> r@ == map![OffsetView::System => RuntimeSubstate::System(y)],
            self matches RENode::Component(info, state) ==> r@ == map![
                OffsetView::ComponentInfo => RuntimeSubstate::ComponentInfo(info),
                OffsetView::ComponentState => RuntimeSubstate::ComponentState(state),
            ],
    {
        let mut substates = SubstateMap::new();
        let ghost node = self;
        match self {
            RENode::Bucket(_) => {
                assert(false);
            },
            RENode::Proof(_) => {
                assert(false);
            },
            RENode::AuthZone(_) => {
                assert(false);
            },
            RENode::Worktop(_) => {
                assert(false);
            },
            RENode::Global(global_node) => {
                substates.insert(
                    SubstateOffset::Global(GlobalOffset::Global),
                    RuntimeSubstate::GlobalRENode(global_node),
                );
            },
            RENode::Vault(vault) => {
                substates.insert(SubstateOffset::Vault(VaultOffset::Vault), RuntimeSubstate::Vault(vault));
            },
            RENode::KeyValueStore(store) => {
                substates = flatten_store(store.loaded_entries);
                assert(substates@ =~= node.substates_spec());
            },
            RENode::Component(info, state) => {
                substates.insert(
                    SubstateOffset::Component(ComponentOffset::Info),
                    RuntimeSubstate::ComponentInfo(info),
                );
                substates.insert(
                    SubstateOffset::Component(ComponentOffset::State),
                    RuntimeSubstate::ComponentState(state),
                );
            },
            RENode::Package(package) => {
                substates.insert(SubstateOffset::Package(PackageOffset::Package), RuntimeSubstate::Package(package));
            },
            RENode::ResourceManager(resource_manager) => {
                substates.insert(
                    SubstateOffset::ResourceManager(ResourceManagerOffset::ResourceManager),
                    RuntimeSubstate::ResourceManager(resource_manager),
                );
            },
            RENode::NonFungibleStore(non_fungible_store) => {
                substates = flatten_store(non_fungible_store.loaded_non_fungibles);
                assert(substates@ =~= node.substates_spec());
            },
            RENode::System(system) => {
                substates.insert(SubstateOffset::System(SystemOffset::System), RuntimeSubstate::System(system));
            },
        }
        proof {
            if !(node is KeyValueStore || node is NonFungibleStore) {
                assert(substates@ =~= node.substates_spec());
            }
        }
        substates
    }
    /// What dropping the node gives. Auth zones and proofs can always be
    /// dropped, a worktop only when empty; the other kinds refuse. A global
    /// node is never dropped (`try_drop` does not take one), so no result is
    /// fixed for it.
    pub open spec fn drop_spec(self) -> Result<(), DropFailure>
        recommends
            !(self is Global),
    {
        match self {
            RENode::Global(..) => vstd::pervasive::arbitrary(),
            RENode::AuthZone(..) => Ok(()),
            RENode::Package(..) => Err(DropFailure::Package),
            RENode::Vault(..) => Err(DropFailure::Vault),
            RENode::KeyValueStore(..) => Err(DropFailure::KeyValueStore),
            RENode::NonFungibleStore(..) => Err(DropFailure::NonFungibleStore),
            RENode::Component(..) => Err(DropFailure::Component),
            RENode::Bucket(..) => Err(DropFailure::Bucket),
            RENode::ResourceManager(..) => Err(DropFailure::Resource),
            RENode::System(..) => Err(DropFailure::System),
            RENode::Proof(..) => Ok(()),
            RENode::Worktop(worktop) => if worktop.is_clear() {
                Ok(())
            } else {
                Err(DropFailure::Worktop)
            },
        }
    }

    /// Drops the node. A global node is never dropped.
    pub fn try_drop(self) -> (r: Result<(), DropFailure>)
        requires
            !(self is Global),
        ensures
            r == self.drop_spec(),
    {
        match self {
            RENode::Global(..) => {
                assert(false);
                Ok(())
            },
            RENode::AuthZone(mut auth_zone) => {
                auth_zone.clear_all();
                Ok(())
            },
            RENode::Package(..) => Err(DropFailure::Package),
            RENode::Vault(..) => Err(DropFailure::Vault),
            RENode::KeyValueStore(..) => Err(DropFailure::KeyValueStore),
            RENode::NonFungibleStore(..) => Err(DropFailure::NonFungibleStore),
            RENode::Component(..) => Err(DropFailure::Component),
            RENode::Bucket(..) => Err(DropFailure::Bucket),
            RENode::ResourceManager(..) => Err(DropFailure::Resource),
            RENode::System(..) => Err(DropFailure::System),
            RENode::Proof(_proof) => Ok(()),
            RENode::Worktop(worktop) => worktop.drop(),
        }
    }

    /// Drops heap nodes, in order. The first node that has children, or that
    /// is not a worktop and cannot be dropped, stops the scan with its
    /// failure; worktops are dropped after all the other nodes. `None` when
    /// the scan reaches a global node, which is never dropped.
    pub open spec fn drop_nodes_spec(nodes: Seq<HeapRENode>) -> Option<Result<(), DropFailure>> {
        match drop_scan(nodes, 0) {
            None => None,
            Some(Err(e)) => Some(Err(e)),
            Some(Ok(())) => Some(
                if exists|i: int| 0 <= i < nodes.len() && #[trigger] worktop_refuses(nodes[i].root) {
                    Err(DropFailure::Worktop)
                } else {
                    Ok(())
                },
            ),
        }
    }

    /// Drops the nodes as `drop_nodes_spec` says.
    pub fn drop_nodes(nodes: Vec<HeapRENode>) -> (r: Result<(), DropFailure>)
        requires
            RENode::drop_nodes_spec(nodes@) is Some,
        ensures
            r == RENode::drop_nodes_spec(nodes@)->0,
    {
        let ghost orig = nodes@;
        let n = nodes.len();
        let mut remaining = nodes;
        let mut worktops: Vec<WorktopSubstate> = Vec::new();
        let mut i: usize = 0;
        while i < n
            invariant
                orig == nodes@,
                n == orig.len(),
                i <= n,
                remaining@ == orig.subrange(i as int, n as int),
                drop_scan(orig, 0) == drop_scan(orig, i as int),
                RENode::drop_nodes_spec(orig) is Some,
                forall|j: int|
                    0 <= j < worktops@.len() ==> exists|k: int|
                        0 <= k < i && #[trigger] orig[k].root == RENode::Worktop(#[trigger] worktops@[j]),
                forall|k: int|
                    0 <= k < i && #[trigger] worktop_refuses(orig[k].root) ==> exists|j: int|
                        0 <= j < worktops@.len() && !(#[trigger] worktops@[j]).is_clear(),
            decreases n - i,
        {
            let node = remaining.remove(0);
            assert(orig[i as int] == node);
            assert(remaining@ =~= orig.subrange(i as int + 1, n as int));
            if !node.child_nodes.is_empty() {
                assert(drop_scan(orig, i as int) == Some(Err::<(), DropFailure>(DropFailure::DroppingNodeWithChildren)));
                return Err(DropFailure::DroppingNodeWithChildren);
            }
            match node.root {
                RENode::Worktop(worktop) => {
                    let ghost before = worktops@;
                    worktops.push(worktop);
                    assert(worktops@[before.len() as int] == worktop);
                    assert forall|j: int|
                        0 <= j < worktops@.len() implies exists|k: int|
                            0 <= k < i + 1 && #[trigger] orig[k].root == RENode::Worktop(
                                #[trigger] worktops@[j],
                            ) by {
                        if j < before.len() {
                            assert(worktops@[j] == before[j]);
                        } else {
                            assert(orig[i as int].root == RENode::Worktop(worktops@[j]));
                        }
                    }
                    assert forall|k: int|
                        0 <= k < i + 1 && #[trigger] worktop_refuses(orig[k].root) implies exists|j: int|
                            0 <= j < worktops@.len() && !(#[trigger] worktops@[j]).is_clear() by {
                        if k < i {
                            let j = choose|j: int| 0 <= j < before.len() && !(#[trigger] before[j]).is_clear();
                            assert(worktops@[j] == before[j]);
                        } else {
                            assert(!worktops@[before.len() as int].is_clear());
                        }
                    }
                },
                root => {
                    let result = root.try_drop();
                    match result {
                        Err(e) => {
                            assert(drop_scan(orig, i as int) == Some(Err::<(), DropFailure>(e)));
                            return Err(e);
                        },
                        Ok(()) => {},
                    }
                },
            }
            assert(drop_scan(orig, i as int) == drop_scan(orig, i + 1));
            i += 1;
        }
        assert(drop_scan(orig, n as int) == Some(Ok::<(), DropFailure>(())));
        let m = worktops.len();
        let ghost all = worktops@;
        let mut j: usize = 0;
        while j < m
            invariant
                m == all.len(),
                j <= m,
                worktops@ == all.subrange(j as int, m as int),
                forall|l: int| 0 <= l < j ==> (#[trigger] all[l]).is_clear(),
                orig == nodes@,
                n == orig.len(),
                drop_scan(orig, 0) == Some(Ok::<(), DropFailure>(())),
                forall|l: int|
                    0 <= l < all.len() ==> exists|k: int|
                        0 <= k < n && #[trigger] orig[k].root == RENode::Worktop(#[trigger] all[l]),
                forall|k: int|
                    0 <= k < n && #[trigger] worktop_refuses(orig[k].root) ==> exists|l: int|
                        0 <= l < all.len() && !(#[trigger] all[l]).is_clear(),
            decreases m - j,
        {
            let worktop = worktops.remove(0);
            assert(all[j as int] == worktop);
            assert(worktops@ =~= all.subrange(j as int + 1, m as int));
            let result = worktop.drop();
            match result {
                Err(e) => {
                    proof {
                        let k = choose|k: int|
                            0 <= k < n && #[trigger] orig[k].root == RENode::Worktop(#[trigger] all[j as int]);
                        assert(worktop_refuses(orig[k].root));
                    }
                    return Err(e);
                },
                Ok(()) => {},
            }
            j += 1;
        }
        proof {
            if exists|k: int| 0 <= k < orig.len() && #[trigger] worktop_refuses(orig[k].root) {
                let k = choose|k: int| 0 <= k < orig.len() && #[trigger] worktop_refuses(orig[k].root);
                let l = choose|l: int| 0 <= l < all.len() && !(#[trigger] all[l]).is_clear();
                assert(all[l].is_clear());
            }
        }
        Ok(())
    }
}

/// The node is a worktop that still holds something.
pub open spec fn worktop_refuses(node: RENode) -> bool {
    node matches RENode::Worktop(w) && !w.is_clear()
}

/// The first pass of `drop_nodes` from position `i`: `None` when it reaches a
/// global node, the first failure otherwise, `Ok` when every node passes.
pub open spec fn drop_scan(nodes: Seq<HeapRENode>, i: int) -> Option<Result<(), DropFailure>>
    decreases nodes.len() - i,
{
    if i < 0 || i >= nodes.len() {
        Some(Ok(()))
    } else if !nodes[i].child_nodes@.is_empty() {
        Some(Err(DropFailure::DroppingNodeWithChildren))
    } else if nodes[i].root is Worktop {
        drop_scan(nodes, i + 1)
    } else if nodes[i].root is Global {
        None
    } else {
        match nodes[i].root.drop_spec() {
            Err(e) => Some(Err(e)),
            Ok(()) => drop_scan(nodes, i + 1),
        }
    }
}

/// A node on the heap, with the nodes it owns.
#[derive(Debug)]
pub struct HeapRENode {
    pub root: RENode,
    pub child_nodes: HashSet<RENodeId>,
}

impl HeapRENode {
    /// The root node, for writing.
    pub fn get_mut(&mut self) -> (r: &mut RENode)
        ensures
            *r == old(self).root,
            final(self).root == *final(r),
            final(self).child_nodes == old(self).child_nodes,
    {
        &mut self.root
    }

    /// Drops the root node.
    pub fn try_drop(self) -> (r: Result<(), DropFailure>)
        requires
            !(self.root is Global),
        ensures
            r == self.root.drop_spec(),
    {
        self.root.try_drop()
    }

    /// The bucket this node holds.
    pub fn into_bucket(self) -> (r: BucketSubstate)
        requires
            self.root is Bucket,
        ensures
            self.root == RENode::Bucket(r),
    {
        match self.root {
            RENode::Bucket(bucket) => bucket,
            _ => vstd::pervasive::unreached(),
        }
    }

    /// The proof this node holds.
    pub fn into_proof(self) -> (r: ProofSubstate)
        requires
            self.root is Proof,
        ensures
            self.root == RENode::Proof(r),
    {
        match self.root {
            RENode::Proof(proof) => proof,
            _ => vstd::pervasive::unreached(),
        }
    }
}

/// Borrowing a substate a second time, right after a first borrow of the
/// same offset, refers to the same substate: loading is done once.
pub proof fn law_borrow_twice_same_substate(
    node: RENode,
    after_first: RENode,
    after_second: RENode,
    offset: OffsetView,
    first: SubstateRef,
    second: SubstateRef,
)
    requires
        node.wf(),
        node.has_offset(offset),
        node.loaded(after_first, offset),
        refers_to(first, after_first, offset),
        after_first.loaded(after_second, offset),
        refers_to(second, after_second, offset),
    ensures
        first == second,
{
}

/// Borrowing an offset of a node for writing and borrowing the same offset
/// of an equal node for reading agree: both succeed, with references of the
/// same kind to the same substate, or both fail with the invalid-offset
/// error.
pub proof fn law_borrow_mut_agrees_with_borrow(
    node: RENode,
    offset: OffsetView,
    write: Result<RawSubstateRefMut, RuntimeError>,
    after_read: RENode,
    read: Result<SubstateRef, RuntimeError>,
)
    requires
        node.wf(),
        write is Ok <==> node.has_offset(offset),
        write matches Ok(w) ==> writes_to(w, node, offset),
        write matches Err(e) ==> is_invalid_offset_error(e, offset),
        read is Ok <==> node.has_offset(offset),
        read matches Ok(r) ==> node.loaded(after_read, offset) && refers_to(r, after_read, offset),
        read matches Err(e) ==> is_invalid_offset_error(e, offset),
    ensures
        match (write, read) {
            (Ok(w), Ok(r)) => same_substate(w, r),
            (Err(a), Err(b)) => is_invalid_offset_error(a, offset) && is_invalid_offset_error(b, offset),
            _ => false,
        },
{
}

/// Borrowing a key-value store entry for writing and leaving it as it was
/// leaves the store as borrowing it for reading does: the entry loaded, the
/// others unchanged, in the same order.
pub proof fn law_unwritten_key_value_entry_is_loaded(store: KeyValueStore, after: KeyValueStore, key: Seq<u8>)
    requires
        store.wf(),
        after.wf(),
        after@ == store@.insert(key, store.loaded_with(key)[key]),
        keys_of(after.entries_view()) == keys_of(store.entries_after_load(key)),
    ensures
        RENode::KeyValueStore(store).loaded(RENode::KeyValueStore(after), OffsetView::KeyValueStoreEntry(key)),
{
    let fresh = KeyValueStoreEntrySubstate(None);
    if !has_key(store.entries_view(), key) {
        lemma_pairs_view_push(store.entries_view(), key, fresh);
    }
    assert(after@ =~= store.loaded_with(key));
    lemma_same_keys_same_map(after.entries_view(), store.entries_after_load(key));
}

/// Borrowing a non-fungible for writing and leaving it as it was leaves the
/// store as borrowing it for reading does: the non-fungible loaded, the
/// others unchanged, in the same order.
pub proof fn law_unwritten_non_fungible_is_loaded(store: NonFungibleStore, after: NonFungibleStore, id: Seq<u8>)
    requires
        store.wf(),
        after.wf(),
        after@ == store@.insert(id, store.loaded_with(id)[id]),
        keys_of(after.entries_view()) == keys_of(store.entries_after_load(id)),
    ensures
        RENode::NonFungibleStore(store).loaded(RENode::NonFungibleStore(after), OffsetView::NonFungibleStoreEntry(id)),
{
    let fresh = NonFungibleSubstate(None);
    if !has_key(store.entries_view(), id) {
        lemma_pairs_view_push(store.entries_view(), id, fresh);
    }
    assert(after@ =~= store.loaded_with(id));
    lemma_same_keys_same_map(after.entries_view(), store.entries_after_load(id));
}

/// What is written through the reference that `borrow_substate_mut` gives to
/// a key-value store entry is what a later `borrow_substate` of that entry
/// refers to.
pub proof fn law_key_value_entry_read_after_write(
    store: KeyValueStore,
    written: KeyValueStore,
    key: Seq<u8>,
    value: KeyValueStoreEntrySubstate,
    after_read: RENode,
    read: SubstateRef,
)
    requires
        store.wf(),
        written.wf(),
        written@ == store@.insert(key, value),
        RENode::KeyValueStore(written).loaded(after_read, OffsetView::KeyValueStoreEntry(key)),
        refers_to(read, after_read, OffsetView::KeyValueStoreEntry(key)),
    ensures
        read == SubstateRef::KeyValueStoreEntry(&value),
{
}

/// What is written through the reference that `borrow_substate_mut` gives to
/// a non-fungible is what a later `borrow_substate` of that non-fungible
/// refers to.
pub proof fn law_non_fungible_read_after_write(
    store: NonFungibleStore,
    written: NonFungibleStore,
    id: Seq<u8>,
    value: NonFungibleSubstate,
    after_read: RENode,
    read: SubstateRef,
)
    requires
        store.wf(),
        written.wf(),
        written@ == store@.insert(id, value),
        RENode::NonFungibleStore(written).loaded(after_read, OffsetView::NonFungibleStoreEntry(id)),
        refers_to(read, after_read, OffsetView::NonFungibleStoreEntry(id)),
    ensures
        read == SubstateRef::NonFungible(&value),
{
}

/// The offsets that `get_offsets` lists are the keys of the map that
/// `to_substates` gives, for every node that can be flattened except a
/// non-fungible store, whose loaded non-fungibles `get_offsets` leaves out.
pub proof fn law_offsets_are_substate_keys(node: RENode)
    requires
        node.wf(),
        !node.is_transient(),
        !(node is NonFungibleStore),
    ensures
        node.offsets_spec().to_set() == node.substates_spec().dom(),
{
    match node {
        RENode::KeyValueStore(store) => {
            let offsets = node.offsets_spec();
            assert forall|o: OffsetView| offsets.to_set().contains(o) implies node.substates_spec().dom().contains(
                o,
            ) by {
                let i = choose|i: int| 0 <= i < offsets.len() && offsets[i] == o;
                lemma_pairs_view_index(store.entries_view(), i);
            }
            assert forall|o: OffsetView| node.substates_spec().dom().contains(o) implies offsets.to_set().contains(
                o,
            ) by {
                let k = o->KeyValueStoreEntry_0;
                let i = choose|i: int|
                    0 <= i < store.entries_view().len() && #[trigger] store.entries_view()[i].0 == k;
                assert(offsets[i] == o);
            }
            assert(offsets.to_set() =~= node.substates_spec().dom());
        },
        RENode::Component(..) => {
            assert(node.offsets_spec().to_set() =~= node.substates_spec().dom()) by {
                assert(node.offsets_spec()[0] == OffsetView::ComponentState);
                assert(node.offsets_spec()[1] == OffsetView::ComponentInfo);
            }
        },
        _ => {
            assert(node.offsets_spec().to_set() =~= node.substates_spec().dom()) by {
                assert(node.offsets_spec().len() == 1);
                assert(node.offsets_spec()[0] == node.offsets_spec()[0]);
            }
        },
    }
}

/// Every offset that `get_offsets` lists can be borrowed, except the one of a
/// global node.
pub proof fn law_listed_offsets_can_be_borrowed(node: RENode, i: int)
    requires
        !(node is Global),
        0 <= i < node.offsets_spec().len(),
    ensures
        node.has_offset(node.offsets_spec()[i]),
{
}

/// A node other than a store lists, through `get_offsets`, exactly the
/// offsets at which it can be borrowed.
pub proof fn law_offsets_are_the_borrowable_ones(node: RENode, offset: OffsetView)
    requires
        !(node is KeyValueStore),
        !(node is NonFungibleStore),
        !(node is Global),
    ensures
        node.has_offset(offset) <==> node.offsets_spec().contains(offset),
{
    let offsets = node.offsets_spec();
    if node.has_offset(offset) {
        if offsets.len() == 2 && offset == offsets[1] {
            assert(offsets[1] == offset);
        } else {
            assert(offsets[0] == offset);
        }
    }
}

/// A key-value store lists, through `get_offsets`, the offsets of its loaded
/// entries and no other.
pub proof fn law_key_value_store_lists_loaded_entries(store: KeyValueStore, offset: OffsetView)
    requires
        store.wf(),
    ensures
        RENode::KeyValueStore(store).offsets_spec().contains(offset) <==> (offset is KeyValueStoreEntry
            && store@.contains_key(offset->KeyValueStoreEntry_0)),
{
    let offsets = RENode::KeyValueStore(store).offsets_spec();
    let view = store.entries_view();
    if offsets.contains(offset) {
        let i = choose|i: int| 0 <= i < offsets.len() && offsets[i] == offset;
        assert(offsets[i] == OffsetView::KeyValueStoreEntry(view[i].0));
        assert(has_key(view, view[i].0));
    }
    if offset is KeyValueStoreEntry && store@.contains_key(offset->KeyValueStoreEntry_0) {
        let k = offset->KeyValueStoreEntry_0;
        let i = choose|i: int| 0 <= i < view.len() && #[trigger] view[i].0 == k;
        assert(offsets[i] == offset);
    }
}

/// The substate behind a reference, as a flattened node holds it; `None`
/// for the kinds of node that are never flattened.
pub open spec fn flattened_form(r: SubstateRef) -> Option<RuntimeSubstate> {
    match r {
        SubstateRef::ComponentInfo(s) => Some(RuntimeSubstate::ComponentInfo(*s)),
        SubstateRef::ComponentState(s) => Some(RuntimeSubstate::ComponentState(*s)),
        SubstateRef::NonFungible(s) => Some(RuntimeSubstate::NonFungible(*s)),
        SubstateRef::KeyValueStoreEntry(s) => Some(RuntimeSubstate::KeyValueStoreEntry(*s)),
        SubstateRef::ResourceManager(s) => Some(RuntimeSubstate::ResourceManager(*s)),
        SubstateRef::Vault(s) => Some(RuntimeSubstate::Vault(*s)),
        SubstateRef::Package(s) => Some(RuntimeSubstate::Package(*s)),
        SubstateRef::System(s) => Some(RuntimeSubstate::System(*s)),
        SubstateRef::Bucket(_) => None,
        SubstateRef::Proof(_) => None,
        SubstateRef::Worktop(_) => None,
        SubstateRef::AuthZone(_) => None,
    }
}

/// Flattening keeps every substate as the node holds it: at each offset at
/// which `borrow_substate` reaches a substate, the map that `to_substates`
/// gives holds that same substate, unchanged.
pub proof fn law_flatten_keeps_borrowed_substates(node: RENode, offset: OffsetView, after: RENode, read: SubstateRef)
    requires
        node.wf(),
        !node.is_transient(),
        node.loaded(after, offset),
        refers_to(read, after, offset),
    ensures
        after.wf(),
        !after.is_transient(),
        after.substates_spec().contains_key(offset),
        flattened_form(read) == Some(after.substates_spec()[offset]),
{
}

/// Dropping a worktop succeeds exactly when every resource on it is empty (no
/// amount of a fungible resource, no unit of a non-fungible one), and fails
/// with `DropFailure::Worktop` otherwise.
pub proof fn law_worktop_drops_only_when_empty(worktop: WorktopSubstate)
    ensures
        RENode::Worktop(worktop).drop_spec() == (if forall|i: int|
            0 <= i < worktop.resources@.len() ==> match #[trigger] worktop.resources@[i] {
                Resource::Fungible { amount, .. } => amount.0 == 0,
                Resource::NonFungible { ids, .. } => ids@.len() == 0,
            } {
            Ok::<(), DropFailure>(())
        } else {
            Err(DropFailure::Worktop)
        }),
{
}

/// Dropping a single node is dropping its root when it has no children, and
/// fails with `DroppingNodeWithChildren` when it has some.
pub proof fn law_drop_single_node(node: HeapRENode)
    requires
        !(node.root is Global) || !node.child_nodes@.is_empty(),
    ensures
        RENode::drop_nodes_spec(seq![node]) == Some(
            if node.child_nodes@.is_empty() {
                node.root.drop_spec()
            } else {
                Err(DropFailure::DroppingNodeWithChildren)
            },
        ),
{
    let nodes = seq![node];
    assert(drop_scan(nodes, 1) == Some(Ok::<(), DropFailure>(())));
    if !node.child_nodes@.is_empty() {
    } else if node.root is Worktop {
        if node.root.drop_spec() is Err {
            assert(worktop_refuses(nodes[0].root));
        }
    } else {
        assert(!worktop_refuses(nodes[0].root));
    }
}

/// Borrowing an entry of a key-value store that is not loaded yet appends its
/// offset to the offsets that `get_offsets` lists; borrowing one that is
/// loaded leaves them as they were.
pub proof fn law_borrow_adds_offset(store: KeyValueStore, after: RENode, key: Seq<u8>)
    requires
        store.wf(),
        RENode::KeyValueStore(store).loaded(after, OffsetView::KeyValueStoreEntry(key)),
    ensures
        after.offsets_spec() == (if store@.contains_key(key) {
            RENode::KeyValueStore(store).offsets_spec()
        } else {
            RENode::KeyValueStore(store).offsets_spec().push(OffsetView::KeyValueStoreEntry(key))
        }),
{
    let before = RENode::KeyValueStore(store).offsets_spec();
    if !store@.contains_key(key) {
        assert(after.offsets_spec() =~= before.push(OffsetView::KeyValueStoreEntry(key)));
    }
}

} // verus!
