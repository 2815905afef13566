//! Errors of the engine.
use vstd::prelude::*;

use crate::types::SubstateOffset;

verus! {

/// Why a node could not be dropped.
#[derive(Clone, Copy, Debug, PartialEq, Eq, Structural)]
pub enum DropFailure {
    System,
    Resource,
    Component,
    Bucket,
    Worktop,
    Vault,
    Package,
    KeyValueStore,
    NonFungibleStore,
    DroppingNodeWithChildren,
}

/// Errors raised by the kernel.
#[derive(Debug)]
pub enum KernelError {
    /// The offset does not name a substate of the node.
    InvalidOffset(SubstateOffset),
    /// A call frame tried to create a component of another blueprint.
    RENodeCreateInvalidPermission,
}

/// Errors raised while running a transaction.
#[derive(Debug)]
pub enum RuntimeError {
    KernelError(KernelError),
}

} // verus!
