//! Deferred world mutations and entity-identity handout.
//!
//! A reconciliation pass never touches the entity world directly: it appends
//! commands to a queue, and the host shell applies them after the pass, in
//! order. Entities to be created are named by fresh identity tokens handed
//! out by an [`IdAllocator`]; the host maps each token to the real entity it
//! spawns for it.

use vstd::prelude::*;

use crate::generic_joint::JointConfig;
use crate::math::Point3;

verus! {

/// One deferred world mutation produced by a reconciliation pass.
#[derive(Debug, Clone, Copy, PartialEq, Eq)]
pub enum JointCommand {
    /// Destroy the entity if it still exists; a missing entity is tolerated.
    Despawn { entity: u64 },
    /// Create the first anchor marker: a fresh entity `id`, child of
    /// `parent`, at local position `translation`, remembering `backref` as
    /// the entity its transform edits are reported against.
    SpawnAnchor1 { id: u64, backref: u64, translation: Point3, parent: u64 },
    /// Create the second anchor marker, parented under the joint's own
    /// entity.
    SpawnAnchor2 { id: u64, backref: u64, translation: Point3, parent: u64 },
    /// Attach a live joint with the given configuration to `entity`,
    /// constrained against `parent`.
    InsertJoint { entity: u64, parent: u64, config: JointConfig },
    /// Detach the live joint from `entity`.
    RemoveJoint { entity: u64 },
}

/// Hands out identity tokens for entities the pass asks the host to create.
///
/// Tokens are consecutive, so distinct calls within a pass name distinct
/// entities; the host translates each token to the entity it actually
/// spawns.
#[derive(Debug, Clone, Copy, PartialEq, Eq, Structural)]
pub struct IdAllocator {
    pub next: u64,
}

impl IdAllocator {
    /// An allocator whose first token is `start`.
    pub fn new(start: u64) -> (a: IdAllocator)
        ensures
            a.next == start,
    {
        IdAllocator { next: start }
    }

    /// Hands out the next token.
    pub fn fresh_id(&mut self) -> (id: u64)
        requires
            old(self).next < u64::MAX,
        ensures
            id == old(self).next,
            final(self).next == old(self).next + 1,
    {
        let id = self.next;
        self.next = self.next + 1;
        id
    }
}

} // verus!
