//! The pair of auxiliary marker entities that carry a joint's two local
//! anchors.
//!
//! Each joint owns two markers: the first parented under the joint's resolved
//! parent body, the second under the joint's own entity. A marker's transform
//! is the editable image of the corresponding anchor; when a marker moves,
//! the anchor field of the descriptor is overwritten from it. The pair is
//! always torn down and recreated as a whole, except when only the resolved
//! parent changed, where the first marker alone is recreated under the new
//! parent.

use vstd::prelude::*;

use crate::commands::{IdAllocator, JointCommand};
use crate::math::Point3;
use crate::prebaf::ImpulseJointPrefab;

verus! {

/// The identity a storage slot holds before any marker was created.
pub const PLACEHOLDER: u64 = 0xFFFF_FFFF_FFFF_FFFF;

/// Marker component of the first anchor entity; `entity` is the entity its
/// transform edits are reported against.
#[derive(Debug, Clone, Copy, PartialEq, Eq, Structural)]
pub struct LocalAnchor1Marker {
    pub entity: u64,
}

/// Marker component of the second anchor entity.
#[derive(Debug, Clone, Copy, PartialEq, Eq, Structural)]
pub struct LocalAnchor2Marker {
    pub entity: u64,
}

/// The two marker entities owned by one joint: both exist together or not at
/// all.
#[derive(Debug, Clone, Copy, PartialEq, Eq, Structural)]
pub struct LocalAnchorEntityStorage {
    pub anchor_2: u64,
    pub anchor_1: u64,
}

impl Default for LocalAnchorEntityStorage {
    fn default() -> (s: LocalAnchorEntityStorage)
        ensures
            s.anchor_1 == PLACEHOLDER,
            s.anchor_2 == PLACEHOLDER,
    {
        LocalAnchorEntityStorage { anchor_2: PLACEHOLDER, anchor_1: PLACEHOLDER }
    }
}

/// The commands that recreate the first marker under a new parent: the old
/// marker is destroyed, a fresh one is spawned under `new_parent` at the
/// given local position, reporting against the joint-owning entity so drags
/// of the new marker still write the descriptor's first anchor.
pub open spec fn spec_change_parent_cmds(
    st: LocalAnchorEntityStorage,
    entity: u64,
    new_parent: u64,
    local_anchor: Point3,
    id: u64,
) -> Seq<JointCommand> {
    seq![
        JointCommand::Despawn { entity: st.anchor_1 },
        JointCommand::SpawnAnchor1 {
            id: id,
            backref: entity,
            translation: local_anchor,
            parent: new_parent,
        },
    ]
}

/// The commands that create a fresh marker pair for a joint: the second
/// marker under the joint's own entity, the first under the resolved parent,
/// and — when an earlier pair existed — the old markers destroyed.
pub open spec fn spec_swawn_cmds(
    prev: Option<LocalAnchorEntityStorage>,
    local_anchor1: Point3,
    local_anchor2: Point3,
    entity: u64,
    parent_entity: u64,
    base: u64,
) -> Seq<JointCommand> {
    let spawns = seq![
        JointCommand::SpawnAnchor2 {
            id: base,
            backref: entity,
            translation: local_anchor2,
            parent: entity,
        },
        JointCommand::SpawnAnchor1 {
            id: (base + 1) as u64,
            backref: entity,
            translation: local_anchor1,
            parent: parent_entity,
        },
    ];
    match prev {
        Some(st) => spawns + seq![
            JointCommand::Despawn { entity: st.anchor_2 },
            JointCommand::Despawn { entity: st.anchor_1 },
        ],
        None => spawns,
    }
}

impl LocalAnchorEntityStorage {
    /// Recreates the first marker alone under a new parent, keeping the
    /// second marker; used when only the parent resolution changed. The new
    /// marker reports against `entity`, the joint-owning entity.
    pub fn change_parent(
        &mut self,
        cmds: &mut Vec<JointCommand>,
        entity: u64,
        new_parent: u64,
        local_anchor: Point3,
        ids: &mut IdAllocator,
    )
        requires
            old(ids).next < u64::MAX,
        ensures
            final(self).anchor_1 == old(ids).next,
            final(self).anchor_2 == old(self).anchor_2,
            final(ids).next == old(ids).next + 1,
            final(cmds)@ == old(cmds)@ + spec_change_parent_cmds(
                *old(self),
                entity,
                new_parent,
                local_anchor,
                old(ids).next,
            ),
    {
        cmds.push(JointCommand::Despawn { entity: self.anchor_1 });
        let id = ids.fresh_id();
        cmds.push(
            JointCommand::SpawnAnchor1 {
                id,
                backref: entity,
                translation: local_anchor,
                parent: new_parent,
            },
        );
        self.anchor_1 = id;
        proof {
            assert(cmds@ =~= old(cmds)@ + spec_change_parent_cmds(
                *old(self),
                entity,
                new_parent,
                local_anchor,
                old(ids).next,
            ));
        }
    }

    /// Destroys both markers; a marker that is already gone is tolerated
    /// when the commands are applied.
    pub fn despawn(&self, cmds: &mut Vec<JointCommand>)
        ensures
            final(cmds)@ == old(cmds)@ + seq![
                JointCommand::Despawn { entity: self.anchor_2 },
                JointCommand::Despawn { entity: self.anchor_1 },
            ],
    {
        cmds.push(JointCommand::Despawn { entity: self.anchor_2 });
        cmds.push(JointCommand::Despawn { entity: self.anchor_1 });
        proof {
            assert(cmds@ =~= old(cmds)@ + seq![
                JointCommand::Despawn { entity: self.anchor_2 },
                JointCommand::Despawn { entity: self.anchor_1 },
            ]);
        }
    }

    /// Creates a fresh marker pair for `entity` against `parent_entity`,
    /// destroying the previous pair if one exists, and stores the new pair.
    /// Both markers are always recreated together.
    pub fn swawn(
        this: &mut Option<LocalAnchorEntityStorage>,
        cmds: &mut Vec<JointCommand>,
        prefab: &ImpulseJointPrefab,
        entity: u64,
        parent_entity: u64,
        ids: &mut IdAllocator,
    )
        requires
            old(ids).next + 2 <= u64::MAX,
        ensures
            *final(this) == Some(
                LocalAnchorEntityStorage {
                    anchor_2: old(ids).next,
                    anchor_1: (old(ids).next + 1) as u64,
                },
            ),
            final(ids).next == old(ids).next + 2,
            final(cmds)@ == old(cmds)@ + spec_swawn_cmds(
                *old(this),
                prefab.local_anchor1,
                prefab.local_anchor2,
                entity,
                parent_entity,
                old(ids).next,
            ),
    {
        let id2 = ids.fresh_id();
        cmds.push(
            JointCommand::SpawnAnchor2 {
                id: id2,
                backref: entity,
                translation: prefab.local_anchor2,
                parent: entity,
            },
        );
        let id1 = ids.fresh_id();
        cmds.push(
            JointCommand::SpawnAnchor1 {
                id: id1,
                backref: entity,
                translation: prefab.local_anchor1,
                parent: parent_entity,
            },
        );
        let new_storage = LocalAnchorEntityStorage { anchor_2: id2, anchor_1: id1 };
        match this {
            Some(st) => {
                st.despawn(cmds);
                *st = new_storage;
            },
            None => {
                *this = Some(new_storage);
            },
        }
        proof {
            assert(cmds@ =~= old(cmds)@ + spec_swawn_cmds(
                *old(this),
                prefab.local_anchor1,
                prefab.local_anchor2,
                entity,
                parent_entity,
                old(ids).next,
            ));
        }
    }
}

/// Writes the first marker's edited translation back into the descriptor's
/// first anchor; evaluated when the marker's transform changed.
pub fn sync_local_anchor1(joint: &mut ImpulseJointPrefab, translation: Point3)
    ensures
        *final(joint) == (ImpulseJointPrefab { local_anchor1: translation, ..*old(joint) }),
{
    joint.local_anchor1 = translation;
}

/// Writes the second marker's edited translation back into the descriptor's
/// second anchor.
pub fn sync_local_anchor2(joint: &mut ImpulseJointPrefab, translation: Point3)
    ensures
        *final(joint) == (ImpulseJointPrefab { local_anchor2: translation, ..*old(joint) }),
{
    joint.local_anchor2 = translation;
}

} // verus!
