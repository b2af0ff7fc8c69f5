//! Joint lifecycle reconciliation: one pass over the joint-owning entities
//! each host tick.
//!
//! A joint-owning entity moves between four states: unresolved (descriptor
//! present, parent name not yet in the body's map, no live joint), active
//! (live joint attached, markers present), disabled (descriptor kept, live
//! joint removed) and respawning (parent changed, the first marker being
//! recreated). [`spawn_joint`] handles pending descriptors without a live
//! joint, [`sync_joint`] reconciles changed descriptors that have one; a
//! failed name lookup is never an error — the entity stays unresolved and is
//! retried on every later pass.

use vstd::prelude::*;

use crate::commands::{IdAllocator, JointCommand};
use crate::generic_joint::{spec_as_joint, GenericJointPrefab, JointConfig};
use crate::local_anchor_marker::{
    spec_change_parent_cmds,
    spec_swawn_cmds,
    LocalAnchorEntityStorage,
};
use crate::math::Point3;
use crate::name_map::JointBodyBuilderHashMap;

verus! {

/// The fingerprint of a parent name, as stored in a descriptor after a
/// resolved pass.
///
/// Relies on std's `DefaultHasher` (`std::collections::hash_map`): hashing a
/// string with a freshly created `DefaultHasher` and reading `finish` is a
/// pure digest of the string's characters, with no per-process seed.
pub uninterp spec fn hash_of(s: Seq<char>) -> u64;

/// Fingerprints a parent name with std's `DefaultHasher`.
#[verifier::external_body]
pub(crate) fn to_hash(s: &String) -> (r: u64)
    ensures
        r == hash_of(s@),
{
    let mut hasher = std::collections::hash_map::DefaultHasher::default();
    std::hash::Hash::hash(s, &mut hasher);
    std::hash::Hasher::finish(&hasher)
}

/// The authored description of a joint, attached to the joint's own entity.
///
/// `previus_parent` is the sole signal for detecting a parent change: zero
/// until a reconciliation pass first resolves the parent name, afterwards the
/// fingerprint of the parent name that pass saw.
#[derive(Debug, Clone, PartialEq, Eq)]
pub struct ImpulseJointPrefab {
    pub parent_name: String,
    pub enabled: bool,
    pub previus_parent: u64,
    pub joint: GenericJointPrefab,
    pub local_anchor1: Point3,
    pub local_anchor2: Point3,
}

/// The live joint component the engine consumes: the resolved parent body
/// and the configured joint data.
#[derive(Debug, Clone, Copy, PartialEq, Eq)]
pub struct LiveJoint {
    pub parent: u64,
    pub data: JointConfig,
}

impl LiveJoint {
    pub fn new(parent: u64, data: JointConfig) -> (j: LiveJoint)
        ensures
            j == (LiveJoint { parent, data }),
    {
        LiveJoint { parent, data }
    }
}

/// A parent change is pending exactly when the descriptor carries a
/// fingerprint from an earlier resolved pass and the current parent name no
/// longer matches it.
pub open spec fn spec_should_respawn(p: ImpulseJointPrefab) -> bool {
    p.previus_parent != 0 && hash_of(p.parent_name@) != p.previus_parent
}

impl ImpulseJointPrefab {
    /// Whether the markers must be recreated because the parent name changed
    /// since the fingerprint was last stored.
    pub fn should_respawn(&self, parent_name: &String) -> (r: bool)
        ensures
            r == (self.previus_parent != 0 && hash_of(parent_name@) != self.previus_parent),
    {
        self.previus_parent != 0 && to_hash(parent_name) != self.previus_parent
    }

    /// Re-translates the descriptor into the live joint. If a parent change
    /// is pending the live joint is replaced wholesale against
    /// `parent_entity`; otherwise only its joint data is overwritten, in
    /// place.
    pub fn update_joint(&self, impulse_joint: &mut LiveJoint, parent_entity: u64)
        ensures
            *final(impulse_joint) == (LiveJoint {
                parent: if spec_should_respawn(*self) {
                    parent_entity
                } else {
                    old(impulse_joint).parent
                },
                data: spec_as_joint(self.joint, self.local_anchor1, self.local_anchor2),
            }),
    {
        let new_generic_joint = self.joint.as_joint(self.local_anchor1, self.local_anchor2);
        if self.should_respawn(&self.parent_name) {
            *impulse_joint = LiveJoint::new(parent_entity, new_generic_joint);
            return ;
        }
        impulse_joint.data = new_generic_joint;
    }
}

/// Everything one reconciliation step reads and writes on a joint-owning
/// entity: its identity, its structural parent (the body), the authored
/// descriptor, the marker pair if one exists, the live joint if one is
/// attached, and the body's sleep flag if it carries one.
#[derive(Debug, Clone, PartialEq, Eq)]
pub struct JointSlot {
    pub entity: u64,
    pub parent: u64,
    pub prefab: ImpulseJointPrefab,
    pub storage: Option<LocalAnchorEntityStorage>,
    pub live: Option<LiveJoint>,
    pub sleeping: Option<bool>,
}

/// How one reconciliation step of an entity with a live joint ended.
#[derive(Debug, Clone, Copy, PartialEq, Eq, Structural)]
pub enum SyncOutcome {
    /// The body owns no name map; nothing was done.
    NoMap,
    /// The parent name is not registered; nothing was done, to be retried.
    Unresolved,
    /// The descriptor is disabled; the live joint was removed.
    Disabled,
    /// The parent name changed; the first marker was recreated, the joint
    /// data rewritten.
    Respawned,
    /// The joint data was rewritten in place.
    Updated,
}

/// How one spawn attempt for an entity without a live joint ended.
#[derive(Debug, Clone, Copy, PartialEq, Eq, Structural)]
pub enum SpawnOutcome {
    /// The descriptor is disabled; nothing was done.
    Disabled,
    /// The body owns no name map; nothing was done.
    NoMap,
    /// The parent name is not registered; nothing was done, to be retried.
    Unresolved,
    /// Markers were created and the live joint attached.
    Spawned,
}

/// The name map a step consults, if the body owns one.
pub open spec fn opt_map_view(m: Option<&JointBodyBuilderHashMap>) -> Option<
    Map<Seq<char>, u64>,
> {
    match m {
        Some(m) => Some(m.as_map()),
        None => None,
    }
}

/// What [`sync_joint`] does: the slot afterwards, the commands emitted, the
/// next fresh identity, and the outcome.
pub open spec fn spec_sync_joint(s: JointSlot, m: Option<Map<Seq<char>, u64>>, base: u64) -> (
    JointSlot,
    Seq<JointCommand>,
    u64,
    SyncOutcome,
) {
    match m {
        None => (s, Seq::<JointCommand>::empty(), base, SyncOutcome::NoMap),
        Some(m) => {
            if !m.contains_key(s.prefab.parent_name@) {
                (s, Seq::<JointCommand>::empty(), base, SyncOutcome::Unresolved)
            } else {
                let target = m[s.prefab.parent_name@];
                let respawn = spec_should_respawn(s.prefab);
                let changed = respawn && s.storage is Some;
                let storage1 = if changed {
                    Some(
                        LocalAnchorEntityStorage {
                            anchor_2: s.storage->Some_0.anchor_2,
                            anchor_1: base,
                        },
                    )
                } else {
                    s.storage
                };
                let cmds1 = if changed {
                    spec_change_parent_cmds(
                        s.storage->Some_0,
                        s.entity,
                        target,
                        s.prefab.local_anchor1,
                        base,
                    )
                } else {
                    Seq::<JointCommand>::empty()
                };
                let base1 = if changed {
                    (base + 1) as u64
                } else {
                    base
                };
                let prefab1 = ImpulseJointPrefab {
                    previus_parent: hash_of(s.prefab.parent_name@),
                    ..s.prefab
                };
                if !s.prefab.enabled {
                    (
                        JointSlot { prefab: prefab1, storage: storage1, live: None, ..s },
                        cmds1 + seq![JointCommand::RemoveJoint { entity: s.entity }],
                        base1,
                        SyncOutcome::Disabled,
                    )
                } else {
                    let data = spec_as_joint(
                        s.prefab.joint,
                        s.prefab.local_anchor1,
                        s.prefab.local_anchor2,
                    );
                    (
                        JointSlot {
                            prefab: prefab1,
                            storage: storage1,
                            live: Some(LiveJoint { parent: s.live->Some_0.parent, data }),
                            sleeping: if s.sleeping is Some {
                                Some(false)
                            } else {
                                None
                            },
                            ..s
                        },
                        cmds1,
                        base1,
                        if respawn {
                            SyncOutcome::Respawned
                        } else {
                            SyncOutcome::Updated
                        },
                    )
                }
            }
        },
    }
}

/// One reconciliation step for an entity whose descriptor changed and that
/// already has a live joint.
///
/// If the body's map resolves the parent name: a pending parent change first
/// recreates the first marker under the newly resolved parent (at the
/// descriptor's first anchor); the fingerprint is then unconditionally
/// refreshed; a disabled descriptor detaches the live joint, keeping
/// descriptor and markers; otherwise the descriptor is re-translated into
/// the live joint in place and the body is woken. A body without a map, or
/// an unresolved name, leaves everything untouched.
pub fn sync_joint(
    slot: &mut JointSlot,
    map: Option<&JointBodyBuilderHashMap>,
    cmds: &mut Vec<JointCommand>,
    ids: &mut IdAllocator,
) -> (o: SyncOutcome)
    requires
        old(slot).live is Some,
        match map {
            Some(m) => m.wf(),
            None => true,
        },
        old(ids).next < u64::MAX,
    ensures
        ({
            let (s1, emitted, next1, out) = spec_sync_joint(
                *old(slot),
                opt_map_view(map),
                old(ids).next,
            );
            *final(slot) == s1 && final(cmds)@ == old(cmds)@ + emitted && final(ids).next
                == next1 && o == out
        }),
{
    let map = match map {
        Some(m) => m,
        None => {
            proof {
                assert(cmds@ =~= old(cmds)@ + Seq::<JointCommand>::empty());
            }
            return SyncOutcome::NoMap;
        },
    };
    let target = match map.get(&slot.prefab.parent_name) {
        Some(t) => t,
        None => {
            proof {
                assert(cmds@ =~= old(cmds)@ + Seq::<JointCommand>::empty());
            }
            return SyncOutcome::Unresolved;
        },
    };
    let respawn = slot.prefab.should_respawn(&slot.prefab.parent_name);
    if respawn {
        let entity = slot.entity;
        let local_anchor1 = slot.prefab.local_anchor1;
        match &mut slot.storage {
            Some(st) => st.change_parent(cmds, entity, target, local_anchor1, ids),
            None => {},
        }
    }
    slot.prefab.previus_parent = to_hash(&slot.prefab.parent_name);
    if !slot.prefab.enabled {
        cmds.push(JointCommand::RemoveJoint { entity: slot.entity });
        slot.live = None;
        return SyncOutcome::Disabled;
    }
    match &mut slot.live {
        Some(j) => slot.prefab.update_joint(j, target),
        None => {},
    }
    match &mut slot.sleeping {
        Some(b) => {
            *b = false;
        },
        None => {},
    }
    if respawn {
        SyncOutcome::Respawned
    } else {
        SyncOutcome::Updated
    }
}

/// What attaching a pending joint to its freshly resolved parent does: a new
/// marker pair always, the live joint only if the descriptor is enabled.
pub open spec fn spec_attach(s: JointSlot, named_entity: u64, base: u64) -> (
    JointSlot,
    Seq<JointCommand>,
    u64,
) {
    let storage1 = Some(
        LocalAnchorEntityStorage { anchor_2: base, anchor_1: (base + 1) as u64 },
    );
    let cmds1 = spec_swawn_cmds(
        s.storage,
        s.prefab.local_anchor1,
        s.prefab.local_anchor2,
        s.entity,
        named_entity,
        base,
    );
    if s.prefab.enabled {
        let data = spec_as_joint(s.prefab.joint, s.prefab.local_anchor1, s.prefab.local_anchor2);
        (
            JointSlot {
                storage: storage1,
                live: Some(LiveJoint { parent: named_entity, data }),
                ..s
            },
            cmds1 + seq![
                JointCommand::InsertJoint { entity: s.entity, parent: named_entity, config: data },
            ],
            (base + 2) as u64,
        )
    } else {
        (JointSlot { storage: storage1, ..s }, cmds1, (base + 2) as u64)
    }
}

/// What [`spawn_joint`] does.
pub open spec fn spec_spawn_joint(s: JointSlot, m: Option<Map<Seq<char>, u64>>, base: u64) -> (
    JointSlot,
    Seq<JointCommand>,
    u64,
    SpawnOutcome,
) {
    if !s.prefab.enabled {
        (s, Seq::<JointCommand>::empty(), base, SpawnOutcome::Disabled)
    } else {
        match m {
            None => (s, Seq::<JointCommand>::empty(), base, SpawnOutcome::NoMap),
            Some(m) => {
                if !m.contains_key(s.prefab.parent_name@) {
                    (s, Seq::<JointCommand>::empty(), base, SpawnOutcome::Unresolved)
                } else {
                    let (s1, emitted, next1) = spec_attach(s, m[s.prefab.parent_name@], base);
                    (s1, emitted, next1, SpawnOutcome::Spawned)
                }
            },
        }
    }
}

/// One spawn attempt for an entity whose descriptor is present or changed
/// but that has no live joint yet.
///
/// A disabled descriptor is skipped outright. If the body's map resolves the
/// parent name, a fresh marker pair is created (replacing any old pair) and
/// the translated joint is attached against the resolved parent; the
/// fingerprint is left for the next sync pass to stamp. An unresolved name
/// changes nothing and is retried on every later pass.
pub fn spawn_joint(
    slot: &mut JointSlot,
    map: Option<&JointBodyBuilderHashMap>,
    cmds: &mut Vec<JointCommand>,
    ids: &mut IdAllocator,
) -> (o: SpawnOutcome)
    requires
        old(slot).live is None,
        match map {
            Some(m) => m.wf(),
            None => true,
        },
        old(ids).next + 2 <= u64::MAX,
    ensures
        ({
            let (s1, emitted, next1, out) = spec_spawn_joint(
                *old(slot),
                opt_map_view(map),
                old(ids).next,
            );
            *final(slot) == s1 && final(cmds)@ == old(cmds)@ + emitted && final(ids).next
                == next1 && o == out
        }),
{
    if !slot.prefab.enabled {
        proof {
            assert(cmds@ =~= old(cmds)@ + Seq::<JointCommand>::empty());
        }
        return SpawnOutcome::Disabled;
    }
    let map = match map {
        Some(m) => m,
        None => {
            proof {
                assert(cmds@ =~= old(cmds)@ + Seq::<JointCommand>::empty());
            }
            return SpawnOutcome::NoMap;
        },
    };
    let target = match map.get(&slot.prefab.parent_name) {
        Some(t) => t,
        None => {
            proof {
                assert(cmds@ =~= old(cmds)@ + Seq::<JointCommand>::empty());
            }
            return SpawnOutcome::Unresolved;
        },
    };
    attach_pending_slot(slot, target, cmds, ids);
    SpawnOutcome::Spawned
}

/// Attaches one pending joint to its resolved parent: fresh marker pair
/// always, live joint only if enabled.
pub fn attach_pending_slot(
    slot: &mut JointSlot,
    named_entity: u64,
    cmds: &mut Vec<JointCommand>,
    ids: &mut IdAllocator,
)
    requires
        old(ids).next + 2 <= u64::MAX,
    ensures
        ({
            let (s1, emitted, next1) = spec_attach(*old(slot), named_entity, old(ids).next);
            *final(slot) == s1 && final(cmds)@ == old(cmds)@ + emitted && final(ids).next == next1
        }),
{
    let entity = slot.entity;
    {
        let prefab = &slot.prefab;
        LocalAnchorEntityStorage::swawn(&mut slot.storage, cmds, prefab, entity, named_entity, ids);
    }
    if slot.prefab.enabled {
        let data = slot.prefab.joint.as_joint(
            slot.prefab.local_anchor1,
            slot.prefab.local_anchor2,
        );
        cmds.push(
            JointCommand::InsertJoint { entity, parent: named_entity, config: data },
        );
        slot.live = Some(LiveJoint { parent: named_entity, data });
        proof {
            let (s1, emitted, next1) = spec_attach(*old(slot), named_entity, old(ids).next);
            assert(cmds@ =~= old(cmds)@ + emitted);
        }
    }
}

/// Reconciliation is idempotent for an unchanged descriptor: whatever one
/// sync pass did to any slot, if its result still holds a live joint, a
/// second pass over that unchanged result emits no command and leaves the
/// slot — live joint and marker pair included — exactly as the first pass
/// left it.
pub proof fn lemma_sync_idempotent(
    s: JointSlot,
    m: Option<Map<Seq<char>, u64>>,
    n1: u64,
    n2: u64,
)
    ensures
        ({
            let (s1, c1, x1, o1) = spec_sync_joint(s, m, n1);
            let (s2, c2, x2, o2) = spec_sync_joint(s1, m, n2);
            s1.live is Some ==> {
                &&& s2 == s1
                &&& c2 == Seq::<JointCommand>::empty()
                &&& x2 == n2
            }
        }),
{
}

/// The first marker is torn down and recreated by a sync pass exactly when
/// the parent name's fingerprint differs from the one stored by a prior
/// resolved pass; an edit that keeps the parent name — a motor target, a
/// limit — never touches the markers.
pub proof fn lemma_respawn_iff_parent_changed(s: JointSlot, m: Map<Seq<char>, u64>, base: u64)
    requires
        s.storage is Some,
        m.contains_key(s.prefab.parent_name@),
    ensures
        ({
            let (s1, c1, x1, o1) = spec_sync_joint(s, Some(m), base);
            &&& c1.contains(
                JointCommand::Despawn { entity: s.storage->Some_0.anchor_1 },
            ) <==> spec_should_respawn(s.prefab)
            &&& c1.contains(
                JointCommand::SpawnAnchor1 {
                    id: base,
                    backref: s.entity,
                    translation: s.prefab.local_anchor1,
                    parent: m[s.prefab.parent_name@],
                },
            ) <==> spec_should_respawn(s.prefab)
        }),
{
    let (s1, c1, x1, o1) = spec_sync_joint(s, Some(m), base);
    let target = m[s.prefab.parent_name@];
    let despawn_cmd = JointCommand::Despawn { entity: s.storage->Some_0.anchor_1 };
    let spawn_cmd = JointCommand::SpawnAnchor1 {
        id: base,
        backref: s.entity,
        translation: s.prefab.local_anchor1,
        parent: target,
    };
    let cmds1 = spec_change_parent_cmds(
        s.storage->Some_0,
        s.entity,
        target,
        s.prefab.local_anchor1,
        base,
    );
    if spec_should_respawn(s.prefab) {
        assert(cmds1[0] == despawn_cmd);
        assert(cmds1[1] == spawn_cmd);
        if !s.prefab.enabled {
            assert(c1[0] == despawn_cmd);
            assert(c1[1] == spawn_cmd);
        }
        assert(c1.contains(despawn_cmd));
        assert(c1.contains(spawn_cmd));
    } else {
        if s.prefab.enabled {
            assert(c1.len() == 0);
        } else {
            assert(c1.len() == 1);
            assert(c1[0] == JointCommand::RemoveJoint { entity: s.entity });
        }
    }
}

/// Disabling and re-enabling restores the live joint. A sync pass that
/// observes `enabled == false` removes the live joint while keeping the
/// descriptor's anchors, settings and (if present) markers; a spawn pass
/// after the flag is set back attaches a joint configured exactly as the
/// unchanged descriptor translates, against the resolved parent.
pub proof fn lemma_disable_enable_round_trip(
    s: JointSlot,
    m: Map<Seq<char>, u64>,
    n1: u64,
    n2: u64,
)
    requires
        s.live is Some,
        m.contains_key(s.prefab.parent_name@),
    ensures
        ({
            let off = JointSlot { prefab: ImpulseJointPrefab { enabled: false, ..s.prefab }, ..s };
            let (s1, c1, x1, o1) = spec_sync_joint(off, Some(m), n1);
            let on = JointSlot { prefab: ImpulseJointPrefab { enabled: true, ..s1.prefab }, ..s1 };
            let (s2, c2, x2, o2) = spec_spawn_joint(on, Some(m), n2);
            &&& o1 == SyncOutcome::Disabled
            &&& s1.live is None
            &&& s1.prefab.local_anchor1 == s.prefab.local_anchor1
            &&& s1.prefab.local_anchor2 == s.prefab.local_anchor2
            &&& s1.prefab.joint == s.prefab.joint
            &&& (s.storage is Some ==> s1.storage is Some)
            &&& o2 == SpawnOutcome::Spawned
            &&& s2.live == Some(
                LiveJoint {
                    parent: m[s.prefab.parent_name@],
                    data: spec_as_joint(
                        s.prefab.joint,
                        s.prefab.local_anchor1,
                        s.prefab.local_anchor2,
                    ),
                },
            )
        }),
{
}

/// A descriptor authored before its parent name exists stays unresolved —
/// no live joint, no command, the slot untouched, however many passes run —
/// and the spawn pass right after the name's registration attaches it.
pub proof fn lemma_unresolved_then_resolved(
    s: JointSlot,
    m: Map<Seq<char>, u64>,
    e: u64,
    n1: u64,
    n2: u64,
)
    requires
        s.live is None,
        s.prefab.enabled,
        !m.contains_key(s.prefab.parent_name@),
    ensures
        ({
            let (s1, c1, x1, o1) = spec_spawn_joint(s, Some(m), n1);
            &&& o1 == SpawnOutcome::Unresolved
            &&& s1 == s
            &&& c1 == Seq::<JointCommand>::empty()
            &&& x1 == n1
        }),
        ({
            let m2 = m.insert(s.prefab.parent_name@, e);
            let data = spec_as_joint(s.prefab.joint, s.prefab.local_anchor1, s.prefab.local_anchor2);
            let (s2, c2, x2, o2) = spec_spawn_joint(s, Some(m2), n2);
            &&& o2 == SpawnOutcome::Spawned
            &&& s2.live == Some(LiveJoint { parent: e, data })
            &&& c2.contains(JointCommand::InsertJoint { entity: s.entity, parent: e, config: data })
        }),
{
    let m2 = m.insert(s.prefab.parent_name@, e);
    let data = spec_as_joint(s.prefab.joint, s.prefab.local_anchor1, s.prefab.local_anchor2);
    let (s2, c2, x2, o2) = spec_spawn_joint(s, Some(m2), n2);
    let insert_cmd = JointCommand::InsertJoint { entity: s.entity, parent: e, config: data };
    let cmds1 = spec_swawn_cmds(
        s.storage,
        s.prefab.local_anchor1,
        s.prefab.local_anchor2,
        s.entity,
        e,
        n2,
    );
    assert(c2 == cmds1 + seq![insert_cmd]);
    assert(c2[cmds1.len() as int] == insert_cmd);
    assert(c2.contains(insert_cmd));
}

} // verus!
