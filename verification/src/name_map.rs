//! Per-body name resolution: which entity currently claims each attachment
//! name under a body.
//!
//! Every physical body owns one map from child name to the entity that
//! registered the name most recently. Registration is last-write-wins, and
//! entries are never pruned when an entity is renamed, so a stale name keeps
//! resolving until something re-registers it; callers must not rely on two
//! live entities sharing one name.

use vstd::prelude::*;

use crate::commands::{IdAllocator, JointCommand};
use crate::generic_joint::spec_as_joint;
use crate::prebaf::{spec_attach, JointSlot, LiveJoint};

verus! {

/// Marks a body entity that owns a name resolution map.
#[derive(Debug, Clone, Copy, PartialEq, Eq, Structural)]
pub enum JointBodyBuilderPrefab {
    Default,
}

impl Default for JointBodyBuilderPrefab {
    fn default() -> (s: JointBodyBuilderPrefab)
        ensures
            s == JointBodyBuilderPrefab::Default,
    {
        JointBodyBuilderPrefab::Default
    }
}

/// The association of each registered name's view to the entity holding it,
/// later entries overriding earlier ones.
pub open spec fn entries_map(s: Seq<(String, u64)>) -> Map<Seq<char>, u64>
    decreases s.len(),
{
    if s.len() == 0 {
        Map::empty()
    } else {
        entries_map(s.drop_last()).insert(s.last().0@, s.last().1)
    }
}

/// The name → entity map owned by one body: the entity that currently
/// represents each named attachment point among the body's descendants.
#[derive(Debug, Clone, PartialEq, Eq)]
pub struct JointBodyBuilderHashMap(Vec<(String, u64)>);

impl Default for JointBodyBuilderHashMap {
    /// An empty map.
    fn default() -> (m: JointBodyBuilderHashMap)
        ensures
            m.wf(),
            m.as_map() == Map::<Seq<char>, u64>::empty(),
    {
        JointBodyBuilderHashMap(Vec::new())
    }
}

impl JointBodyBuilderHashMap {
    /// The mapping, as a mathematical map from name to entity.
    pub closed spec fn as_map(self) -> Map<Seq<char>, u64> {
        entries_map(self.0@)
    }

    /// Well-formed: no name is stored twice.
    pub closed spec fn wf(self) -> bool {
        forall|i: int, j: int|
            0 <= i < j < self.0@.len() ==> self.0@[i].0@ != self.0@[j].0@
    }

    /// An empty map.
    pub fn new() -> (m: JointBodyBuilderHashMap)
        ensures
            m.wf(),
            m.as_map() == Map::<Seq<char>, u64>::empty(),
    {
        JointBodyBuilderHashMap(Vec::new())
    }

    /// How many names are registered.
    pub fn len(&self) -> (n: usize)
        requires
            self.wf(),
        ensures
            n == self.as_map().dom().len(),
    {
        proof {
            lemma_entries_map_card(self.0@);
        }
        self.0.len()
    }

    /// The entity currently claiming `name`, if any.
    pub fn get(&self, name: &String) -> (r: Option<u64>)
        requires
            self.wf(),
        ensures
            r == if self.as_map().contains_key(name@) {
                Some(self.as_map()[name@])
            } else {
                None::<u64>
            },
    {
        let n = self.0.len();
        let mut i: usize = 0;
        while i < n
            invariant
                n == self.0@.len(),
                i <= n,
                self.wf(),
                forall|j: int| 0 <= j < i ==> self.0@[j].0@ != name@,
            decreases n - i,
        {
            if self.0[i].0 == *name {
                proof {
                    lemma_entries_map_value(self.0@, i as int);
                }
                return Some(self.0[i].1);
            }
            i = i + 1;
        }
        proof {
            lemma_entries_map_contains(self.0@, name@);
        }
        None
    }

    /// Registers `name` as claimed by `entity`, replacing any earlier claim:
    /// last write wins.
    pub fn upsert(&mut self, name: &String, entity: u64)
        requires
            old(self).wf(),
        ensures
            final(self).wf(),
            final(self).as_map() == old(self).as_map().insert(name@, entity),
    {
        let n = self.0.len();
        let mut i: usize = 0;
        while i < n
            invariant
                n == self.0@.len(),
                i <= n,
                self.wf(),
                *self == *old(self),
                forall|j: int| 0 <= j < i ==> self.0@[j].0@ != name@,
            decreases n - i,
        {
            if self.0[i].0 == *name {
                let pair = (name.clone(), entity);
                proof {
                    lemma_entries_map_update(self.0@, i as int, pair);
                }
                self.0[i] = pair;
                return ;
            }
            i = i + 1;
        }
        proof {
            let s = self.0@;
            let p = (*name, entity);
            assert(s.push(p).drop_last() =~= s);
        }
        self.0.push((name.clone(), entity));
    }
}

/// Whether a pending joint waits exactly for this registration: its
/// structural parent is the registering body, its parent name is the
/// registered name, and it has no live joint yet.
pub open spec fn slot_matches(s: JointSlot, body: u64, name: Seq<char>) -> bool {
    s.parent == body && s.prefab.parent_name@ == name && s.live is None
}

/// What one name registration does to the pending joints, in order: each
/// matching slot is attached (markers created, joint inserted if enabled),
/// every other slot is left alone.
pub open spec fn spec_register_pass(
    joints: Seq<JointSlot>,
    body: u64,
    named_entity: u64,
    name: Seq<char>,
    base: u64,
) -> (Seq<JointSlot>, Seq<JointCommand>, u64)
    decreases joints.len(),
{
    if joints.len() == 0 {
        (Seq::<JointSlot>::empty(), Seq::<JointCommand>::empty(), base)
    } else {
        let (js, emitted, next) = spec_register_pass(
            joints.drop_last(),
            body,
            named_entity,
            name,
            base,
        );
        let s = joints.last();
        if slot_matches(s, body, name) {
            let (s1, c1, next1) = spec_attach(s, named_entity, next);
            (js.push(s1), emitted + c1, next1)
        } else {
            (js.push(s), emitted, next)
        }
    }
}

/// A registration pass hands back exactly one slot per slot it was given.
proof fn lemma_register_pass_len(
    joints: Seq<JointSlot>,
    body: u64,
    named_entity: u64,
    name: Seq<char>,
    base: u64,
)
    ensures
        spec_register_pass(joints, body, named_entity, name, base).0.len() == joints.len(),
    decreases joints.len(),
{
    if joints.len() > 0 {
        lemma_register_pass_len(joints.drop_last(), body, named_entity, name, base);
    }
}

/// One registration touches exactly the pending joints that wait for the
/// registered name. A slot that waits for it comes out with a fresh marker
/// pair and — if its descriptor is enabled — a live joint against the
/// registering entity, configured as its descriptor translates; every other
/// slot comes out exactly as it went in.
pub proof fn lemma_register_pass_at(
    joints: Seq<JointSlot>,
    body: u64,
    named_entity: u64,
    name: Seq<char>,
    base: u64,
    i: int,
)
    requires
        0 <= i < joints.len(),
    ensures
        ({
            let (js, emitted, next) = spec_register_pass(joints, body, named_entity, name, base);
            &&& js.len() == joints.len()
            &&& (!slot_matches(joints[i], body, name) ==> js[i] == joints[i])
            &&& (slot_matches(joints[i], body, name) ==> js[i].storage is Some)
            &&& (slot_matches(joints[i], body, name) && joints[i].prefab.enabled ==> js[i].live
                == Some(
                LiveJoint {
                    parent: named_entity,
                    data: spec_as_joint(
                        joints[i].prefab.joint,
                        joints[i].prefab.local_anchor1,
                        joints[i].prefab.local_anchor2,
                    ),
                },
            ))
        }),
    decreases joints.len(),
{
    lemma_register_pass_len(joints, body, named_entity, name, base);
    lemma_register_pass_len(joints.drop_last(), body, named_entity, name, base);
    if i < joints.len() - 1 {
        lemma_register_pass_at(joints.drop_last(), body, named_entity, name, base, i);
        assert(joints.drop_last()[i] == joints[i]);
    }
}

/// Attaches every pending joint that waits for the just-registered name, so
/// a joint does not sit out an extra pass after its named anchor appears.
pub fn attach_pending(
    joints: &mut Vec<JointSlot>,
    body: u64,
    named_entity: u64,
    name: &String,
    cmds: &mut Vec<JointCommand>,
    ids: &mut IdAllocator,
)
    requires
        old(ids).next + 2 * old(joints)@.len() <= u64::MAX,
    ensures
        ({
            let (js, emitted, next1) = spec_register_pass(
                old(joints)@,
                body,
                named_entity,
                name@,
                old(ids).next,
            );
            final(joints)@ == js && final(cmds)@ == old(cmds)@ + emitted && final(ids).next
                == next1
        }),
{
    let n = joints.len();
    let mut i: usize = 0;
    while i < n
        invariant
            n == joints@.len(),
            n == old(joints)@.len(),
            i <= n,
            old(ids).next + 2 * old(joints)@.len() <= u64::MAX,
            ids.next <= old(ids).next + 2 * i,
            ({
                let (js, emitted, next1) = spec_register_pass(
                    old(joints)@.take(i as int),
                    body,
                    named_entity,
                    name@,
                    old(ids).next,
                );
                joints@ == js + old(joints)@.skip(i as int) && cmds@ == old(cmds)@ + emitted
                    && ids.next == next1
            }),
        decreases n - i,
    {
        proof {
            let (js, emitted, next1) = spec_register_pass(
                old(joints)@.take(i as int),
                body,
                named_entity,
                name@,
                old(ids).next,
            );
            lemma_register_pass_len(
                old(joints)@.take(i as int),
                body,
                named_entity,
                name@,
                old(ids).next,
            );
            assert(js.len() == old(joints)@.take(i as int).len());
            assert(joints@[i as int] == old(joints)@[i as int]);
            assert(old(joints)@.take(i as int + 1).drop_last() =~= old(joints)@.take(i as int));
        }
        let matched = joints[i].parent == body && joints[i].prefab.parent_name == *name
            && joints[i].live.is_none();
        if matched {
            let slot = &mut joints[i];
            crate::prebaf::attach_pending_slot(slot, named_entity, cmds, ids);
            proof {
                let (js, emitted, next1) = spec_register_pass(
                    old(joints)@.take(i as int),
                    body,
                    named_entity,
                    name@,
                    old(ids).next,
                );
                let (s1, c1, next2) = spec_attach(old(joints)@[i as int], named_entity, next1);
                assert(joints@ =~= js.push(s1) + old(joints)@.skip(i as int + 1));
                assert(cmds@ =~= old(cmds)@ + (emitted + c1));
            }
        } else {
            proof {
                let (js, emitted, next1) = spec_register_pass(
                    old(joints)@.take(i as int),
                    body,
                    named_entity,
                    name@,
                    old(ids).next,
                );
                assert(joints@ =~= js.push(old(joints)@[i as int]) + old(joints)@.skip(
                    i as int + 1,
                ));
            }
        }
        i = i + 1;
    }
    proof {
        assert(old(joints)@.take(n as int) =~= old(joints)@);
    }
}

/// Steady-state name registration: `named_entity`, a child of `body`, has
/// just gained or changed its name. Pending joints waiting for the name are
/// attached at once, then the name's claim is upserted into the body's map —
/// last write wins.
pub fn sync_map(
    map: &mut JointBodyBuilderHashMap,
    body: u64,
    named_entity: u64,
    name: &String,
    joints: &mut Vec<JointSlot>,
    cmds: &mut Vec<JointCommand>,
    ids: &mut IdAllocator,
)
    requires
        old(map).wf(),
        old(ids).next + 2 * old(joints)@.len() <= u64::MAX,
    ensures
        final(map).wf(),
        final(map).as_map() == old(map).as_map().insert(name@, named_entity),
        ({
            let (js, emitted, next1) = spec_register_pass(
                old(joints)@,
                body,
                named_entity,
                name@,
                old(ids).next,
            );
            final(joints)@ == js && final(cmds)@ == old(cmds)@ + emitted && final(ids).next
                == next1
        }),
{
    attach_pending(joints, body, named_entity, name, cmds, ids);
    map.upsert(name, named_entity);
}

/// Initial-load name registration: `named_entity` just gained its parent
/// relationship under `body`. The upsert is the same as in [`sync_map`]; the
/// split exists only so fresh entities get priority processing before the
/// generic per-frame sync.
pub fn load_map(
    map: &mut JointBodyBuilderHashMap,
    body: u64,
    named_entity: u64,
    name: &String,
    joints: &mut Vec<JointSlot>,
    cmds: &mut Vec<JointCommand>,
    ids: &mut IdAllocator,
)
    requires
        old(map).wf(),
        old(ids).next + 2 * old(joints)@.len() <= u64::MAX,
    ensures
        final(map).wf(),
        final(map).as_map() == old(map).as_map().insert(name@, named_entity),
        ({
            let (js, emitted, next1) = spec_register_pass(
                old(joints)@,
                body,
                named_entity,
                name@,
                old(ids).next,
            );
            final(joints)@ == js && final(cmds)@ == old(cmds)@ + emitted && final(ids).next
                == next1
        }),
{
    sync_map(map, body, named_entity, name, joints, cmds, ids);
}

/// A key is present exactly when some entry holds it.
proof fn lemma_entries_map_contains(s: Seq<(String, u64)>, k: Seq<char>)
    ensures
        entries_map(s).contains_key(k) <==> exists|i: int| 0 <= i < s.len() && s[i].0@ == k,
    decreases s.len(),
{
    if s.len() == 0 {
    } else {
        lemma_entries_map_contains(s.drop_last(), k);
        if s.last().0@ == k {
            assert(s[s.len() - 1].0@ == k);
        } else if entries_map(s).contains_key(k) {
            let i = choose|i: int| 0 <= i < s.drop_last().len() && s.drop_last()[i].0@ == k;
            assert(s[i].0@ == k);
        } else if exists|i: int| 0 <= i < s.len() && s[i].0@ == k {
            let i = choose|i: int| 0 <= i < s.len() && s[i].0@ == k;
            assert(i < s.len() - 1);
            assert(s.drop_last()[i].0@ == k);
        }
    }
}

/// With no name stored twice, each entry is what the map resolves its name to.
proof fn lemma_entries_map_value(s: Seq<(String, u64)>, i: int)
    requires
        forall|p: int, q: int| 0 <= p < q < s.len() ==> s[p].0@ != s[q].0@,
        0 <= i < s.len(),
    ensures
        entries_map(s).contains_key(s[i].0@),
        entries_map(s)[s[i].0@] == s[i].1,
    decreases s.len(),
{
    if i == s.len() - 1 {
    } else {
        assert(forall|p: int, q: int|
            0 <= p < q < s.drop_last().len() ==> s.drop_last()[p].0@ != s.drop_last()[q].0@);
        assert(s.drop_last()[i] == s[i]);
        lemma_entries_map_value(s.drop_last(), i);
        assert(s[i].0@ != s.last().0@);
    }
}

/// With no name stored twice, the map holds one key per entry.
proof fn lemma_entries_map_card(s: Seq<(String, u64)>)
    requires
        forall|p: int, q: int| 0 <= p < q < s.len() ==> s[p].0@ != s[q].0@,
    ensures
        entries_map(s).dom().finite(),
        entries_map(s).dom().len() == s.len(),
    decreases s.len(),
{
    if s.len() == 0 {
        assert(entries_map(s).dom() =~= Set::<Seq<char>>::empty());
    } else {
        assert(forall|p: int, q: int|
            0 <= p < q < s.drop_last().len() ==> s.drop_last()[p].0@ != s.drop_last()[q].0@);
        lemma_entries_map_card(s.drop_last());
        lemma_entries_map_contains(s.drop_last(), s.last().0@);
        assert(forall|i: int| 0 <= i < s.drop_last().len() ==> s.drop_last()[i] == s[i]);
        assert(!entries_map(s.drop_last()).contains_key(s.last().0@));
        assert(entries_map(s).dom() =~= entries_map(s.drop_last()).dom().insert(s.last().0@));
    }
}

/// Replacing the entry that holds a name with a fresh claim of the same name
/// is exactly a map insert of that name.
proof fn lemma_entries_map_update(s: Seq<(String, u64)>, i: int, p: (String, u64))
    requires
        forall|x: int, y: int| 0 <= x < y < s.len() ==> s[x].0@ != s[y].0@,
        0 <= i < s.len(),
        p.0@ == s[i].0@,
    ensures
        entries_map(s.update(i, p)) == entries_map(s).insert(p.0@, p.1),
    decreases s.len(),
{
    if i == s.len() - 1 {
        assert(s.update(i, p).drop_last() =~= s.drop_last());
        assert(s.update(i, p).last() == p);
        assert(entries_map(s.drop_last()).insert(p.0@, p.1) =~= entries_map(
            s.drop_last(),
        ).insert(s.last().0@, s.last().1).insert(p.0@, p.1));
    } else {
        assert(forall|x: int, y: int|
            0 <= x < y < s.drop_last().len() ==> s.drop_last()[x].0@ != s.drop_last()[y].0@);
        assert(s.drop_last()[i] == s[i]);
        lemma_entries_map_update(s.drop_last(), i, p);
        assert(s.update(i, p).drop_last() =~= s.drop_last().update(i, p));
        assert(s.update(i, p).last() == s.last());
        assert(s[i].0@ != s.last().0@);
        assert(entries_map(s.drop_last()).insert(p.0@, p.1).insert(s.last().0@, s.last().1)
            =~= entries_map(s.drop_last()).insert(s.last().0@, s.last().1).insert(p.0@, p.1));
    }
}

} // verus!
