//! Deferred removal: entities are tagged during a tick and removed at its end.
use crate::maps::SpawnPoint;
use crate::world::{fits, lookup, occupant_of, slots_wf, Components, Entity, Slots, World};
use vstd::prelude::*;

verus! {

/// The tag of an entity that leaves the world at the end of the tick.
#[derive(Clone, Copy, Debug, PartialEq, Eq, Structural)]
pub struct DespawnEntity;

/// `c` with the tag.
pub open spec fn tagged(c: Components) -> Components {
    Components { despawn_entity: Some(DespawnEntity), ..c }
}

/// `s` after entity `e` was tagged: a live entity carries the tag, and nothing else
/// has changed; where `e` is no live entity, nothing has.
pub open spec fn marked(s: Slots, e: Entity) -> Slots {
    match lookup(s, e) {
        Some(c) => s.update(e as int, Some(tagged(c))),
        None => s,
    }
}

/// Tags entity `e` for removal at the end of the tick. Tagging an entity that is
/// tagged already, or one that is gone, changes nothing.
pub fn mark_for_despawn(world: &mut World, e: Entity)
    requires
        old(world).wf(),
    ensures
        final(world)@ == marked(old(world)@, e),
        final(world).wf(),
{
    match world.get(e) {
        Some(c) => {
            let mut c = c;
            c.despawn_entity = Some(DespawnEntity);
            world.put(e, c);
        },
        None => {},
    }
}

/// Tagging twice is tagging once.
pub proof fn lemma_mark_idempotent(s: Slots, e: Entity)
    ensures
        marked(marked(s, e), e) == marked(s, e),
{
}

/// Whether `e` leaves at the end of the tick: it lives and is tagged, or belongs to
/// an entity that leaves.
pub open spec fn doomed(s: Slots, e: int) -> bool
    decreases e,
{
    if 0 <= e < s.len() {
        match s[e] {
            Some(c) => c.despawn_entity is Some || (c.parent matches Some(p) && p < e && doomed(
                s,
                p as int,
            )),
            None => false,
        }
    } else {
        false
    }
}

/// Whether one of the entities below number `upto` that leave kept spawn point `p`
/// taken.
pub open spec fn freed_below(s: Slots, p: int, upto: int) -> bool {
    exists|a: int| 0 <= a < upto && doomed(s, a) && #[trigger] occupant_of(s, a) == Some(p as Entity)
}

/// Whether an entity that leaves kept spawn point `p` taken.
pub open spec fn freed(s: Slots, p: int) -> bool {
    freed_below(s, p, s.len() as int)
}

/// `c` as a spawn point that is free again.
pub open spec fn vacated(c: Components) -> Components {
    Components { spawn_point: Some(SpawnPoint(false)), ..c }
}

/// What stands in slot `e` after the removal, where the spawn points that the
/// entities below number `upto` kept taken are free again.
pub open spec fn swept_slot(s: Slots, e: int, upto: int) -> Option<Components> {
    if doomed(s, e) {
        None
    } else {
        match s[e] {
            Some(c) => Some(
                if freed_below(s, e, upto) {
                    vacated(c)
                } else {
                    c
                },
            ),
            None => None,
        }
    }
}

/// `s` after the removal at the end of a tick: every entity that was tagged has
/// left, and with it all that belonged to it; a spawn point that one of them kept
/// taken is free again; every other entity is as it was, under the number it had.
pub open spec fn swept(s: Slots) -> Slots {
    Seq::new(s.len(), |e: int| swept_slot(s, e, s.len() as int))
}

/// The removal keeps a world well formed.
pub proof fn lemma_swept_wf(s: Slots)
    requires
        slots_wf(s),
    ensures
        slots_wf(swept(s)),
{
    let t = swept(s);
    assert forall|a: int| occupant_of(t, a) is Some implies occupant_of(t, a) == occupant_of(
        s,
        a,
    ) && !doomed(s, a) by {}
    assert forall|e: int| 0 <= e < t.len() implies ((#[trigger] t[e]) matches Some(d) ==> fits(
        t,
        e,
        d,
    )) by {
        if t[e] is Some && t[e].unwrap().occupies is Some {
            // The spawn point that `e` keeps taken was not freed: only `e` keeps
            // it taken, and `e` stays.
            let p = t[e].unwrap().occupies.unwrap() as int;
            if t[p] is Some && freed(s, p) {
                let a = choose|a: int|
                    0 <= a < s.len() && doomed(s, a) && #[trigger] occupant_of(s, a) == Some(
                        p as Entity,
                    );
                assert(false);
            }
        }
    }
}

/// No tag outlives the removal at the end of the tick.
pub proof fn lemma_swept_has_no_tags(s: Slots, e: int)
    requires
        0 <= e < s.len(),
    ensures
        swept(s)[e] matches Some(c) ==> c.despawn_entity is None,
{
}

/// An entity that has left stays away: no later removal names it again.
pub proof fn lemma_gone_stays_gone(s: Slots, e: int)
    requires
        0 <= e < s.len(),
        s[e] is None,
    ensures
        !doomed(s, e),
        swept(s)[e] is None,
{
}

/// After the removal nothing is left that would leave.
pub proof fn lemma_swept_is_clean(s: Slots, e: int)
    ensures
        !doomed(swept(s), e),
    decreases e,
{
    let t = swept(s);
    if 0 <= e < t.len() && t[e] is Some {
        let parent = t[e].unwrap().parent;
        if parent is Some && parent.unwrap() < e {
            lemma_swept_is_clean(s, parent.unwrap() as int);
        }
    }
}

/// A second removal right after the first changes nothing.
pub proof fn lemma_sweep_idempotent(s: Slots)
    ensures
        swept(swept(s)) == swept(s),
{
    let t = swept(s);
    assert forall|e: int| 0 <= e < t.len() implies swept_slot(t, e, t.len() as int) == t[e] by {
        lemma_swept_is_clean(s, e);
        if freed(t, e) {
            let a = choose|a: int|
                0 <= a < t.len() && doomed(t, a) && #[trigger] occupant_of(t, a) == Some(
                    e as Entity,
                );
            lemma_swept_is_clean(s, a);
        }
    }
}

/// Removes every entity that is tagged, with all that belongs to it, and frees the
/// spawn points that they kept taken. Returns the numbers of the entities that
/// left, in rising order.
pub fn despawn_entity(world: &mut World) -> (gone: Vec<Entity>)
    requires
        old(world).wf(),
    ensures
        final(world)@ == swept(old(world)@),
        final(world).wf(),
        forall|e: Entity| gone@.contains(e) <==> doomed(old(world)@, e as int),
        forall|i: int, j: int| 0 <= i < j < gone@.len() ==> gone@[i] < gone@[j],
{
    let ghost s = world@;
    let n = world.len();
    let mut next: Vec<Option<Components>> = Vec::new();
    let mut gone: Vec<Entity> = Vec::new();
    let mut e: usize = 0;
    while e < n
        invariant
            e <= n,
            n == s.len(),
            s == world@,
            slots_wf(s),
            next@.len() == e,
            forall|j: int| 0 <= j < e ==> #[trigger] next@[j] == swept_slot(s, j, e as int),
            forall|j: int| 0 <= j < e && doomed(s, j) ==> gone@.contains(j as Entity),
            forall|i: int| 0 <= i < gone@.len() ==> gone@[i] < e && doomed(s, gone@[i] as int),
            forall|i: int, j: int| 0 <= i < j < gone@.len() ==> gone@[i] < gone@[j],
        decreases n - e,
    {
        let ghost gone_before = gone@;
        let slot = world.get(e);
        let mut leaves = false;
        if let Some(c) = slot {
            leaves = c.despawn_entity.is_some();
            if let Some(p) = c.parent {
                // The parent has had its turn: its slot is empty by now exactly
                // when it leaves.
                if next[p].is_none() {
                    leaves = true;
                }
            }
            if leaves {
                if let Some(p) = c.occupies {
                    if let Some(q) = next[p] {
                        let mut q = q;
                        q.spawn_point = Some(SpawnPoint(false));
                        next.set(p, Some(q));
                    }
                }
            }
        }
        proof {
            // What the step means for the spawn points below `e`: the one that `e`
            // kept taken is freed now, by nobody else, and no other one is.
            assert forall|j: int| 0 <= j < e implies #[trigger] next@[j] == swept_slot(
                s,
                j,
                e + 1,
            ) by {
                if leaves && occupant_of(s, e as int) == Some(j as Entity) {
                    if freed_below(s, j, e as int) {
                        let a = choose|a: int|
                            0 <= a < e && doomed(s, a) && #[trigger] occupant_of(s, a) == Some(
                                j as Entity,
                            );
                        assert(false);
                    }
                } else if freed_below(s, j, e + 1) {
                    let a = choose|a: int|
                        0 <= a < e + 1 && doomed(s, a) && #[trigger] occupant_of(s, a) == Some(
                            j as Entity,
                        );
                    assert(a != e);
                    assert(freed_below(s, j, e as int));
                } else if freed_below(s, j, e as int) {
                    let a = choose|a: int|
                        0 <= a < e && doomed(s, a) && #[trigger] occupant_of(s, a) == Some(
                            j as Entity,
                        );
                    assert(freed_below(s, j, e + 1));
                }
            }
            // Nothing up to `e` keeps `e` itself taken.
            if freed_below(s, e as int, e + 1) {
                let a = choose|a: int|
                    0 <= a < e + 1 && doomed(s, a) && #[trigger] occupant_of(s, a) == Some(
                        e as Entity,
                    );
                assert(false);
            }
        }
        if leaves {
            next.push(None);
            gone.push(e);
        } else {
            next.push(slot);
        }
        proof {
            assert forall|j: int| 0 <= j < e + 1 && doomed(s, j) implies gone@.contains(
                j as Entity,
            ) by {
                if j < e {
                    let i = choose|i: int| 0 <= i < gone_before.len() && gone_before[i] == j;
                    assert(gone@[i] == j);
                } else {
                    assert(gone@[gone@.len() - 1] == e);
                }
            }
        }
        e += 1;
    }
    proof {
        assert(next@ =~= swept(s));
        lemma_swept_wf(s);
        assert forall|e: Entity| gone@.contains(e) <==> doomed(s, e as int) by {
            if gone@.contains(e) {
                let i = choose|i: int| 0 <= i < gone@.len() && gone@[i] == e;
                assert(doomed(s, gone@[i] as int));
            }
        }
    }
    world.replace(next);
    gone
}

} // verus!
