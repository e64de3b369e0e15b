//! What every object of the arena has in common: an identifier, a place, a
//! speed, a radius and a heading; and the deferred change list through which
//! objects enter and leave a collection.
use vstd::prelude::*;
use crate::fixed::{sat_sub, spec_sat_sub, trunc_rem, TAU};
use crate::geometry::{nearer, overlap, spec_overlap, Vec2};
use crate::random::{total_weight, weighted_index};

verus! {

/// Source of entity identifiers. Each call of `generate_uid` hands out the
/// next number; the first is 1.
pub struct IdAllocator {
    pub next: u64,
}

/// The number that follows `n`; past the largest `u64` the count starts over.
pub open spec fn id_after(n: u64) -> u64 {
    if n == u64::MAX {
        0
    } else {
        (n + 1) as u64
    }
}

/// The `k`-th number after `n`.
pub open spec fn id_offset(n: u64, k: nat) -> u64
    decreases k,
{
    if k == 0 {
        n
    } else {
        id_after(id_offset(n, (k - 1) as nat))
    }
}

/// Short of the largest `u64`, the identifiers handed out are consecutive
/// and strictly increasing: the `k`-th after `n` is `n + k`.
pub proof fn lemma_ids_consecutive(n: u64, k: nat)
    requires
        n + k <= u64::MAX,
    ensures
        id_offset(n, k) == n + k,
    decreases k,
{
    if k > 0 {
        lemma_ids_consecutive(n, (k - 1) as nat);
    }
}

impl IdAllocator {
    pub fn new() -> (ids: IdAllocator)
        ensures
            ids.next == 1,
    {
        IdAllocator { next: 1 }
    }
}

/// Takes the next identifier.
pub fn generate_uid(ids: &mut IdAllocator) -> (id: u64)
    ensures
        id == old(ids).next,
        final(ids).next == id_after(old(ids).next),
{
    let id: u64 = ids.next;
    ids.next = if id == u64::MAX { 0 } else { id + 1 };
    id
}

/// The name of a texture variant. The picture itself stays with the renderer,
/// which finds it by this name.
#[derive(Clone, Debug, PartialEq)]
pub struct NamedTexture {
    pub name: String,
}

impl NamedTexture {
    /// The placeholder that stands in for a texture that was not loaded.
    pub fn missing() -> (t: NamedTexture)
        ensures
            t.name@ == "missing"@,
    {
        NamedTexture { name: "missing".to_owned() }
    }
}

/// The texture named by entry `index` of `candidates`.
pub fn texture_at(candidates: &Vec<String>, index: usize) -> (t: NamedTexture)
    requires
        index < candidates@.len(),
    ensures
        t.name == candidates@[index as int],
{
    NamedTexture { name: candidates[index].clone() }
}

/// Picks one of `candidates` at random, entry `i` with a chance of
/// `custom_weights[i]` in a hundred. With no candidates there is nothing to
/// pick; otherwise there is one weight for each candidate and the weights
/// sum to exactly 100.
pub fn select_weighted_texture(candidates: &Vec<String>, custom_weights: Vec<u32>) -> (r: Option<
    NamedTexture,
>)
    requires
        candidates@.len() > 0 ==> custom_weights@.len() == candidates@.len() && total_weight(
            custom_weights@,
        ) == 100,
    ensures
        r.is_some() == (candidates@.len() > 0),
        r.is_some() ==> exists|i: int|
            0 <= i < candidates@.len() && r.unwrap().name == #[trigger] candidates@[i],
{
    if candidates.len() == 0 {
        return None;
    }
    let index: usize = weighted_index(&custom_weights);
    Some(texture_at(candidates, index))
}

/// A heading turned by `amount`: the amount is subtracted, because the
/// screen's y axis points down, and the result is reduced by whole turns
/// toward zero.
pub open spec fn spec_turned(rotation: i64, amount: i64) -> i64 {
    trunc_rem(spec_sat_sub(rotation, amount) as int, TAU as int) as i64
}

#[verifier::when_used_as_spec(spec_turned)]
pub fn turned(rotation: i64, amount: i64) -> (r: i64)
    ensures
        r == spec_turned(rotation, amount),
        -TAU < r < TAU,
{
    let d: i64 = sat_sub(rotation, amount);
    let q: i64 = d / TAU;
    assert(-TAU < d - TAU * q < TAU) by (nonlinear_arith)
        requires
            q == crate::fixed::trunc_div(d as int, TAU as int),
            TAU == 3_769_912,
    ;
    d - TAU * q
}

pub trait CosmicEntity: Sized {
    spec fn id(&self) -> u64;

    spec fn position(&self) -> Vec2;

    spec fn speed(&self) -> i64;

    spec fn size(&self) -> i64;

    spec fn rotation(&self) -> i64;

    /// The same entity under another identifier.
    spec fn with_id(&self, id: u64) -> Self;

    /// The same entity under another heading.
    spec fn with_rotation(&self, rotation: i64) -> Self;

    fn get_id(&self) -> (r: u64)
        ensures
            r == self.id(),
    ;

    /// A copy that differs from `self` in its identifier alone, which is
    /// freshly drawn.
    fn clone_with_new_uid(&self, ids: &mut IdAllocator) -> (r: Self)
        ensures
            r == self.with_id(old(ids).next),
            r.id() == old(ids).next,
            final(ids).next == id_after(old(ids).next),
    ;

    fn get_position(&self) -> (r: Vec2)
        ensures
            r == self.position(),
    ;

    fn get_speed(&self) -> (r: i64)
        ensures
            r == self.speed(),
    ;

    fn get_size(&self) -> (r: i64)
        ensures
            r == self.size(),
    ;

    fn get_rotation(&self) -> (r: i64)
        ensures
            r == self.rotation(),
    ;

    fn add_rotation(&mut self, amount: i64)
        ensures
            *final(self) == old(self).with_rotation(spec_turned(old(self).rotation(), amount)),
            final(self).rotation() == spec_turned(old(self).rotation(), amount),
    ;

    /// Whether the entity has left the rectangle from the origin to `bounds`.
    fn is_out_of_bounds(&self, bounds: &Vec2) -> (r: bool)
        ensures
            r == self.position().outside(*bounds),
    {
        let pos = self.get_position();
        pos.x < 0 || pos.x > bounds.x || pos.y < 0 || pos.y > bounds.y
    }

}

/// The tests between two entities, for every entity type.
pub trait Encounter: CosmicEntity {
    /// Whether the discs of the two entities overlap.
    fn collides_with<T: CosmicEntity>(&self, other: &T) -> (r: bool)
        ensures
            r == spec_overlap(self.position(), self.size(), other.position(), other.size()),
    {
        overlap(self.get_position(), self.get_size(), other.get_position(), other.get_size())
    }

    /// The position of the entity of `objects` that is nearest to `self`;
    /// of several equally near, the first.
    fn find_nearest<T: CosmicEntity>(&self, objects: &[T]) -> (r: Option<Vec2>)
        ensures
            r == nearest_of(self.position(), objects@),
            objects@.len() == 0 ==> r.is_none(),
            objects@.len() > 0 ==> exists|j: int|
                is_nearest(self.position(), objects@, j) && r == Some(
                    #[trigger] objects@[j].position(),
                ),
    {
        let pos = self.get_position();
        if objects.len() == 0 {
            return None;
        }
        let mut best: usize = 0;
        let mut best_pos: Vec2 = objects[0].get_position();
        let mut i: usize = 1;
        while i < objects.len()
            invariant
                1 <= i <= objects@.len(),
                pos == self.position(),
                best < i,
                best_pos == objects@[best as int].position(),
                is_nearest(pos, objects@.subrange(0, i as int), best as int),
            decreases objects.len() - i,
        {
            let candidate: Vec2 = objects[i].get_position();
            let ghost prefix = objects@.subrange(0, i as int);
            let ghost longer = objects@.subrange(0, i as int + 1);
            assert(forall|k: int| 0 <= k < i ==> longer[k] == prefix[k]);
            if nearer(pos, candidate, best_pos) {
                best = i;
                best_pos = candidate;
            }
            i = i + 1;
        }
        assert(objects@.subrange(0, i as int) =~= objects@);
        proof {
            let chosen = choose|j: int| is_nearest(pos, objects@, j);
            lemma_nearest_unique(pos, objects@, best as int, chosen);
        }
        Some(best_pos)
    }
}

impl<E: CosmicEntity> Encounter for E {
}

/// Whether `objects[j]` is the nearest of `objects` to `from`, the first of
/// them where several are equally near.
pub open spec fn is_nearest<T: CosmicEntity>(from: Vec2, objects: Seq<T>, j: int) -> bool {
    &&& 0 <= j < objects.len()
    &&& forall|k: int|
        0 <= k < objects.len() ==> from.dist2(objects[j].position()) <= from.dist2(
            #[trigger] objects[k].position(),
        )
    &&& forall|k: int|
        0 <= k < j ==> from.dist2(objects[j].position()) < from.dist2(
            #[trigger] objects[k].position(),
        )
}

/// The position of the entity of `objects` nearest to `from`, if there is
/// any entity.
pub open spec fn nearest_of<T: CosmicEntity>(from: Vec2, objects: Seq<T>) -> Option<Vec2> {
    if objects.len() == 0 {
        None
    } else {
        Some(objects[choose|j: int| is_nearest(from, objects, j)].position())
    }
}

/// At most one entity is the nearest.
pub proof fn lemma_nearest_unique<T: CosmicEntity>(from: Vec2, objects: Seq<T>, a: int, b: int)
    requires
        is_nearest(from, objects, a),
        is_nearest(from, objects, b),
    ensures
        a == b,
{
    if a < b {
        assert(from.dist2(objects[b].position()) < from.dist2(objects[a].position()));
        assert(from.dist2(objects[a].position()) <= from.dist2(objects[b].position()));
    } else if b < a {
        assert(from.dist2(objects[a].position()) < from.dist2(objects[b].position()));
        assert(from.dist2(objects[b].position()) <= from.dist2(objects[a].position()));
    }
}

/// A pending change to a collection of entities.
pub enum Change<T> {
    Add(T),
    Remove(u64),
}

/// `entities` without those whose identifier is `uid`, in their old order.
pub open spec fn without_id<T: CosmicEntity>(entities: Seq<T>, uid: u64) -> Seq<T>
    decreases entities.len(),
{
    if entities.len() == 0 {
        entities
    } else if entities.last().id() == uid {
        without_id(entities.drop_last(), uid)
    } else {
        without_id(entities.drop_last(), uid).push(entities.last())
    }
}

/// What a removal leaves holds no entity under the removed identifier.
pub proof fn lemma_removed_is_gone<T: CosmicEntity>(entities: Seq<T>, uid: u64)
    ensures
        forall|i: int|
            0 <= i < without_id(entities, uid).len() ==> (#[trigger] without_id(
                entities,
                uid,
            )[i]).id() != uid,
    decreases entities.len(),
{
    if entities.len() > 0 {
        lemma_removed_is_gone(entities.drop_last(), uid);
        let rest = without_id(entities.drop_last(), uid);
        let all = without_id(entities, uid);
        assert forall|i: int| 0 <= i < all.len() implies (#[trigger] all[i]).id() != uid by {
            if i < rest.len() {
                assert(all[i] == rest[i]);
            }
        }
    }
}

/// Removing an identifier that no entity has changes nothing.
pub proof fn lemma_remove_absent<T: CosmicEntity>(entities: Seq<T>, uid: u64)
    requires
        forall|i: int| 0 <= i < entities.len() ==> (#[trigger] entities[i]).id() != uid,
    ensures
        without_id(entities, uid) == entities,
    decreases entities.len(),
{
    if entities.len() > 0 {
        lemma_remove_absent(entities.drop_last(), uid);
        assert(entities.last().id() != uid);
        assert(entities.drop_last().push(entities.last()) =~= entities);
    }
}

/// Removing an identifier twice is removing it once.
pub proof fn lemma_remove_twice<T: CosmicEntity>(entities: Seq<T>, uid: u64)
    ensures
        without_id(without_id(entities, uid), uid) == without_id(entities, uid),
{
    lemma_removed_is_gone(entities, uid);
    lemma_remove_absent(without_id(entities, uid), uid);
}

/// The collection after the changes were applied in order: an added entity
/// goes to the end under the next fresh identifier, a removal drops every
/// entity with that identifier.
pub open spec fn applied<T: CosmicEntity>(entities: Seq<T>, changes: Seq<Change<T>>, next: u64) -> Seq<T>
    decreases changes.len(),
{
    if changes.len() == 0 {
        entities
    } else {
        match changes[0] {
            Change::Add(item) => applied(
                entities.push(item.with_id(next)),
                changes.skip(1),
                id_after(next),
            ),
            Change::Remove(uid) => applied(without_id(entities, uid), changes.skip(1), next),
        }
    }
}

/// The allocator's next number after the changes were applied.
pub open spec fn next_after<T>(changes: Seq<Change<T>>, next: u64) -> u64
    decreases changes.len(),
{
    if changes.len() == 0 {
        next
    } else {
        match changes[0] {
            Change::Add(_) => next_after(changes.skip(1), id_after(next)),
            Change::Remove(_) => next_after(changes.skip(1), next),
        }
    }
}

/// Drops from `vec` every entity whose identifier is `uid`.
pub fn remove_by_id<T: CosmicEntity>(vec: &mut Vec<T>, uid: u64)
    ensures
        final(vec)@ == without_id(old(vec)@, uid),
{
    let ghost orig = vec@;
    let ghost mut k: int = 0;
    let mut i: usize = 0;
    assert(vec@.subrange(0, 0) =~= without_id(orig.subrange(0, 0), uid));
    while i < vec.len()
        invariant
            0 <= i <= vec.len(),
            0 <= k <= orig.len(),
            vec.len() - i == orig.len() - k,
            vec@.subrange(0, i as int) == without_id(orig.subrange(0, k), uid),
            vec@.subrange(i as int, vec.len() as int) == orig.subrange(k, orig.len() as int),
        decreases vec.len() - i,
    {
        let ghost before = vec@;
        assert(before[i as int] == before.subrange(i as int, before.len() as int)[0]);
        assert forall|m: int| k <= m < orig.len() implies #[trigger] orig[m] == before[m - k
            + i as int] by {
            assert(before.subrange(i as int, before.len() as int)[m - k] == orig.subrange(
                k,
                orig.len() as int,
            )[m - k]);
        }
        assert(orig.subrange(0, k + 1).drop_last() =~= orig.subrange(0, k));
        assert(orig.subrange(0, k + 1).last() == orig[k]);
        if vec[i].get_id() == uid {
            vec.remove(i);
            assert(vec@.subrange(0, i as int) =~= before.subrange(0, i as int));
            assert forall|m: int| i <= m < vec.len() implies #[trigger] vec@[m] == orig[m - i as int
                + k + 1] by {
                assert(vec@[m] == before[m + 1]);
            }
            assert(vec@.subrange(i as int, vec.len() as int) =~= orig.subrange(
                k + 1,
                orig.len() as int,
            ));
        } else {
            assert(vec@.subrange(0, i as int + 1) =~= before.subrange(0, i as int).push(
                before[i as int],
            ));
            assert forall|m: int| i < m < vec.len() implies #[trigger] vec@[m] == orig[m - i as int
                + k] by {
                assert(vec@[m] == before[m]);
            }
            assert(vec@.subrange(i as int + 1, vec.len() as int) =~= orig.subrange(
                k + 1,
                orig.len() as int,
            ));
            i = i + 1;
        }
        proof {
            k = k + 1;
        }
    }
    assert(vec@.subrange(0, i as int) =~= vec@);
    assert(orig.subrange(0, k) =~= orig);
}

/// Applies the queued changes to `vec` in order and empties the queue.
pub fn apply_changes<T: CosmicEntity>(
    vec: &mut Vec<T>,
    changes: &mut Vec<Change<T>>,
    ids: &mut IdAllocator,
)
    ensures
        final(vec)@ == applied(old(vec)@, old(changes)@, old(ids).next),
        final(changes)@.len() == 0,
        final(ids).next == next_after(old(changes)@, old(ids).next),
{
    let mut i: usize = 0;
    assert(changes@.skip(0) =~= changes@);
    while i < changes.len()
        invariant
            0 <= i <= changes.len(),
            changes@ == old(changes)@,
            applied(vec@, changes@.skip(i as int), ids.next) == applied(
                old(vec)@,
                old(changes)@,
                old(ids).next,
            ),
            next_after(changes@.skip(i as int), ids.next) == next_after(
                old(changes)@,
                old(ids).next,
            ),
        decreases changes.len() - i,
    {
        assert(changes@.skip(i as int)[0] == changes@[i as int]);
        assert(changes@.skip(i as int).skip(1) =~= changes@.skip(i as int + 1));
        match &changes[i] {
            Change::Add(item) => {
                let fresh = item.clone_with_new_uid(ids);
                vec.push(fresh);
            },
            Change::Remove(uid) => {
                remove_by_id(vec, *uid);
            },
        }
        i = i + 1;
    }
    changes.clear();
}

} // verus!
