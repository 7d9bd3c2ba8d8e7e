//! The entity store: enemies and towers under handles that are never reused.

use vstd::prelude::*;
use crate::assets::Visual;

verus! {

/// The category of an entity.
#[derive(Clone, Copy, Debug, PartialEq, Eq, Structural)]
pub enum Tag {
    Enemy,
    Tower,
}

/// A point of the world, each coordinate on the lattice.
#[derive(Clone, Copy, Debug, PartialEq, Eq, Structural)]
pub struct Position {
    pub x: i64,
    pub y: i64,
    pub z: i64,
}

/// One stored entity: its handle and the records attached to it.
#[derive(Clone, Copy, Debug, PartialEq, Eq, Structural)]
pub struct Entity {
    pub id: u64,
    pub tag: Tag,
    pub position: Position,
    pub visual: Visual,
}

/// The store as a mathematical value: the live entities by handle, and the handle that the
/// next spawn will get.
pub struct ArenaView {
    pub entities: Map<u64, Entity>,
    pub next_id: nat,
}

impl ArenaView {
    /// Every live entity sits under its own handle, and every handle handed out so far is
    /// below `next_id`.
    pub open spec fn wf(self) -> bool {
        forall|id: u64| #[trigger]
            self.entities.contains_key(id) ==> self.entities[id].id == id && (id as nat)
                < self.next_id
    }

    /// The handle was handed out once and its entity is gone.
    pub open spec fn retired(self, id: u64) -> bool {
        (id as nat) < self.next_id && !self.entities.contains_key(id)
    }

    /// The store after one spawn: the new entity takes the handle `next_id`.
    pub open spec fn spawn(self, tag: Tag, position: Position, visual: Visual) -> ArenaView {
        ArenaView {
            entities: self.entities.insert(
                self.next_id as u64,
                Entity { id: self.next_id as u64, tag, position, visual },
            ),
            next_id: self.next_id + 1,
        }
    }

    /// The store without the entity under `id`.
    pub open spec fn despawn(self, id: u64) -> ArenaView {
        ArenaView { entities: self.entities.remove(id), next_id: self.next_id }
    }

    /// The store with the entity under `id` moved to `position`.
    pub open spec fn relocate(self, id: u64, position: Position) -> ArenaView {
        ArenaView {
            entities: self.entities.insert(id, Entity { position, ..self.entities[id] }),
            next_id: self.next_id,
        }
    }

    /// `later` can be reached from `self`: handles only grow, and no handle that was handed
    /// out before comes to life in between.
    pub open spec fn evolves_to(self, later: ArenaView) -> bool {
        &&& self.next_id <= later.next_id
        &&& forall|id: u64|
            (id as nat) < self.next_id && #[trigger] later.entities.contains_key(id)
                ==> self.entities.contains_key(id)
    }
}

/// A store evolves to itself.
pub proof fn lemma_evolves_reflexive(a: ArenaView)
    ensures
        a.evolves_to(a),
{
}

/// What a store evolves to in two stretches it evolves to in one.
pub proof fn lemma_evolves_transitive(a: ArenaView, b: ArenaView, c: ArenaView)
    requires
        a.evolves_to(b),
        b.evolves_to(c),
    ensures
        a.evolves_to(c),
{
}

/// A handle that is retired stays retired in every store that its store evolves to: it is
/// handed out to no later entity.
pub proof fn lemma_retired_for_good(a: ArenaView, later: ArenaView, id: u64)
    requires
        a.evolves_to(later),
        a.retired(id),
    ensures
        later.retired(id),
{
}

/// Spawning, despawning and relocating a live entity are steps of that evolution.
pub proof fn lemma_steps_evolve(a: ArenaView, id: u64, tag: Tag, position: Position, visual: Visual)
    requires
        a.wf(),
        a.next_id < u64::MAX,
    ensures
        a.evolves_to(a.spawn(tag, position, visual)),
        a.evolves_to(a.despawn(id)),
        a.entities.contains_key(id) ==> a.evolves_to(a.relocate(id, position)),
        a.spawn(tag, position, visual).wf(),
        a.despawn(id).wf(),
        a.entities.contains_key(id) ==> a.relocate(id, position).wf(),
{
}

spec fn ids_increasing(s: Seq<Entity>) -> bool {
    forall|i: int, j: int| 0 <= i < j < s.len() ==> s[i].id < s[j].id
}

spec fn has_id(s: Seq<Entity>, id: u64) -> bool {
    exists|i: int| 0 <= i < s.len() && #[trigger] s[i].id == id
}

spec fn index_of(s: Seq<Entity>, id: u64) -> int {
    choose|i: int| 0 <= i < s.len() && #[trigger] s[i].id == id
}

spec fn as_map(s: Seq<Entity>) -> Map<u64, Entity> {
    Map::new(|id: u64| has_id(s, id), |id: u64| s[index_of(s, id)])
}

proof fn lemma_as_map_at(s: Seq<Entity>, i: int)
    requires
        ids_increasing(s),
        0 <= i < s.len(),
    ensures
        as_map(s).contains_key(s[i].id),
        as_map(s)[s[i].id] == s[i],
{
    let id = s[i].id;
    assert(has_id(s, id));
    let k = index_of(s, id);
    assert(0 <= k < s.len() && s[k].id == id);
    if k < i {
        assert(s[k].id < s[i].id);
    } else if i < k {
        assert(s[i].id < s[k].id);
    }
}

proof fn lemma_as_map_push(s: Seq<Entity>, e: Entity)
    requires
        ids_increasing(s),
        forall|i: int| 0 <= i < s.len() ==> (#[trigger] s[i]).id < e.id,
    ensures
        ids_increasing(s.push(e)),
        as_map(s.push(e)) == as_map(s).insert(e.id, e),
{
    let t = s.push(e);
    assert(ids_increasing(t));
    assert forall|id: u64| as_map(t).contains_key(id) <==> #[trigger] as_map(s).insert(
        e.id,
        e,
    ).contains_key(id) by {
        if has_id(t, id) {
            let k = index_of(t, id);
            if k < s.len() {
                assert(s[k].id == id);
            }
        }
        if has_id(s, id) {
            let k = index_of(s, id);
            assert(t[k].id == id);
        }
        if id == e.id {
            assert(t[s.len() as int].id == id);
        }
    }
    assert forall|id: u64| #[trigger] as_map(t).contains_key(id) implies as_map(t)[id]
        == as_map(s).insert(e.id, e)[id] by {
        let k = index_of(t, id);
        lemma_as_map_at(t, k);
        if k < s.len() {
            assert(s[k] == t[k]);
            lemma_as_map_at(s, k);
        }
    }
    assert(as_map(t) =~= as_map(s).insert(e.id, e));
}

proof fn lemma_as_map_remove(s: Seq<Entity>, i: int)
    requires
        ids_increasing(s),
        0 <= i < s.len(),
    ensures
        ids_increasing(s.remove(i)),
        as_map(s.remove(i)) == as_map(s).remove(s[i].id),
{
    let t = s.remove(i);
    assert(ids_increasing(t)) by {
        assert forall|a: int, b: int| 0 <= a < b < t.len() implies t[a].id < t[b].id by {
            let a0 = if a < i { a } else { a + 1 };
            let b0 = if b < i { b } else { b + 1 };
            assert(t[a] == s[a0] && t[b] == s[b0]);
        }
    }
    assert forall|id: u64| as_map(t).contains_key(id) <==> #[trigger] as_map(s).remove(
        s[i].id,
    ).contains_key(id) by {
        if has_id(t, id) {
            let k = index_of(t, id);
            let k0 = if k < i { k } else { k + 1 };
            assert(s[k0].id == id);
            if k0 < i {
                assert(s[k0].id < s[i].id);
            } else {
                assert(s[i].id < s[k0].id);
            }
        }
        if has_id(s, id) && id != s[i].id {
            let k = index_of(s, id);
            let k1 = if k < i { k } else { k - 1 };
            assert(t[k1].id == id);
        }
    }
    assert forall|id: u64| #[trigger] as_map(t).contains_key(id) implies as_map(t)[id]
        == as_map(s).remove(s[i].id)[id] by {
        let k = index_of(t, id);
        lemma_as_map_at(t, k);
        let k0 = if k < i { k } else { k + 1 };
        assert(t[k] == s[k0]);
        lemma_as_map_at(s, k0);
    }
    assert(as_map(t) =~= as_map(s).remove(s[i].id));
}

proof fn lemma_as_map_update(s: Seq<Entity>, i: int, e: Entity)
    requires
        ids_increasing(s),
        0 <= i < s.len(),
        e.id == s[i].id,
    ensures
        ids_increasing(s.update(i, e)),
        as_map(s.update(i, e)) == as_map(s).insert(e.id, e),
{
    let t = s.update(i, e);
    assert(ids_increasing(t)) by {
        assert forall|a: int, b: int| 0 <= a < b < t.len() implies t[a].id < t[b].id by {
            assert(t[a].id == s[a].id && t[b].id == s[b].id);
        }
    }
    assert forall|id: u64| as_map(t).contains_key(id) <==> #[trigger] as_map(s).insert(
        e.id,
        e,
    ).contains_key(id) by {
        if has_id(t, id) {
            let k = index_of(t, id);
            assert(s[k].id == id);
        }
        if has_id(s, id) {
            let k = index_of(s, id);
            assert(t[k].id == id);
        }
        if id == e.id {
            assert(t[i].id == id);
        }
    }
    assert forall|id: u64| #[trigger] as_map(t).contains_key(id) implies as_map(t)[id]
        == as_map(s).insert(e.id, e)[id] by {
        let k = index_of(t, id);
        lemma_as_map_at(t, k);
        if k != i {
            assert(t[k] == s[k]);
            lemma_as_map_at(s, k);
        }
    }
    assert(as_map(t) =~= as_map(s).insert(e.id, e));
}

/// The entity store. Entities are kept in the order of their handles, which is the order
/// in which they were spawned.
#[derive(Debug)]
pub struct Arena {
    entities: Vec<Entity>,
    next_id: u64,
}

impl View for Arena {
    type V = ArenaView;

    closed spec fn view(&self) -> ArenaView {
        ArenaView { entities: as_map(self.entities@), next_id: self.next_id as nat }
    }
}

impl Arena {
    /// The representation is sound: handles rise along the store and stay below the
    /// next one. Holds of every `Arena` that exists.
    #[verifier::type_invariant]
    pub closed spec fn inv(self) -> bool {
        &&& ids_increasing(self.entities@)
        &&& forall|i: int|
            0 <= i < self.entities@.len() ==> (#[trigger] self.entities@[i]).id < self.next_id
    }

    /// The view of a store is well formed.
    pub proof fn lemma_view_wf(self)
        requires
            self.inv(),
        ensures
            self@.wf(),
    {
        assert forall|id: u64| #[trigger] self@.entities.contains_key(id) implies {
            &&& self@.entities[id].id == id
            &&& (id as nat) < self@.next_id
        } by {
            let k = index_of(self.entities@, id);
            lemma_as_map_at(self.entities@, k);
        }
    }

    /// An empty store whose first handle is 0.
    pub fn new() -> (arena: Self)
        ensures
            arena@.entities == Map::<u64, Entity>::empty(),
            arena@.next_id == 0,
            arena@.wf(),
    {
        let arena = Arena { entities: Vec::new(), next_id: 0 };
        assert(arena@.entities =~= Map::<u64, Entity>::empty());
        arena
    }

    /// The handle that the next spawn will get.
    pub fn next_id(&self) -> (id: u64)
        ensures
            id == self@.next_id,
    {
        self.next_id
    }

    /// Whether one more entity can be spawned: false only when every handle is used up.
    pub fn has_room(&self) -> (room: bool)
        ensures
            room == (self@.next_id < u64::MAX),
    {
        self.next_id < u64::MAX
    }

    /// Position of the entity with handle `id` in the store, if it is live.
    fn find(&self, id: u64) -> (found: Option<usize>)
        ensures
            match found {
                Some(i) => i < self.entities@.len() && self.entities@[i as int].id == id,
                None => !has_id(self.entities@, id),
            },
    {
        let mut i: usize = 0;
        while i < self.entities.len()
            invariant
                i <= self.entities@.len(),
                forall|k: int| 0 <= k < i ==> (#[trigger] self.entities@[k]).id != id,
            decreases self.entities@.len() - i,
        {
            if self.entities[i].id == id {
                return Some(i);
            }
            i += 1;
        }
        None
    }

    /// The entity under `id`, or `None` when no live entity has that handle.
    pub fn get(&self, id: u64) -> (found: Option<Entity>)
        ensures
            self@.wf(),
            found == if self@.entities.contains_key(id) {
                Some(self@.entities[id])
            } else {
                None
            },
    {
        proof {
            use_type_invariant(self);
            self.lemma_view_wf();
        }
        match self.find(id) {
            Some(i) => {
                proof {
                    lemma_as_map_at(self.entities@, i as int);
                }
                Some(self.entities[i])
            },
            None => None,
        }
    }

    /// The handles of the live entities, in rising order.
    pub fn ids(&self) -> (ids: Vec<u64>)
        ensures
            self@.wf(),
            forall|i: int, j: int| 0 <= i < j < ids@.len() ==> ids@[i] < ids@[j],
            forall|id: u64| ids@.contains(id) <==> self@.entities.contains_key(id),
    {
        proof {
            use_type_invariant(self);
            self.lemma_view_wf();
        }
        let mut ids: Vec<u64> = Vec::new();
        let mut i: usize = 0;
        while i < self.entities.len()
            invariant
                i <= self.entities@.len(),
                ids@.len() == i,
                forall|k: int| 0 <= k < i ==> ids@[k] == (#[trigger] self.entities@[k]).id,
            decreases self.entities@.len() - i,
        {
            ids.push(self.entities[i].id);
            i += 1;
        }
        proof {
            assert forall|a: int, b: int| 0 <= a < b < ids@.len() implies ids@[a] < ids@[b] by {
                assert(self.entities@[a].id < self.entities@[b].id);
            }
            assert forall|id: u64| ids@.contains(id) <==> self@.entities.contains_key(id) by {
                if ids@.contains(id) {
                    let k = choose|k: int| 0 <= k < ids@.len() && ids@[k] == id;
                    assert(self.entities@[k].id == id);
                }
                if has_id(self.entities@, id) {
                    let k = index_of(self.entities@, id);
                    assert(ids@[k] == id);
                }
            }
        }
        ids
    }

    /// Adds one entity and returns its handle, which no entity had before.
    pub fn spawn(&mut self, tag: Tag, position: Position, visual: Visual) -> (id: u64)
        requires
            old(self)@.next_id < u64::MAX,
        ensures
            id == old(self)@.next_id,
            final(self)@ == old(self)@.spawn(tag, position, visual),
            old(self)@.evolves_to(final(self)@),
            final(self)@.wf(),
    {
        proof {
            use_type_invariant(&*self);
        }
        let id = self.next_id;
        let entity = Entity { id, tag, position, visual };
        proof {
            lemma_as_map_push(self.entities@, entity);
        }
        let mut entities: Vec<Entity> = Vec::new();
        std::mem::swap(&mut self.entities, &mut entities);
        entities.push(entity);
        *self = Arena { entities, next_id: id + 1 };
        proof {
            use_type_invariant(&*self);
            self.lemma_view_wf();
        }
        id
    }

    /// Removes the entity under `id` and reports whether there was one.
    pub fn despawn(&mut self, id: u64) -> (removed: bool)
        ensures
            removed == old(self)@.entities.contains_key(id),
            final(self)@ == old(self)@.despawn(id),
            old(self)@.evolves_to(final(self)@),
            final(self)@.wf(),
    {
        proof {
            use_type_invariant(&*self);
        }
        let removed = match self.find(id) {
            Some(i) => {
                proof {
                    lemma_as_map_remove(self.entities@, i as int);
                }
                let mut entities: Vec<Entity> = Vec::new();
                std::mem::swap(&mut self.entities, &mut entities);
                entities.remove(i);
                self.entities = entities;
                true
            },
            None => {
                assert(self@.entities.remove(id) =~= self@.entities);
                false
            },
        };
        proof {
            use_type_invariant(&*self);
            self.lemma_view_wf();
        }
        removed
    }

    /// Moves the entity under `id` to `position` and reports whether there was one; without
    /// one the store stays as it is.
    pub fn relocate(&mut self, id: u64, position: Position) -> (moved: bool)
        ensures
            moved == old(self)@.entities.contains_key(id),
            final(self)@ == if moved {
                old(self)@.relocate(id, position)
            } else {
                old(self)@
            },
            old(self)@.evolves_to(final(self)@),
            final(self)@.wf(),
    {
        proof {
            use_type_invariant(&*self);
        }
        let moved = match self.find(id) {
            Some(i) => {
                let entity = Entity { position, ..self.entities[i] };
                proof {
                    lemma_as_map_at(self.entities@, i as int);
                    lemma_as_map_update(self.entities@, i as int, entity);
                }
                let mut entities: Vec<Entity> = Vec::new();
                std::mem::swap(&mut self.entities, &mut entities);
                entities.set(i, entity);
                self.entities = entities;
                true
            },
            None => false,
        };
        proof {
            use_type_invariant(&*self);
            self.lemma_view_wf();
        }
        moved
    }
}

} // verus!
