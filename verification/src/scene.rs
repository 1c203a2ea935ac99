//! The scene: a name-keyed collection of entities with insertion order kept.
//!
//! The renderer's per-entity resource table is keyed by an entity's position
//! in this collection, so iteration order is part of the contract: entities
//! are visited in the order they were first inserted, and inserting under an
//! existing name replaces the entity without moving it.

use vstd::prelude::*;

verus! {

/// Degrees in a full turn; entity rotation is kept as a whole-degree angle
/// below this.
pub const FULL_TURN_DEGREES: u32 = 360;

/// One entity, as far as the renderer's core reads it: the size of its mesh,
/// the size of its texture, and its current rotation angle. Positions,
/// matrices and pixel data stay with the application shell.
#[derive(Clone, Copy, Debug, PartialEq, Eq, Structural)]
pub struct Entity {
    pub vertex_count: u32,
    pub index_count: u32,
    pub texture_width: u32,
    pub texture_height: u32,
    pub rotation_degrees: u32,
}

impl Entity {
    /// The texture has at least one pixel on each side and the angle is a
    /// whole number of degrees below a full turn.
    pub open spec fn wf(&self) -> bool {
        &&& self.texture_width >= 1
        &&& self.texture_height >= 1
        &&& self.rotation_degrees < FULL_TURN_DEGREES
    }

    /// A new entity, not yet rotated.
    pub fn new(vertex_count: u32, index_count: u32, texture_width: u32, texture_height: u32) -> (e:
        Entity)
        requires
            texture_width >= 1,
            texture_height >= 1,
        ensures
            e.wf(),
            e.vertex_count == vertex_count,
            e.index_count == index_count,
            e.texture_width == texture_width,
            e.texture_height == texture_height,
            e.rotation_degrees == 0,
    {
        Entity { vertex_count, index_count, texture_width, texture_height, rotation_degrees: 0 }
    }

    /// One per-frame update: the entity turns one further degree about its
    /// axis, wrapping at a full turn. Nothing else changes.
    pub fn on_update(&mut self)
        requires
            old(self).rotation_degrees < FULL_TURN_DEGREES,
        ensures
            final(self).rotation_degrees == (old(self).rotation_degrees + 1) % (FULL_TURN_DEGREES as int),
            final(self).vertex_count == old(self).vertex_count,
            final(self).index_count == old(self).index_count,
            final(self).texture_width == old(self).texture_width,
            final(self).texture_height == old(self).texture_height,
            old(self).wf() ==> final(self).wf(),
    {
        if self.rotation_degrees >= FULL_TURN_DEGREES - 1 {
            self.rotation_degrees = 0;
        } else {
            self.rotation_degrees = self.rotation_degrees + 1;
        }
        proof {
            if old(self).rotation_degrees == FULL_TURN_DEGREES - 1 {
                vstd::arithmetic::div_mod::lemma_mod_self_0(FULL_TURN_DEGREES as int);
            } else {
                vstd::arithmetic::div_mod::lemma_small_mod(
                    (old(self).rotation_degrees + 1) as nat,
                    FULL_TURN_DEGREES as nat,
                );
            }
        }
    }
}

/// The scene: entities under unique names, in insertion order.
pub struct SceneGraph {
    entities_with_names: Vec<(String, Entity)>,
}

impl View for SceneGraph {
    type V = Seq<(Seq<char>, Entity)>;

    closed spec fn view(&self) -> Seq<(Seq<char>, Entity)> {
        self.entities_with_names@.map_values(|p: (String, Entity)| (p.0@, p.1))
    }
}

impl SceneGraph {
    /// Names are unique and every entity is well formed.
    pub open spec fn wf(&self) -> bool {
        &&& forall|i: int, j: int|
            0 <= i < j < self@.len() ==> self@[i].0 != self@[j].0
        &&& forall|i: int| 0 <= i < self@.len() ==> (#[trigger] self@[i].1).wf()
    }

    /// An empty scene.
    pub fn new() -> (scene: SceneGraph)
        ensures
            scene.wf(),
            scene@ == Seq::<(Seq<char>, Entity)>::empty(),
    {
        SceneGraph { entities_with_names: Vec::new() }
    }

    /// Entities in the scene.
    pub fn len(&self) -> (n: usize)
        ensures
            n == self@.len(),
    {
        self.entities_with_names.len()
    }

    /// The entity at one position of the insertion order.
    pub fn entity_at(&self, i: usize) -> (e: Entity)
        requires
            i < self@.len(),
        ensures
            e == self@[i as int].1,
    {
        self.entities_with_names[i].1
    }

    /// Inserts an entity under a name. A new name goes to the end of the
    /// order; an existing name has its entity replaced in place.
    pub fn insert(&mut self, key: &str, value: Entity)
        requires
            old(self).wf(),
            value.wf(),
        ensures
            final(self).wf(),
            (exists|k: int| 0 <= k < old(self)@.len() && old(self)@[k].0 == key@) ==> final(self)@
                == old(self)@.update(
                choose|k: int| 0 <= k < old(self)@.len() && old(self)@[k].0 == key@,
                (key@, value),
            ),
            !(exists|k: int| 0 <= k < old(self)@.len() && old(self)@[k].0 == key@) ==> final(self)@
                == old(self)@.push((key@, value)),
    {
        let key_string: String = key.to_owned();
        let mut i: usize = 0;
        while i < self.entities_with_names.len()
            invariant
                i <= self@.len(),
                self@ == old(self)@,
                old(self).wf(),
                value.wf(),
                key_string@ == key@,
                forall|j: int| 0 <= j < i ==> old(self)@[j].0 != key@,
            decreases self@.len() - i,
        {
            if self.entities_with_names[i].0 == key_string {
                self.entities_with_names.set(i, (key_string, value));
                proof {
                    assert(old(self)@[i as int].0 == key@);
                    assert(self@ =~= old(self)@.update(i as int, (key@, value)));
                    let k = choose|k: int|
                        0 <= k < old(self)@.len() && old(self)@[k].0 == key@;
                    if k != i as int {
                        if k < i as int {
                            assert(old(self)@[k].0 != old(self)@[i as int].0);
                        } else {
                            assert(old(self)@[i as int].0 != old(self)@[k].0);
                        }
                    }
                    assert(k == i as int);
                    assert forall|a: int, b: int|
                        0 <= a < b < self@.len() implies self@[a].0 != self@[b].0 by {
                        assert(self@[a].0 == old(self)@[a].0);
                        assert(self@[b].0 == old(self)@[b].0);
                    }
                    assert(self@.len() == old(self)@.len());
                    assert forall|a: int| 0 <= a < self@.len() implies (#[trigger] self@[a].1).wf()
                        by {
                        if a == i as int {
                            assert(self@[a] == (key@, value));
                            assert(self@[a].1 == value);
                            assert(value.wf());
                        } else {
                            assert(self@[a].1 == old(self)@[a].1);
                            assert((old(self)@[a].1).wf());
                        }
                    }
                }
                return ;
            }
            i = i + 1;
        }
        self.entities_with_names.push((key_string, value));
        proof {
            assert(self@ =~= old(self)@.push((key@, value)));
            assert forall|a: int, b: int|
                0 <= a < b < self@.len() implies self@[a].0 != self@[b].0 by {
                assert(self@[a].0 == old(self)@[a].0);
                if b == self@.len() - 1 {
                    assert(old(self)@[a].0 != key@);
                } else {
                    assert(self@[b].0 == old(self)@[b].0);
                }
            }
            assert forall|a: int| 0 <= a < self@.len() implies (#[trigger] self@[a].1).wf() by {
                if a == self@.len() - 1 {
                    assert(self@[a].1 == value);
                } else {
                    assert(self@[a].1 == old(self)@[a].1);
                }
            }
        }
    }

    /// One per-frame update pass: every entity is updated exactly once, in
    /// scene order, and nothing else about the scene changes.
    pub fn on_update(&mut self)
        requires
            old(self).wf(),
        ensures
            final(self).wf(),
            final(self)@.len() == old(self)@.len(),
            forall|i: int|
                0 <= i < old(self)@.len() ==> (#[trigger] final(self)@[i]).0 == old(self)@[i].0,
            forall|i: int|
                0 <= i < old(self)@.len() ==> (#[trigger] final(self)@[i]).1 == (Entity {
                    rotation_degrees: ((old(self)@[i].1.rotation_degrees + 1)
                        % (FULL_TURN_DEGREES as int)) as u32,
                    ..old(self)@[i].1
                }),
    {
        let mut i: usize = 0;
        while i < self.entities_with_names.len()
            invariant
                i <= self@.len(),
                self@.len() == old(self)@.len(),
                old(self).wf(),
                forall|j: int| 0 <= j < self@.len() ==> (#[trigger] self@[j]).0 == old(self)@[j].0,
                forall|j: int|
                    0 <= j < i ==> (#[trigger] self@[j]).1 == (Entity {
                        rotation_degrees: ((old(self)@[j].1.rotation_degrees + 1)
                            % (FULL_TURN_DEGREES as int)) as u32,
                        ..old(self)@[j].1
                    }),
                forall|j: int| i <= j < self@.len() ==> (#[trigger] self@[j]).1 == old(self)@[j].1,
            decreases self@.len() - i,
        {
            let ghost prev = self@;
            let name = self.entities_with_names[i].0.clone();
            let mut entity = self.entities_with_names[i].1;
            entity.on_update();
            self.entities_with_names.set(i, (name, entity));
            proof {
                assert(self@ =~= prev.update(i as int, (prev[i as int].0, entity)));
            }
            i = i + 1;
        }
    }
}

} // verus!
