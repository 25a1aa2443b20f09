//! The entities of the scene: what the renderer shows, and which of them are
//! static colliders or dynamic bodies of the physics world.
use vstd::prelude::*;

verus! {

/// What a render entity shows.
#[derive(Clone, Copy, Debug, PartialEq, Eq, Structural)]
pub enum EntityKind {
    /// The camera looking at the jar.
    Camera,
    /// The directional light that casts shadows.
    Sun,
    /// The jar model, fixed at the origin, whose walls are a static collider.
    Jar,
    /// A coin model, which falls as a dynamic body.
    Coin,
}

/// A render entity.
#[derive(Clone, Copy, Debug, PartialEq, Eq, Structural)]
pub struct Entity {
    /// Identifier, shared with the dynamic body that moves it, if any.
    pub id: u64,
    pub kind: EntityKind,
}

/// The render entity of a coin with the given identifier.
pub open spec fn coin(id: u64) -> Entity {
    Entity { id, kind: EntityKind::Coin }
}

/// The render entity of a jar with the given identifier.
pub open spec fn jar(id: u64) -> Entity {
    Entity { id, kind: EntityKind::Jar }
}

/// The render scene and the dynamic bodies of the physics world.
pub struct World {
    /// Render entities, in the order they were spawned.
    pub render: Vec<Entity>,
    /// Identifiers of the dynamic bodies, in the order they were spawned.
    pub bodies: Vec<u64>,
    /// Identifiers of the static colliders, which never move.
    pub colliders: Vec<u64>,
    /// The identifier the next spawned entity gets.
    pub next_id: u64,
}

impl World {
    /// Identifiers are below `next_id` and unique in each list, every dynamic
    /// body has a render entity (the coin that shares its identifier), and
    /// every static collider has one too (the jar that shares it).
    pub open spec fn wf(&self) -> bool {
        &&& forall|i: int| 0 <= i < self.render@.len() ==> self.render@[i].id < self.next_id
        &&& forall|i: int, j: int|
            0 <= i < j < self.render@.len() ==> self.render@[i].id != self.render@[j].id
        &&& forall|i: int| 0 <= i < self.bodies@.len() ==> self.bodies@[i] < self.next_id
        &&& forall|i: int, j: int|
            0 <= i < j < self.bodies@.len() ==> self.bodies@[i] != self.bodies@[j]
        &&& forall|i: int|
            0 <= i < self.bodies@.len() ==> self.render@.contains(#[trigger] coin(self.bodies@[i]))
        &&& forall|i: int| 0 <= i < self.colliders@.len() ==> self.colliders@[i] < self.next_id
        &&& forall|i: int, j: int|
            0 <= i < j < self.colliders@.len() ==> self.colliders@[i] != self.colliders@[j]
        &&& forall|i: int|
            0 <= i < self.colliders@.len() ==> self.render@.contains(
                #[trigger] jar(self.colliders@[i]),
            )
    }

    /// The initial scene: a camera, a light and the jar, the jar also a static
    /// collider, and no dynamic body.
    pub fn setup() -> (r: World)
        ensures
            r.wf(),
            r.render@ == seq![
                Entity { id: 0, kind: EntityKind::Camera },
                Entity { id: 1, kind: EntityKind::Sun },
                Entity { id: 2, kind: EntityKind::Jar },
            ],
            r.bodies@.len() == 0,
            r.colliders@ == seq![2u64],
            r.next_id == 3,
    {
        let mut render: Vec<Entity> = Vec::new();
        render.push(Entity { id: 0, kind: EntityKind::Camera });
        render.push(Entity { id: 1, kind: EntityKind::Sun });
        render.push(Entity { id: 2, kind: EntityKind::Jar });
        let mut colliders: Vec<u64> = Vec::new();
        colliders.push(2);
        let r = World { render, bodies: Vec::new(), colliders, next_id: 3 };
        assert(r.render@[2] == jar(2));
        r
    }

    /// Spawns one coin, as a render entity and as a dynamic body under one
    /// fresh identifier, which it returns.
    pub fn spawn_coin(&mut self) -> (id: u64)
        requires
            old(self).wf(),
            old(self).next_id < u64::MAX,
        ensures
            id == old(self).next_id,
            final(self).next_id == id + 1,
            final(self).render@ == old(self).render@.push(coin(id)),
            final(self).bodies@ == old(self).bodies@.push(id),
            final(self).colliders@ == old(self).colliders@,
            final(self).wf(),
    {
        let id = self.next_id;
        self.render.push(Entity { id, kind: EntityKind::Coin });
        self.bodies.push(id);
        self.next_id = id + 1;
        proof {
            let w = *self;
            assert forall|i: int| 0 <= i < w.bodies@.len() implies w.render@.contains(
                #[trigger] coin(w.bodies@[i]),
            ) by {
                if i < w.bodies@.len() - 1 {
                    let j = choose|j: int|
                        0 <= j < old(self).render@.len() && old(self).render@[j] == coin(
                            old(self).bodies@[i],
                        );
                    assert(w.render@[j] == coin(w.bodies@[i]));
                } else {
                    assert(w.render@[w.render@.len() - 1] == coin(w.bodies@[i]));
                }
            }
            assert forall|i: int| 0 <= i < w.colliders@.len() implies w.render@.contains(
                #[trigger] jar(w.colliders@[i]),
            ) by {
                let j = choose|j: int|
                    0 <= j < old(self).render@.len() && old(self).render@[j] == jar(
                        old(self).colliders@[i],
                    );
                assert(w.render@[j] == jar(w.colliders@[i]));
            }
        }
        id
    }
}

} // verus!
