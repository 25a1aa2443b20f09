//! The frame driver: the application's whole state, advanced once per tick.
use vstd::prelude::*;

use crate::load::{combined_spec, load_stuff, poll_spec, AppState, LoadAction, LoadStatus};
use crate::spawn::{action_spec, pending_requests, spawn_count, tick_spawns, SpawnAction, Spawner};
use crate::world::{coin, Entity, EntityKind, World};

verus! {

/// Everything the per-tick logic reads and changes, owned in one place.
pub struct Game {
    pub state: AppState,
    pub spawner: Spawner,
    pub world: World,
}

/// What one tick asks of the engines.
pub struct TickReport {
    /// The loading poller's action.
    pub load: LoadAction,
    /// The spawner's action.
    pub spawn: SpawnAction,
    /// Identifiers of the coins spawned at this tick, in order.
    pub spawned: Vec<u64>,
}

impl Game {
    /// The initial state: loading, key up, nothing queued, the initial scene.
    pub fn new() -> (r: Game)
        ensures
            r.state == AppState::LoadingState,
            r.spawner == (Spawner { key_held: false, queued: 0 }),
            r.world.wf(),
            r.world.render@ == seq![
                Entity { id: 0, kind: EntityKind::Camera },
                Entity { id: 1, kind: EntityKind::Sun },
                Entity { id: 2, kind: EntityKind::Jar },
            ],
            r.world.bodies@.len() == 0,
            r.world.colliders@ == seq![2u64],
            r.world.next_id == 3,
    {
        Game { state: AppState::LoadingState, spawner: Spawner::new(), world: World::setup() }
    }

    /// One tick: polls the awaited assets (`group`, their statuses), runs the
    /// spawner on the key level and the coin mesh's status, and spawns the
    /// coins it asks for, each in the render scene and as a dynamic body.
    pub fn tick(&mut self, key_down: bool, mesh: LoadStatus, group: &Vec<LoadStatus>) -> (r:
        TickReport)
        requires
            old(self).world.wf(),
            old(self).spawner.queued < u64::MAX,
            old(self).world.next_id + old(self).spawner.queued + 1 <= u64::MAX,
        ensures
            (final(self).state, r.load) == poll_spec(old(self).state, combined_spec(group@)),
            final(self).spawner.key_held == key_down,
            final(self).spawner.queued == pending_requests(
                old(self).spawner.queued as nat,
                old(self).spawner.key_held,
                key_down,
            ) - tick_spawns(
                pending_requests(
                    old(self).spawner.queued as nat,
                    old(self).spawner.key_held,
                    key_down,
                ),
                mesh,
            ),
            r.spawn == action_spec(
                pending_requests(
                    old(self).spawner.queued as nat,
                    old(self).spawner.key_held,
                    key_down,
                ),
                mesh,
            ),
            r.spawned@.len() == spawn_count(r.spawn),
            forall|i: int|
                0 <= i < r.spawned@.len() ==> #[trigger] r.spawned@[i] == old(self).world.next_id
                    + i,
            final(self).world.next_id == old(self).world.next_id + r.spawned@.len(),
            final(self).world.bodies@ == old(self).world.bodies@ + r.spawned@,
            final(self).world.colliders@ == old(self).world.colliders@,
            final(self).world.render@ == old(self).world.render@ + r.spawned@.map_values(
                |id: u64| coin(id),
            ),
            final(self).world.wf(),
    {
        let (state, load) = load_stuff(self.state, group);
        self.state = state;
        let spawn = self.spawner.insert_coin(key_down, mesh);
        let n: u64 = match spawn {
            SpawnAction::Spawn(n) => n,
            _ => 0,
        };
        let ghost after_spawner = self.spawner;
        let mut spawned: Vec<u64> = Vec::new();
        let mut k: u64 = 0;
        while k < n
            invariant
                k <= n,
                self.state == state,
                self.spawner == after_spawner,
                n <= old(self).spawner.queued + 1,
                self.world.wf(),
                self.world.next_id == old(self).world.next_id + k,
                spawned@.len() == k,
                forall|i: int|
                    0 <= i < spawned@.len() ==> #[trigger] spawned@[i] == old(self).world.next_id
                        + i,
                self.world.bodies@ == old(self).world.bodies@ + spawned@,
                self.world.colliders@ == old(self).world.colliders@,
                self.world.render@ == old(self).world.render@ + spawned@.map_values(
                    |id: u64| coin(id),
                ),
                old(self).world.next_id + old(self).spawner.queued + 1 <= u64::MAX,
            decreases n - k,
        {
            let id = self.world.spawn_coin();
            proof {
                assert(spawned@.push(id).map_values(|id: u64| coin(id)) =~= spawned@.map_values(
                    |id: u64| coin(id),
                ).push(coin(id)));
            }
            spawned.push(id);
            k = k + 1;
        }
        TickReport { load, spawn, spawned }
    }
}

} // verus!
