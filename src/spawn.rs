//! The spawner: a key press requests one coin; requests wait until the coin's
//! mesh is available and are then served all at once.
use vstd::prelude::*;

use crate::load::LoadStatus;

verus! {

/// State the spawner keeps between ticks.
#[derive(Clone, Copy, Debug, PartialEq, Eq, Structural)]
pub struct Spawner {
    /// Whether the spawn key was down at the previous tick.
    pub key_held: bool,
    /// Requests made while the mesh was not available, not served yet.
    pub queued: u64,
}

/// What the spawner asks of its caller at one tick.
#[derive(Clone, Copy, Debug, PartialEq, Eq, Structural)]
pub enum SpawnAction {
    /// No request is outstanding.
    Idle,
    /// Spawn this many coins now.
    Spawn(u64),
    /// Requests are outstanding and the mesh is not available yet.
    Deferred,
    /// Requests are outstanding and the mesh failed to load; they stay queued.
    MeshFailed,
}

/// Number of coins that a spawner's action spawns.
pub open spec fn spawn_count(a: SpawnAction) -> nat {
    match a {
        SpawnAction::Spawn(n) => n as nat,
        _ => 0,
    }
}

/// The key level after a run of ticks that started from the level `held`.
pub open spec fn last_level(held: bool, keys: Seq<bool>) -> bool {
    if keys.len() == 0 {
        held
    } else {
        keys.last()
    }
}

/// A press is the key going down while it was up at the previous tick.
pub open spec fn is_press(held: bool, down: bool) -> bool {
    down && !held
}

/// Requests outstanding at a tick: those queued before, and one for a press.
pub open spec fn pending_requests(queued: nat, held: bool, down: bool) -> nat {
    queued + if is_press(held, down) {
        1nat
    } else {
        0nat
    }
}

/// Coins spawned at a tick with `pending` outstanding requests: all of them
/// when the mesh is available, none otherwise.
pub open spec fn tick_spawns(pending: nat, mesh: LoadStatus) -> nat {
    if mesh == LoadStatus::Loaded {
        pending
    } else {
        0
    }
}

/// The action reported at a tick with `pending` outstanding requests.
pub open spec fn action_spec(pending: nat, mesh: LoadStatus) -> SpawnAction {
    if pending == 0 {
        SpawnAction::Idle
    } else {
        match mesh {
            LoadStatus::Loaded => SpawnAction::Spawn(pending as u64),
            LoadStatus::Failed => SpawnAction::MeshFailed,
            _ => SpawnAction::Deferred,
        }
    }
}

/// Number of presses in a sequence of key levels, one per tick, starting
/// from the level `held`.
pub open spec fn presses(held: bool, keys: Seq<bool>) -> nat
    decreases keys.len(),
{
    if keys.len() == 0 {
        0
    } else {
        (if is_press(held, keys[0]) {
            1nat
        } else {
            0nat
        }) + presses(keys[0], keys.drop_first())
    }
}

/// Coins spawned over a run of ticks, given the key level and the mesh's
/// status at each tick.
pub open spec fn spawned_over(
    queued: nat,
    held: bool,
    keys: Seq<bool>,
    meshes: Seq<LoadStatus>,
) -> nat
    decreases keys.len(),
{
    if keys.len() == 0 || meshes.len() == 0 {
        0
    } else {
        let p = pending_requests(queued, held, keys[0]);
        let n = tick_spawns(p, meshes[0]);
        n + spawned_over((p - n) as nat, keys[0], keys.drop_first(), meshes.drop_first())
    }
}

/// Requests still queued after a run of ticks.
pub open spec fn queued_after(
    queued: nat,
    held: bool,
    keys: Seq<bool>,
    meshes: Seq<LoadStatus>,
) -> nat
    decreases keys.len(),
{
    if keys.len() == 0 || meshes.len() == 0 {
        queued
    } else {
        let p = pending_requests(queued, held, keys[0]);
        let n = tick_spawns(p, meshes[0]);
        queued_after((p - n) as nat, keys[0], keys.drop_first(), meshes.drop_first())
    }
}

impl Spawner {
    /// A spawner with the key up and nothing queued.
    pub fn new() -> (r: Spawner)
        ensures
            !r.key_held,
            r.queued == 0,
    {
        Spawner { key_held: false, queued: 0 }
    }

    /// One tick of the spawner, given whether the spawn key is down and the
    /// status of the coin's mesh. A press adds one request; when the mesh is
    /// available every outstanding request is served, otherwise they stay
    /// queued for a later tick.
    pub fn insert_coin(&mut self, key_down: bool, mesh: LoadStatus) -> (r: SpawnAction)
        requires
            old(self).queued < u64::MAX,
        ensures
            final(self).key_held == key_down,
            final(self).queued == pending_requests(
                old(self).queued as nat,
                old(self).key_held,
                key_down,
            ) - tick_spawns(
                pending_requests(old(self).queued as nat, old(self).key_held, key_down),
                mesh,
            ),
            r == action_spec(
                pending_requests(old(self).queued as nat, old(self).key_held, key_down),
                mesh,
            ),
            spawn_count(r) == spawned_over(
                old(self).queued as nat,
                old(self).key_held,
                seq![key_down],
                seq![mesh],
            ),
            final(self).queued == queued_after(
                old(self).queued as nat,
                old(self).key_held,
                seq![key_down],
                seq![mesh],
            ),
            spawn_count(r) + final(self).queued == old(self).queued + presses(
                old(self).key_held,
                seq![key_down],
            ),
    {
        proof {
            lemma_one_tick(self.queued as nat, self.key_held, key_down, mesh);
        }
        let pending: u64 = if key_down && !self.key_held {
            self.queued + 1
        } else {
            self.queued
        };
        self.key_held = key_down;
        if pending == 0 {
            self.queued = 0;
            return SpawnAction::Idle;
        }
        match mesh {
            LoadStatus::Loaded => {
                self.queued = 0;
                SpawnAction::Spawn(pending)
            },
            LoadStatus::Failed => {
                self.queued = pending;
                SpawnAction::MeshFailed
            },
            _ => {
                self.queued = pending;
                SpawnAction::Deferred
            },
        }
    }
}

/// Every request is served once or is still queued: over any run of ticks,
/// the coins spawned and the requests left add up to the requests queued at
/// the start and one per press. So a press spawns at most one coin.
pub proof fn lemma_one_spawn_per_press(
    queued: nat,
    held: bool,
    keys: Seq<bool>,
    meshes: Seq<LoadStatus>,
)
    requires
        keys.len() == meshes.len(),
    ensures
        spawned_over(queued, held, keys, meshes) + queued_after(queued, held, keys, meshes)
            == queued + presses(held, keys),
    decreases keys.len(),
{
    if keys.len() > 0 {
        let p = pending_requests(queued, held, keys[0]);
        let n = tick_spawns(p, meshes[0]);
        lemma_one_spawn_per_press((p - n) as nat, keys[0], keys.drop_first(), meshes.drop_first());
    }
}

/// A run of one tick spawns the coins of that tick and leaves the requests
/// it does not serve.
pub proof fn lemma_one_tick(queued: nat, held: bool, key: bool, mesh: LoadStatus)
    ensures
        spawned_over(queued, held, seq![key], seq![mesh]) == tick_spawns(
            pending_requests(queued, held, key),
            mesh,
        ),
        queued_after(queued, held, seq![key], seq![mesh]) == pending_requests(queued, held, key)
            - tick_spawns(pending_requests(queued, held, key), mesh),
        presses(held, seq![key]) == if is_press(held, key) {
            1nat
        } else {
            0nat
        },
{
    let p = pending_requests(queued, held, key);
    let n = tick_spawns(p, mesh);
    assert(seq![key].drop_first() =~= Seq::<bool>::empty());
    assert(seq![mesh].drop_first() =~= Seq::<LoadStatus>::empty());
    assert(spawned_over((p - n) as nat, key, Seq::<bool>::empty(), Seq::<LoadStatus>::empty())
        == 0);
    assert(queued_after((p - n) as nat, key, Seq::<bool>::empty(), Seq::<LoadStatus>::empty())
        == (p - n) as nat);
    assert(presses(key, Seq::<bool>::empty()) == 0);
}

/// A run of ticks followed by one more tick: the coins it spawns, the
/// requests it leaves and the presses it sees are those of the run, and then
/// those of the last tick, which starts from what the run left.
pub proof fn lemma_run_then_tick(
    queued: nat,
    held: bool,
    keys: Seq<bool>,
    meshes: Seq<LoadStatus>,
    key: bool,
    mesh: LoadStatus,
)
    requires
        keys.len() == meshes.len(),
    ensures
        spawned_over(queued, held, keys.push(key), meshes.push(mesh)) == spawned_over(
            queued,
            held,
            keys,
            meshes,
        ) + spawned_over(
            queued_after(queued, held, keys, meshes),
            last_level(held, keys),
            seq![key],
            seq![mesh],
        ),
        queued_after(queued, held, keys.push(key), meshes.push(mesh)) == queued_after(
            queued_after(queued, held, keys, meshes),
            last_level(held, keys),
            seq![key],
            seq![mesh],
        ),
        presses(held, keys.push(key)) == presses(held, keys) + presses(
            last_level(held, keys),
            seq![key],
        ),
    decreases keys.len(),
{
    if keys.len() == 0 {
        assert(keys.push(key) =~= seq![key]);
        assert(meshes.push(mesh) =~= seq![mesh]);
    } else {
        let ks = keys.push(key);
        let ms = meshes.push(mesh);
        let p = pending_requests(queued, held, keys[0]);
        let n = tick_spawns(p, meshes[0]);
        let rest_k = keys.drop_first();
        let rest_m = meshes.drop_first();
        assert(ks[0] == keys[0]);
        assert(ms[0] == meshes[0]);
        assert(ks.drop_first() =~= rest_k.push(key));
        assert(ms.drop_first() =~= rest_m.push(mesh));
        assert(last_level(keys[0], rest_k) == last_level(held, keys));
        assert(queued_after(queued, held, keys, meshes) == queued_after(
            (p - n) as nat,
            keys[0],
            rest_k,
            rest_m,
        ));
        assert(spawned_over(queued, held, keys, meshes) == n + spawned_over(
            (p - n) as nat,
            keys[0],
            rest_k,
            rest_m,
        ));
        assert(spawned_over(queued, held, ks, ms) == n + spawned_over(
            (p - n) as nat,
            keys[0],
            rest_k.push(key),
            rest_m.push(mesh),
        ));
        assert(queued_after(queued, held, ks, ms) == queued_after(
            (p - n) as nat,
            keys[0],
            rest_k.push(key),
            rest_m.push(mesh),
        ));
        assert(presses(held, ks) == (if is_press(held, keys[0]) {
            1nat
        } else {
            0nat
        }) + presses(keys[0], rest_k.push(key)));
        lemma_run_then_tick((p - n) as nat, keys[0], rest_k, rest_m, key, mesh);
    }
}

/// Holding the key down makes no request: with the key already down and kept
/// down, a run spawns no coin beyond the requests queued before it.
pub proof fn lemma_holding_key_spawns_nothing_new(
    queued: nat,
    keys: Seq<bool>,
    meshes: Seq<LoadStatus>,
)
    requires
        keys.len() == meshes.len(),
        forall|i: int| 0 <= i < keys.len() ==> keys[i],
    ensures
        presses(true, keys) == 0,
        spawned_over(queued, true, keys, meshes) <= queued,
    decreases keys.len(),
{
    if keys.len() > 0 {
        let rest = keys.drop_first();
        assert forall|i: int| 0 <= i < rest.len() implies rest[i] by {
            assert(rest[i] == keys[i + 1]);
        }
        let p = pending_requests(queued, true, keys[0]);
        let n = tick_spawns(p, meshes[0]);
        lemma_holding_key_spawns_nothing_new((p - n) as nat, rest, meshes.drop_first());
    }
    lemma_one_spawn_per_press(queued, true, keys, meshes);
}

} // verus!
