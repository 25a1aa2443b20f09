use coin_jar::game::Game;
use coin_jar::load::{AppState, LoadAction, LoadStatus};
use coin_jar::spawn::SpawnAction;
use coin_jar::world::{Entity, EntityKind, World};

#[test]
fn setup_spawns_camera_light_and_jar() {
    let w = World::setup();
    assert_eq!(
        w.render,
        vec![
            Entity { id: 0, kind: EntityKind::Camera },
            Entity { id: 1, kind: EntityKind::Sun },
            Entity { id: 2, kind: EntityKind::Jar },
        ]
    );
    assert!(w.bodies.is_empty());
    assert_eq!(w.colliders, vec![2]);
    assert_eq!(w.next_id, 3);
}

#[test]
fn new_game_holds_the_initial_scene() {
    let g = Game::new();
    assert_eq!(g.state, AppState::LoadingState);
    assert_eq!(g.world.render.len(), 3);
    assert_eq!(g.world.render[0].kind, EntityKind::Camera);
    assert_eq!(g.world.render[1].kind, EntityKind::Sun);
    assert_eq!(g.world.render[2], Entity { id: 2, kind: EntityKind::Jar });
    assert_eq!(g.world.colliders, vec![2]);
    assert!(g.world.bodies.is_empty());
}

#[test]
fn spawned_coin_is_body_and_render_entity() {
    let mut w = World::setup();
    let id = w.spawn_coin();
    assert_eq!(id, 3);
    assert_eq!(w.bodies, vec![3]);
    assert_eq!(w.render[3], Entity { id: 3, kind: EntityKind::Coin });
    assert_eq!(w.next_id, 4);
    assert_eq!(w.colliders, vec![2]);
    assert_eq!(w.spawn_coin(), 4);
}

#[test]
fn press_with_resolved_mesh_adds_one_entity() {
    let mut g = Game::new();
    let group = vec![LoadStatus::Loaded, LoadStatus::Loaded];
    let r = g.tick(true, LoadStatus::Loaded, &group);
    assert_eq!(r.spawn, SpawnAction::Spawn(1));
    assert_eq!(r.spawned, vec![3]);
    assert_eq!(g.world.bodies, vec![3]);
    assert_eq!(g.world.render.len(), 4);
    assert_eq!(
        g.world.render.iter().filter(|e| e.id == 3).count(),
        1
    );
    assert_eq!(g.world.render[3].kind, EntityKind::Coin);
    let r = g.tick(true, LoadStatus::Loaded, &group);
    assert!(r.spawned.is_empty());
    assert_eq!(g.world.bodies.len(), 1);
}

#[test]
fn game_leaves_loading_when_assets_load() {
    let mut g = Game::new();
    let r = g.tick(false, LoadStatus::Loading, &vec![LoadStatus::Loading, LoadStatus::Loaded]);
    assert_eq!(r.load, LoadAction::Wait);
    assert_eq!(g.state, AppState::LoadingState);
    let r = g.tick(false, LoadStatus::Loaded, &vec![LoadStatus::Loaded, LoadStatus::Loaded]);
    assert_eq!(r.load, LoadAction::EnterMain);
    assert_eq!(g.state, AppState::MainState);
    let r = g.tick(false, LoadStatus::Loaded, &vec![LoadStatus::Loaded, LoadStatus::Loaded]);
    assert_eq!(r.load, LoadAction::Idle);
}

#[test]
fn queued_presses_spawn_when_mesh_resolves() {
    let mut g = Game::new();
    let group = vec![LoadStatus::Loading];
    g.tick(true, LoadStatus::Loading, &group);
    g.tick(false, LoadStatus::Loading, &group);
    g.tick(true, LoadStatus::Loading, &group);
    assert!(g.world.bodies.is_empty());
    let r = g.tick(false, LoadStatus::Loaded, &group);
    assert_eq!(r.spawned, vec![3, 4]);
    assert_eq!(g.world.bodies, vec![3, 4]);
    assert_eq!(g.spawner.queued, 0);
}
