use rapier2d::prelude::{
    CCDSolver, ColliderBuilder, ColliderSet, DefaultBroadPhase, ImpulseJointSet,
    IntegrationParameters, IslandManager, MultibodyJointSet, NarrowPhase, PhysicsPipeline,
    RigidBodyBuilder, RigidBodyHandle, RigidBodySet, Vector,
};
use robot_link::keys::{key_action, KeyAction};
use robot_link::layout::{
    arrange_row, field_seeds, meters_to_pixels, radius_mm, row_slot, BodyKind, BodySeed,
    ROBOT_COUNT,
};

#[test]
fn row_of_six_increases_in_x_at_one_y() {
    let row = arrange_row(6);
    assert_eq!(row.len(), 6);
    for i in 1..row.len() {
        assert!(row[i - 1].x < row[i].x);
        assert_eq!(row[i - 1].y, row[i].y);
    }
    let xs: Vec<u64> = row.iter().map(|s| s.x).collect();
    assert_eq!(xs, vec![60, 120, 180, 240, 300, 360]);
    assert!(row.iter().all(|s| s.y == 40 && s.kind == BodyKind::Robot));
}

#[test]
fn empty_row_has_no_robots() {
    assert!(arrange_row(0).is_empty());
}

#[test]
fn row_slot_matches_row() {
    assert_eq!(row_slot(3), BodySeed { kind: BodyKind::Robot, x: 240, y: 40 });
    assert_eq!(arrange_row(4)[3], row_slot(3));
}

#[test]
fn field_has_ball_then_robots() {
    let seeds = field_seeds(ROBOT_COUNT);
    assert_eq!(seeds.len(), 7);
    assert_eq!(seeds[0], BodySeed { kind: BodyKind::Ball, x: 150, y: 250 });
    assert_eq!(seeds[1], BodySeed { kind: BodyKind::Robot, x: 60, y: 40 });
    assert_eq!(seeds[6], BodySeed { kind: BodyKind::Robot, x: 360, y: 40 });
}

#[test]
fn radii_in_millimetres() {
    assert_eq!(radius_mm(BodyKind::Robot), 200);
    assert_eq!(radius_mm(BodyKind::Ball), 45);
}

#[test]
fn whole_meters_to_pixels() {
    assert_eq!(meters_to_pixels(3), 300);
    assert_eq!(meters_to_pixels(-2), -200);
    assert_eq!(meters_to_pixels(0), 0);
}

#[test]
fn keys_map_to_actions() {
    assert_eq!(key_action('w'), KeyAction::Up);
    assert_eq!(key_action('s'), KeyAction::Down);
    assert_eq!(key_action('a'), KeyAction::Left);
    assert_eq!(key_action('d'), KeyAction::Right);
    assert_eq!(key_action('q'), KeyAction::Quit);
    assert_eq!(key_action('x'), KeyAction::Ignore);
    assert_eq!(key_action('W'), KeyAction::Ignore);
    assert_eq!(KeyAction::Quit.label(), "Quit");
    assert_eq!(KeyAction::Left.label(), "Left");
    assert_eq!(KeyAction::Ignore.label(), "");
}

struct World {
    pipeline: PhysicsPipeline,
    params: IntegrationParameters,
    islands: IslandManager,
    broad_phase: DefaultBroadPhase,
    narrow_phase: NarrowPhase,
    bodies: RigidBodySet,
    colliders: ColliderSet,
    impulse_joints: ImpulseJointSet,
    multibody_joints: MultibodyJointSet,
    ccd: CCDSolver,
}

fn world() -> World {
    World {
        pipeline: PhysicsPipeline::new(),
        params: IntegrationParameters::default(),
        islands: IslandManager::new(),
        broad_phase: DefaultBroadPhase::new(),
        narrow_phase: NarrowPhase::new(),
        bodies: RigidBodySet::new(),
        colliders: ColliderSet::new(),
        impulse_joints: ImpulseJointSet::new(),
        multibody_joints: MultibodyJointSet::new(),
        ccd: CCDSolver::new(),
    }
}

fn create(w: &mut World, seed: BodySeed) -> RigidBodyHandle {
    let rb = RigidBodyBuilder::dynamic()
        .translation(Vector::new(seed.x as f32, seed.y as f32))
        .build();
    let handle = w.bodies.insert(rb);
    let collider = ColliderBuilder::ball(radius_mm(seed.kind) as f32 / 1000.0).build();
    w.colliders.insert_with_parent(collider, handle, &mut w.bodies);
    handle
}

fn step(w: &mut World, gravity: Vector<f32>) {
    w.pipeline.step(
        &gravity,
        &w.params,
        &mut w.islands,
        &mut w.broad_phase,
        &mut w.narrow_phase,
        &mut w.bodies,
        &mut w.colliders,
        &mut w.impulse_joints,
        &mut w.multibody_joints,
        &mut w.ccd,
        None,
        &(),
        &(),
    );
}

fn position(w: &World, h: RigidBodyHandle) -> Option<(f32, f32)> {
    w.bodies.get(h).map(|rb| (rb.translation().x, rb.translation().y))
}

#[test]
fn created_body_sits_at_its_seed() {
    let mut w = world();
    let handles: Vec<_> = field_seeds(ROBOT_COUNT).into_iter().map(|s| (s, create(&mut w, s))).collect();
    for (seed, h) in handles {
        assert_eq!(position(&w, h), Some((seed.x as f32, seed.y as f32)));
    }
}

#[test]
fn step_without_gravity_keeps_bodies_still() {
    let mut w = world();
    let handles: Vec<_> = field_seeds(ROBOT_COUNT).into_iter().map(|s| (s, create(&mut w, s))).collect();
    step(&mut w, Vector::new(0.0, 0.0));
    for (seed, h) in handles {
        assert_eq!(position(&w, h), Some((seed.x as f32, seed.y as f32)));
    }
}

#[test]
fn steps_under_gravity_follow_free_fall() {
    let mut w = world();
    let h = create(&mut w, BodySeed { kind: BodyKind::Ball, x: 150, y: 250 });
    let g = -9.81f32;
    let n = 60;
    for _ in 0..n {
        step(&mut w, Vector::new(0.0, g));
    }
    let dt = w.params.dt;
    let t = n as f32 * dt;
    let (x, y) = position(&w, h).unwrap();
    let expected = 250.0 + 0.5 * g * t * t;
    assert_eq!(x, 150.0);
    assert!((y - expected).abs() < 0.1, "y = {}, expected about {}", y, expected);
}
