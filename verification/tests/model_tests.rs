//! Unit tests for the verified model: settle decisions, coordinate
//! transforms, the standard initial conditions, and world bookkeeping.

use ball_settle::conditions::InitialConditions;
use ball_settle::geometry::{Pose, Vec2Fix};
use ball_settle::mapper::{
    scale_polyline, scaled_radius, sim_to_normalized, normalized_to_sim, sync_render_transform,
    visual_rotation_offset, BoxSpec,
};
use ball_settle::pose_index::PoseIndex;
use ball_settle::settle::{SettleConfig, SettleRunner, SettleState};
use ball_settle::world::{Activation, Material, PhysicsWorld};

fn mat() -> Material {
    Material { friction_milli: 900, restitution_milli: 900 }
}

fn quick_config() -> SettleConfig {
    SettleConfig { dt_micros: 1000, debounce_micros: 0, max_steps: 10 }
}

/// Builds a settled world with the given final poses and freezes it.
fn settled_index(poses: &[(i64, i64, i64)]) -> PoseIndex {
    let mut w = PhysicsWorld::new();
    for &(x, y, rot) in poses {
        let id = w.add_dynamic_body(Vec2Fix { x, y }, 300, mat());
        w.set_pose(id, Pose { position: Vec2Fix { x, y }, rotation: rot });
    }
    w.record_activation(&vec![]);
    let mut runner = SettleRunner::new(quick_config());
    let st = runner.observe_step(0);
    assert_eq!(st, SettleState::Settled);
    PoseIndex::from_settled_world(&w, &runner)
}

#[test]
fn settle_waits_for_debounce_window() {
    let cfg = SettleConfig { dt_micros: 1000, debounce_micros: 3000, max_steps: 100 };
    let mut r = SettleRunner::new(cfg);
    // The active set reads empty from the start, but the equilibrium test
    // must not be trusted before 3 ms of simulated time have elapsed.
    assert_eq!(r.observe_step(0), SettleState::Running);
    assert_eq!(r.observe_step(0), SettleState::Running);
    assert_eq!(r.observe_step(0), SettleState::Settled);
    assert_eq!(r.steps, 3);
}

#[test]
fn settle_requires_empty_active_set() {
    let cfg = SettleConfig { dt_micros: 1000, debounce_micros: 0, max_steps: 100 };
    let mut r = SettleRunner::new(cfg);
    assert_eq!(r.observe_step(5), SettleState::Running);
    assert_eq!(r.observe_step(1), SettleState::Running);
    assert_eq!(r.observe_step(0), SettleState::Settled);
}

#[test]
fn settle_gives_up_at_iteration_ceiling() {
    let cfg = SettleConfig { dt_micros: 1000, debounce_micros: 0, max_steps: 4 };
    let mut r = SettleRunner::new(cfg);
    assert_eq!(r.observe_step(2), SettleState::Running);
    assert_eq!(r.observe_step(2), SettleState::Running);
    assert_eq!(r.observe_step(2), SettleState::Running);
    assert_eq!(r.observe_step(2), SettleState::DidNotSettle);
}

#[test]
fn settle_wins_over_ceiling_on_the_last_step() {
    let cfg = SettleConfig { dt_micros: 1000, debounce_micros: 0, max_steps: 2 };
    let mut r = SettleRunner::new(cfg);
    assert_eq!(r.observe_step(1), SettleState::Running);
    assert_eq!(r.observe_step(0), SettleState::Settled);
}

#[test]
fn world_assigns_dense_ids_in_creation_order() {
    let mut w = PhysicsWorld::new();
    for i in 0..5usize {
        let id = w.add_dynamic_body(Vec2Fix { x: i as i64 * 1000, y: 5000 }, 300, mat());
        assert_eq!(id, i);
    }
    assert_eq!(w.body_count(), 5);
}

#[test]
fn world_boundary_is_immutable_once_created() {
    let mut w = PhysicsWorld::new();
    let verts = vec![Vec2Fix { x: -50000, y: 0 }, Vec2Fix { x: 50000, y: 0 }];
    assert!(w.add_boundary(verts.clone(), mat()));
    assert!(!w.add_boundary(verts, mat()));
}

#[test]
fn world_activation_mirrors_the_reported_active_set() {
    let mut w = PhysicsWorld::new();
    for i in 0..4i64 {
        w.add_dynamic_body(Vec2Fix { x: i * 1000, y: 0 }, 300, mat());
    }
    w.record_activation(&vec![1, 3]);
    assert_eq!(w.activation(0), Activation::Sleeping);
    assert_eq!(w.activation(1), Activation::Active);
    assert_eq!(w.activation(2), Activation::Sleeping);
    assert_eq!(w.activation(3), Activation::Active);
    w.record_activation(&vec![]);
    assert_eq!(w.activation(1), Activation::Sleeping);
    assert_eq!(w.activation(3), Activation::Sleeping);
}

#[test]
fn world_lists_active_ids_in_increasing_order() {
    let mut w = PhysicsWorld::new();
    for i in 0..5i64 {
        w.add_dynamic_body(Vec2Fix { x: i * 1000, y: 0 }, 300, mat());
    }
    // Bodies start awake.
    assert_eq!(w.active_ids(), vec![0, 1, 2, 3, 4]);
    w.record_activation(&vec![4, 0, 2]);
    assert_eq!(w.active_ids(), vec![0, 2, 4]);
    w.record_activation(&vec![]);
    assert_eq!(w.active_ids(), Vec::<usize>::new());
}

#[test]
fn pose_index_has_one_entry_per_body_no_gaps() {
    let idx = settled_index(&[(1000, 300, 10), (2000, 300, -20), (3000, 300, 0)]);
    assert_eq!(idx.len(), 3);
    for id in 0..3usize {
        assert!(idx.get(id).is_some());
    }
    assert!(idx.get(3).is_none());
    assert!(idx.get(1000).is_none());
}

#[test]
fn pose_index_returns_the_frozen_poses() {
    let idx = settled_index(&[(1000, 300, 10), (2000, 400, -20)]);
    let p0 = idx.get(0).unwrap();
    assert_eq!(p0.position, Vec2Fix { x: 1000, y: 300 });
    assert_eq!(p0.rotation, 10);
    let p1 = idx.get(1).unwrap();
    assert_eq!(p1.position, Vec2Fix { x: 2000, y: 400 });
    assert_eq!(p1.rotation, -20);
}

#[test]
fn normalization_is_exact_and_unclamped() {
    let b = BoxSpec { origin: Vec2Fix { x: -5000, y: -17000 }, size: 10000 };
    let (nx, ny) = sim_to_normalized(Vec2Fix { x: 0, y: -16760 }, &b);
    assert_eq!((nx.num, nx.den), (5000, 10000));
    assert_eq!((ny.num, ny.den), (240, 10000));
    // Outside the box nothing is clamped: the rational simply leaves [0, 1].
    let (ox, _) = sim_to_normalized(Vec2Fix { x: -6000, y: 0 }, &b);
    assert!(ox.num < 0);
}

#[test]
fn normalized_center_lies_in_unit_square_for_in_box_positions() {
    let b = BoxSpec { origin: Vec2Fix { x: -5000, y: -17000 }, size: 10000 };
    // The box corners and an interior point land in [0, 1] exactly.
    for p in [
        Vec2Fix { x: -5000, y: -17000 },
        Vec2Fix { x: 5000, y: -7000 },
        Vec2Fix { x: 0, y: -12000 },
    ] {
        let (nx, ny) = sim_to_normalized(p, &b);
        assert!(0 <= nx.num && nx.num <= nx.den);
        assert!(0 <= ny.num && ny.num <= ny.den);
    }
}

#[test]
fn normalization_round_trips() {
    let b = BoxSpec { origin: Vec2Fix { x: -5000, y: -17000 }, size: 10000 };
    let p = Vec2Fix { x: 1234, y: -9876 };
    let (nx, ny) = sim_to_normalized(p, &b);
    assert_eq!(normalized_to_sim(nx, ny, &b), p);
}

#[test]
fn scaled_radius_is_radius_over_box_size() {
    let b = BoxSpec { origin: Vec2Fix { x: 0, y: 0 }, size: 10000 };
    let r = scaled_radius(240, &b);
    assert_eq!((r.num, r.den), (240, 10000));
}

#[test]
fn rotation_offset_negates_the_settled_rotation() {
    assert_eq!(visual_rotation_offset(1234), -1234);
    assert_eq!(visual_rotation_offset(-500), 500);
    assert_eq!(visual_rotation_offset(0), 0);
}

#[test]
fn render_transform_scales_position_and_offsets_rotation() {
    let sim = Pose { position: Vec2Fix { x: 1500, y: -2000 }, rotation: 700 };
    let t = sync_render_transform(sim, 20, -700);
    assert_eq!(t.position, Vec2Fix { x: 30000, y: -40000 });
    assert_eq!(t.rotation, 0);
}

#[test]
fn polyline_scaling_is_uniform_and_exact() {
    let verts = vec![Vec2Fix { x: -30000, y: 17000 }, Vec2Fix { x: 5000, y: -7000 }];
    let scaled = scale_polyline(&verts, 20);
    assert_eq!(scaled.len(), 2);
    assert_eq!(scaled[0], Vec2Fix { x: -600000, y: 340000 });
    assert_eq!(scaled[1], Vec2Fix { x: 100000, y: -140000 });
}

#[test]
fn standard_conditions_have_450_balls_in_two_grids() {
    let c = InitialConditions::default();
    assert_eq!(c.ball_positions.len(), 450);
    assert_eq!(c.ball_radius, 240);
    assert_eq!(c.box_size, 10000);
    assert_eq!(c.box_lower_left, Vec2Fix { x: -5000, y: -17000 });
    // First pair: lower-left of each grid's spread (row -7, col -7).
    assert_eq!(c.ball_positions[0], Vec2Fix { x: -21640, y: 11140 });
    assert_eq!(c.ball_positions[1], Vec2Fix { x: 21640, y: 11140 });
    // Last pair: row 7, col 7.
    assert_eq!(c.ball_positions[448], Vec2Fix { x: -28360, y: 17860 });
    assert_eq!(c.ball_positions[449], Vec2Fix { x: 28360, y: 17860 });
    // Center pair: row 0, col 0 sits at the grid centers.
    assert_eq!(c.ball_positions[224], Vec2Fix { x: -25000, y: 14500 });
    assert_eq!(c.ball_positions[225], Vec2Fix { x: 25000, y: 14500 });
}

#[test]
fn standard_conditions_wall_is_the_funnel() {
    let c = InitialConditions::default();
    assert_eq!(c.wall_vertices.len(), 8);
    assert_eq!(c.wall_vertices[0], Vec2Fix { x: -30000, y: 17000 });
    assert_eq!(c.wall_vertices[3], Vec2Fix { x: -5000, y: -17000 });
    assert_eq!(c.wall_vertices[7], Vec2Fix { x: 30000, y: 17000 });
    assert_eq!(c.wall_friction_milli, 500);
    assert_eq!(c.wall_restitution_milli, 600);
    assert_eq!(c.ball_friction_milli, 900);
    assert_eq!(c.ball_restitution_milli, 900);
}
