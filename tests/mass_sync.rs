use mass_sync::audit::{audit, hierarchy_check, mass_check, print_masses, HierarchyMismatch};
use mass_sync::engine::{process, setup_physics, toggle_parent, unit_density_box, Command, Response};
use mass_sync::mass::{Cuboid, MassProperties, Vec3};
use mass_sync::physics::{BodyHandle, ColliderHandle, PhysicsError, PhysicsMirror};
use mass_sync::scene::{Entity, SceneError, SceneGraph};
use mass_sync::world::{ParentToggle, ReparentError, SetupError, World};

fn cube(side: i64) -> Cuboid {
    unit_density_box(side, side, side)
}

/// Two bodies A and B on entities 0 and 1; entity 2 carries a 5x5x5 cube collider attached to
/// A, is A's scene child, toggles between A and B; both bodies have cached mass properties.
fn two_body_world() -> (World, Entity, Entity, Entity, BodyHandle, BodyHandle, ColliderHandle) {
    let mut w = World::new();
    let a = w.spawn();
    let b = w.spawn();
    let child = w.spawn();
    let body_a = w.add_body(a).unwrap();
    let body_b = w.add_body(b).unwrap();
    let c = w.add_collider(child, cube(5), Some(body_a)).unwrap();
    w.set_toggle(child, ParentToggle { parent1: a, parent2: b }).unwrap();
    w.set_scene_parent(child, a).unwrap();
    w.snapshot(body_a).unwrap();
    w.snapshot(body_b).unwrap();
    (w, a, b, child, body_a, body_b, c)
}

#[test]
fn cube_mass_properties_are_exact() {
    let m = MassProperties::of_cuboid(&cube(5));
    assert_eq!(m.mass, 125);
    assert_eq!((m.moment_x, m.moment_y, m.moment_z), (0, 0, 0));
    assert_eq!((m.inertia_xx, m.inertia_yy, m.inertia_zz), (6250, 6250, 6250));
    assert_eq!((m.inertia_xy, m.inertia_xz, m.inertia_yz), (0, 0, 0));
}

#[test]
fn offset_box_gets_parallel_axis_terms() {
    let shape = Cuboid {
        size: Vec3 { x: 2, y: 4, z: 6 },
        density: 3,
        offset: Vec3 { x: 1, y: 2, z: 3 },
    };
    let m = MassProperties::of_cuboid(&shape);
    // mass 3 * 48 = 144
    assert_eq!(m.mass, 144);
    assert_eq!((m.moment_x, m.moment_y, m.moment_z), (144, 288, 432));
    // 144 * (16 + 36) + 12 * 144 * (4 + 9)
    assert_eq!(m.inertia_xx, 7488 + 22464);
    // 144 * (4 + 36) + 12 * 144 * (1 + 9)
    assert_eq!(m.inertia_yy, 5760 + 17280);
    // 144 * (4 + 16) + 12 * 144 * (1 + 4)
    assert_eq!(m.inertia_zz, 2880 + 8640);
    assert_eq!(m.inertia_xy, -12 * 144 * 2);
    assert_eq!(m.inertia_xz, -12 * 144 * 3);
    assert_eq!(m.inertia_yz, -12 * 144 * 6);
    let center = m.center_of_mass().unwrap();
    assert_eq!((center.numerator_x, center.numerator_y, center.numerator_z), (144, 288, 432));
    assert_eq!(center.denominator, 144);
}

#[test]
fn shape_validity_bounds() {
    assert!(cube(4096).is_valid());
    assert!(!cube(4097).is_valid());
    assert!(!cube(-1).is_valid());
    let heavy = Cuboid { density: 1025, ..cube(1) };
    assert!(!heavy.is_valid());
    let far = Cuboid { offset: Vec3 { x: 0, y: -4097, z: 0 }, ..cube(1) };
    assert!(!far.is_valid());
}

#[test]
fn aggregate_sums_attached_colliders() {
    let mut p = PhysicsMirror::new();
    let body = p.add_body(Entity(0));
    let left = Cuboid { offset: Vec3 { x: -2, y: 0, z: 0 }, ..cube(2) };
    let right = Cuboid { offset: Vec3 { x: 2, y: 0, z: 0 }, ..cube(2) };
    p.add_collider(Entity(1), left, Some(body)).unwrap();
    p.add_collider(Entity(2), right, Some(body)).unwrap();
    let m = p.mass_properties(body).unwrap();
    assert_eq!(m.mass, 16);
    assert_eq!(m.moment_x, 0);
    // each: 8 * (4 + 4) on xx; yy adds 12 * 8 * 4 for the x offset
    assert_eq!(m.inertia_xx, 2 * 64);
    assert_eq!(m.inertia_yy, 2 * (64 + 384));
    assert_eq!(m.center_of_mass().unwrap().numerator_x, 0);
}

#[test]
fn body_without_colliders_is_massless() {
    let mut p = PhysicsMirror::new();
    let body = p.add_body(Entity(0));
    let m = p.mass_properties(body).unwrap();
    assert_eq!(m, MassProperties::zero());
    assert_eq!(m.mass, 0);
    assert!(m.center_of_mass().is_none());
}

#[test]
fn attach_moves_contribution_between_bodies() {
    let mut p = PhysicsMirror::new();
    let a = p.add_body(Entity(0));
    let b = p.add_body(Entity(1));
    let c1 = p.add_collider(Entity(2), cube(5), Some(a)).unwrap();
    p.add_collider(Entity(3), cube(2), Some(a)).unwrap();
    assert_eq!(p.mass_properties(a).unwrap().mass, 133);
    p.attach(c1, b).unwrap();
    assert_eq!(p.attached_body(c1), Ok(Some(b)));
    assert_eq!(p.mass_properties(a).unwrap(), MassProperties::of_cuboid(&cube(2)));
    assert_eq!(p.mass_properties(b).unwrap(), MassProperties::of_cuboid(&cube(5)));
}

#[test]
fn reattaching_to_same_body_is_idempotent() {
    let mut p = PhysicsMirror::new();
    let a = p.add_body(Entity(0));
    let c = p.add_collider(Entity(1), cube(3), None).unwrap();
    p.attach(c, a).unwrap();
    let first = p.mass_properties(a).unwrap();
    p.attach(c, a).unwrap();
    assert_eq!(p.mass_properties(a).unwrap(), first);
    assert_eq!(first.mass, 27);
}

#[test]
fn attachment_order_does_not_matter() {
    let build = |first: usize| {
        let mut p = PhysicsMirror::new();
        let b = p.add_body(Entity(0));
        let shapes = [
            Cuboid { offset: Vec3 { x: 1, y: -3, z: 2 }, ..cube(3) },
            Cuboid { density: 4, offset: Vec3 { x: -5, y: 0, z: 7 }, ..cube(2) },
        ];
        let c0 = p.add_collider(Entity(1), shapes[0], None).unwrap();
        let c1 = p.add_collider(Entity(2), shapes[1], None).unwrap();
        if first == 0 {
            p.attach(c0, b).unwrap();
            p.attach(c1, b).unwrap();
        } else {
            p.attach(c1, b).unwrap();
            p.attach(c0, b).unwrap();
        }
        p.mass_properties(b).unwrap()
    };
    let one = build(0);
    assert_eq!(one, build(1));
    assert_eq!(one.mass, 27 + 32);
}

#[test]
fn physics_errors() {
    let mut p = PhysicsMirror::new();
    let a = p.add_body(Entity(0));
    assert_eq!(p.add_collider(Entity(1), cube(9000), Some(a)), Err(PhysicsError::InvalidShape));
    assert_eq!(p.add_collider(Entity(1), cube(1), Some(BodyHandle(7))), Err(PhysicsError::UnknownBody));
    let c = p.add_collider(Entity(1), cube(1), None).unwrap();
    assert_eq!(p.attached_body(c), Ok(None));
    assert_eq!(p.attach(ColliderHandle(5), a), Err(PhysicsError::UnknownCollider));
    assert_eq!(p.attach(c, BodyHandle(3)), Err(PhysicsError::UnknownBody));
    assert_eq!(p.attached_body(ColliderHandle(5)), Err(PhysicsError::UnknownCollider));
    assert_eq!(p.detach(ColliderHandle(5)), Err(PhysicsError::UnknownCollider));
    assert_eq!(p.mass_properties(BodyHandle(1)), Err(PhysicsError::UnknownBody));
    p.attach(c, a).unwrap();
    p.detach(c).unwrap();
    assert_eq!(p.attached_body(c), Ok(None));
    assert_eq!(p.mass_properties(a).unwrap().mass, 0);
}

#[test]
fn scene_graph_refuses_cycles_and_missing_entities() {
    let mut g = SceneGraph::new();
    let a = g.spawn();
    let b = g.spawn();
    let c = g.spawn();
    assert_eq!(g.set_parent(b, a), Ok(()));
    assert_eq!(g.set_parent(c, b), Ok(()));
    assert_eq!(g.parent_of(c), Some(b));
    assert_eq!(g.set_parent(a, c), Err(SceneError::InvalidParent));
    assert_eq!(g.set_parent(a, a), Err(SceneError::InvalidParent));
    assert_eq!(g.set_parent(a, Entity(9)), Err(SceneError::InvalidParent));
    assert_eq!(g.set_parent(Entity(9), a), Err(SceneError::InvalidParent));
    assert_eq!(g.parent_of(a), None);
    assert_eq!(g.parent_of(Entity(9)), None);
    // moving a subtree elsewhere is fine
    assert_eq!(g.set_parent(c, a), Ok(()));
    assert_eq!(g.parent_of(c), Some(a));
}

#[test]
fn two_body_scenario() {
    let (mut w, a, b, child, body_a, body_b, c) = two_body_world();
    assert_eq!(w.physics.mass_properties(body_a).unwrap().mass, 125);
    assert!(audit(&w).hierarchy.is_empty());
    assert!(audit(&w).mass.is_empty());

    assert_eq!(w.toggle(child), Ok(()));
    assert_eq!(w.physics.attached_body(c), Ok(Some(body_b)));
    assert_eq!(w.scene.parent_of(child), Some(b));
    assert!(hierarchy_check(&w).is_empty());

    let live_a = w.physics.mass_properties(body_a).unwrap();
    assert_eq!(live_a.mass, 0);
    let stale = mass_check(&w);
    assert_eq!(stale.len(), 2);
    assert_eq!(stale[0].body, body_a);
    assert_eq!(stale[0].cached.mass, 125);
    assert_eq!(stale[0].live, live_a);
    assert_ne!(stale[0].cached, stale[0].live);
    assert_eq!(stale[1].body, body_b);
    assert_eq!(stale[1].cached.mass, 0);
    assert_eq!(stale[1].live.mass, 125);
    let _ = a;
}

#[test]
fn skipping_the_scene_step_shows_a_hierarchy_mismatch() {
    let (mut w, a, b, child, _body_a, body_b, c) = two_body_world();
    w.attach_collider(c, body_b).unwrap();
    let reports = hierarchy_check(&w);
    assert_eq!(
        reports,
        vec![HierarchyMismatch { entity: child, scene_parent: Some(a), physics_owner: Some(b) }]
    );
}

#[test]
fn toggle_twice_restores_both_graphs() {
    let (mut w, a, _b, child, body_a, _body_b, c) = two_body_world();
    assert_eq!(w.toggle(child), Ok(()));
    assert_eq!(w.toggle(child), Ok(()));
    assert_eq!(w.physics.attached_body(c), Ok(Some(body_a)));
    assert_eq!(w.scene.parent_of(child), Some(a));
    assert_eq!(w.physics.mass_properties(body_a).unwrap().mass, 125);
    assert!(audit(&w).mass.is_empty());
}

#[test]
fn toggle_rolls_back_when_scene_refuses() {
    let mut w = World::new();
    let a = w.spawn();
    let e = w.spawn();
    let b = w.spawn();
    let body_a = w.add_body(a).unwrap();
    w.add_body(b).unwrap();
    let c = w.add_collider(e, cube(1), Some(body_a)).unwrap();
    w.set_toggle(e, ParentToggle { parent1: a, parent2: b }).unwrap();
    w.set_scene_parent(e, a).unwrap();
    // b sits below e, so e cannot become b's child
    w.set_scene_parent(b, e).unwrap();
    assert_eq!(w.toggle(e), Err(ReparentError::ReparentFailed));
    assert_eq!(w.physics.attached_body(c), Ok(Some(body_a)));
    assert_eq!(w.scene.parent_of(e), Some(a));
}

#[test]
fn toggle_errors() {
    let mut w = World::new();
    let a = w.spawn();
    let b = w.spawn();
    let e = w.spawn();
    let f = w.spawn();
    assert_eq!(w.toggle(Entity(10)), Err(ReparentError::UnknownEntity));
    assert_eq!(w.toggle(e), Err(ReparentError::UnknownEntity));
    w.set_toggle(e, ParentToggle { parent1: a, parent2: b }).unwrap();
    assert_eq!(w.toggle(e), Err(ReparentError::UnknownCollider));
    w.add_collider(e, cube(1), None).unwrap();
    // detached collider: the target is parent1, which has no body yet
    assert_eq!(w.toggle(e), Err(ReparentError::UnknownBody));
    let body_a = w.add_body(a).unwrap();
    assert_eq!(w.toggle(e), Ok(()));
    assert_eq!(w.physics.attached_body(ColliderHandle(0)), Ok(Some(body_a)));
    assert_eq!(w.scene.parent_of(e), Some(a));
    let _ = f;
}

#[test]
fn setup_errors() {
    let mut w = World::new();
    let a = w.spawn();
    assert_eq!(w.add_body(Entity(3)), Err(SetupError::UnknownEntity));
    w.add_body(a).unwrap();
    assert_eq!(w.add_body(a), Err(SetupError::AlreadyHasBody));
    assert_eq!(w.add_collider(Entity(3), cube(1), None), Err(SetupError::UnknownEntity));
    w.add_collider(a, cube(1), None).unwrap();
    assert_eq!(w.add_collider(a, cube(1), None), Err(SetupError::AlreadyHasCollider));
    let e = w.spawn();
    assert_eq!(
        w.add_collider(e, cube(5000), None),
        Err(SetupError::Physics(PhysicsError::InvalidShape))
    );
    assert_eq!(
        w.set_toggle(e, ParentToggle { parent1: a, parent2: Entity(8) }),
        Err(SetupError::UnknownEntity)
    );
    assert_eq!(w.snapshot(BodyHandle(4)), Err(PhysicsError::UnknownBody));
}

#[test]
fn demonstration_scene() {
    let mut w = setup_physics();
    assert_eq!(w.scene.parent_of(Entity(4)), Some(Entity(2)));
    assert_eq!(w.physics.attached_body(ColliderHandle(1)), Ok(Some(BodyHandle(1))));
    assert_eq!(w.physics.attached_body(ColliderHandle(0)), Ok(None));
    assert_eq!(w.physics.mass_properties(BodyHandle(1)).unwrap().mass, 8000);
    assert!(print_masses(&w).mass.is_empty());
    assert!(print_masses(&w).hierarchy.is_empty());
    assert!(hierarchy_check(&w).is_empty());
    assert_eq!(w.toggles[4], Some(ParentToggle { parent1: Entity(2), parent2: Entity(3) }));
    assert!(w.toggles[..4].iter().all(|t| t.is_none()));
    assert_eq!(w.body_of, vec![None, Some(BodyHandle(0)), Some(BodyHandle(1)), Some(BodyHandle(2)), None]);
    assert_eq!(w.collider_of, vec![Some(ColliderHandle(0)), None, None, None, Some(ColliderHandle(1))]);

    let failures = toggle_parent(&mut w);
    assert!(failures.is_empty());
    assert_eq!(w.scene.parent_of(Entity(4)), Some(Entity(3)));
    assert_eq!(w.physics.attached_body(ColliderHandle(1)), Ok(Some(BodyHandle(2))));
    let report = print_masses(&w);
    assert!(report.hierarchy.is_empty());
    let stale = report.mass;
    assert_eq!(stale.len(), 2);
    assert_eq!(stale[0].body, BodyHandle(1));
    assert_eq!(stale[0].cached.mass, 8000);
    assert_eq!(stale[0].live.mass, 0);
    assert_eq!(stale[1].body, BodyHandle(2));
    assert_eq!(stale[1].live.mass, 8000);
}

#[test]
fn commands_run_to_completion() {
    let mut w = setup_physics();
    match process(&mut w, Command::Toggle(Entity(4))) {
        Response::Toggled(r) => assert_eq!(r, Ok(())),
        _ => panic!("expected a toggle response"),
    }
    match process(&mut w, Command::Audit) {
        Response::Audited(report) => {
            assert!(report.hierarchy.is_empty());
            assert_eq!(report.mass.len(), 2);
        }
        _ => panic!("expected an audit response"),
    }
    match process(&mut w, Command::ToggleAll) {
        Response::ToggledAll(f) => assert!(f.is_empty()),
        _ => panic!("expected a toggle-all response"),
    }
    assert_eq!(w.scene.parent_of(Entity(4)), Some(Entity(2)));
    match process(&mut w, Command::Toggle(Entity(0))) {
        Response::Toggled(r) => assert_eq!(r, Err(ReparentError::UnknownEntity)),
        _ => panic!("expected a toggle response"),
    }
}

#[test]
fn audit_request_reports_physics_only_move() {
    let mut w = setup_physics();
    w.attach_collider(ColliderHandle(1), BodyHandle(2)).unwrap();
    let report = print_masses(&w);
    assert_eq!(
        report.hierarchy,
        vec![HierarchyMismatch {
            entity: Entity(4),
            scene_parent: Some(Entity(2)),
            physics_owner: Some(Entity(3)),
        }]
    );
    assert_eq!(report.mass.len(), 2);
}

#[test]
fn inertia_about_center_of_mass() {
    let centered = MassProperties::of_cuboid(&cube(5)).inertia_at_center().unwrap();
    assert_eq!((centered.xx, centered.yy, centered.zz), (125 * 6250, 125 * 6250, 125 * 6250));
    assert_eq!((centered.xy, centered.xz, centered.yz), (0, 0, 0));
    // an offset box about its own center: the parallel-axis terms cancel
    let shape = Cuboid {
        size: Vec3 { x: 2, y: 4, z: 6 },
        density: 3,
        offset: Vec3 { x: 1, y: 2, z: 3 },
    };
    let t = MassProperties::of_cuboid(&shape).inertia_at_center().unwrap();
    assert_eq!((t.xx, t.yy, t.zz), (144 * 7488, 144 * 5760, 144 * 2880));
    assert_eq!((t.xy, t.xz, t.yz), (0, 0, 0));
    let massless = MassProperties::zero().inertia_at_center().unwrap();
    assert_eq!(massless.xx, 0);
    let huge = MassProperties { mass: 1i128 << 59, ..MassProperties::zero() };
    assert!(huge.inertia_at_center().is_none());
}

#[test]
fn two_boxes_about_their_common_center() {
    let mut p = PhysicsMirror::new();
    let body = p.add_body(Entity(0));
    p.add_collider(Entity(1), Cuboid { offset: Vec3 { x: -2, y: 0, z: 0 }, ..cube(2) }, Some(body)).unwrap();
    p.add_collider(Entity(2), Cuboid { offset: Vec3 { x: 2, y: 0, z: 0 }, ..cube(2) }, Some(body)).unwrap();
    let t = p.mass_properties(body).unwrap().inertia_at_center().unwrap();
    // the center is the origin, so this is mass times the origin tensor
    assert_eq!((t.xx, t.yy, t.zz), (16 * 128, 16 * 896, 16 * 896));
}

#[test]
fn toggling_two_entities_commutes() {
    let build = || {
        let mut w = World::new();
        let a = w.spawn();
        let b = w.spawn();
        let e1 = w.spawn();
        let e2 = w.spawn();
        let body_a = w.add_body(a).unwrap();
        w.add_body(b).unwrap();
        for (e, side) in [(e1, 5), (e2, 2)] {
            w.add_collider(e, cube(side), Some(body_a)).unwrap();
            w.set_toggle(e, ParentToggle { parent1: a, parent2: b }).unwrap();
            w.set_scene_parent(e, a).unwrap();
        }
        (w, e1, e2)
    };
    let (mut w12, e1, e2) = build();
    w12.toggle(e1).unwrap();
    w12.toggle(e2).unwrap();
    let (mut w21, _, _) = build();
    w21.toggle(e2).unwrap();
    w21.toggle(e1).unwrap();
    for body in [BodyHandle(0), BodyHandle(1)] {
        assert_eq!(w12.physics.mass_properties(body), w21.physics.mass_properties(body));
    }
    assert_eq!(w12.physics.mass_properties(BodyHandle(1)).unwrap().mass, 133);
    assert_eq!(w12.scene.parents, w21.scene.parents);
    assert_eq!(hierarchy_check(&w12), hierarchy_check(&w21));
}
