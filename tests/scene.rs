use scene_bootstrap::scene::{
    eye, setup, target, up, BaseColor, BodyKind, ColliderShape, FlyCamera, MeshShape, Placement,
    SceneStore, Vec3i, MILLI,
};

fn setup_fresh() -> SceneStore {
    let mut store = SceneStore::new();
    setup(&mut store);
    store
}

#[test]
fn setup_spawns_exactly_three_entities() {
    let store = setup_fresh();
    assert_eq!(store.len(), 3);
    assert!(store.get(3).is_none());
    let camera = store.get(0).unwrap();
    assert!(camera.camera.is_some());
    assert!(camera.collider.is_none() && camera.mesh.is_none() && camera.material.is_none());
    assert!(camera.body.is_none() && camera.restitution.is_none());
    let ground = store.get(1).unwrap();
    assert!(ground.camera.is_none() && ground.collider.is_some());
    assert!(ground.mesh.is_some() && ground.material == Some(BaseColor::White));
    let sphere = store.get(2).unwrap();
    assert!(sphere.camera.is_none() && sphere.collider.is_some() && sphere.body.is_some());
    assert!(sphere.restitution.is_some() && sphere.mesh.is_some());
    assert_eq!(sphere.material, Some(BaseColor::Indigo));
}

#[test]
fn ground_collider_half_extents_equal_mesh_size() {
    let ground = setup_fresh().get(1).unwrap();
    let (hx, hy, hz) = match ground.collider {
        Some(ColliderShape::Cuboid { half_x, half_y, half_z }) => (half_x, half_y, half_z),
        other => panic!("unexpected collider {:?}", other),
    };
    match ground.mesh {
        Some(MeshShape::Box { min_x, max_x, min_y, max_y, min_z, max_z }) => {
            assert_eq!(hx, max_x - min_x);
            assert_eq!(hy, max_y - min_y);
            assert_eq!(hz, max_z - min_z);
            assert_eq!((min_y, max_y), (-50, 50));
        }
        other => panic!("unexpected mesh {:?}", other),
    }
    assert_eq!((hx, hy, hz), (100 * MILLI, 100, 100 * MILLI));
    assert_eq!(ground.placement, Placement::At(Vec3i { x: 0, y: -2000, z: 0 }));
}

#[test]
fn sphere_collider_radius_matches_mesh() {
    let sphere = setup_fresh().get(2).unwrap();
    assert_eq!(sphere.collider, Some(ColliderShape::Ball { radius: 500 }));
    assert_eq!(sphere.mesh, Some(MeshShape::Icosphere { radius: 500, subdivisions: 5 }));
    assert_eq!(sphere.placement, Placement::At(Vec3i { x: 0, y: 4000, z: 0 }));
}

#[test]
fn sphere_bounces_and_ground_is_static() {
    let store = setup_fresh();
    let sphere = store.get(2).unwrap();
    let ground = store.get(1).unwrap();
    assert_eq!(sphere.restitution, Some(700));
    assert_eq!(sphere.body, Some(BodyKind::Dynamic));
    assert_eq!(ground.restitution, None);
    assert_eq!(ground.body, None);
}

#[test]
fn camera_stands_at_eye_and_faces_target() {
    let camera = setup_fresh().get(0).unwrap();
    let eye_point = Vec3i { x: -3000, y: 3000, z: 10000 };
    let origin = Vec3i { x: 0, y: 0, z: 0 };
    assert_eq!(eye(), eye_point);
    assert_eq!(target(), origin);
    assert_eq!(up(), Vec3i { x: 0, y: 1000, z: 0 });
    match camera.placement {
        Placement::LookAt { eye, target, up } => {
            assert_eq!(eye, eye_point);
            assert_eq!(target, origin);
            assert_eq!(up, Vec3i { x: 0, y: 1000, z: 0 });
            let forward = (target.x - eye.x, target.y - eye.y, target.z - eye.z);
            assert_eq!(forward, (3000, -3000, -10000));
        }
        other => panic!("camera is not looking at anything: {:?}", other),
    }
    assert_eq!(camera.camera, Some(FlyCamera { eye: eye_point, target: origin }));
}

#[test]
fn setup_on_fresh_stores_is_repeatable() {
    let a = setup_fresh();
    let b = setup_fresh();
    assert_eq!(a.len(), b.len());
    for i in 0..a.len() {
        assert_eq!(a.get(i), b.get(i));
    }
}

#[test]
fn setup_appends_after_existing_entities() {
    let mut store = SceneStore::new();
    let first = setup_fresh().get(2).unwrap();
    assert_eq!(store.spawn(first), 0);
    setup(&mut store);
    assert_eq!(store.len(), 4);
    let fresh = setup_fresh();
    for i in 0..3 {
        assert_eq!(store.get(i + 1), fresh.get(i));
    }
}
