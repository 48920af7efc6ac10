//! What holds of the scene that startup produces.
use vstd::prelude::*;
use crate::scene::{
    after_setup, camera_entity, components, eye_point, ground_entity, sphere_entity,
    startup_entities, target_point, world_up, BodyKind, ColliderShape, ComponentKind, FlyCamera,
    MeshShape, Placement, SceneEntity, Vec3i,
};

verus! {

pub open spec fn diff(a: Vec3i, b: Vec3i) -> (int, int, int) {
    (a.x - b.x, a.y - b.y, a.z - b.z)
}

pub open spec fn cross(a: (int, int, int), b: (int, int, int)) -> (int, int, int) {
    (a.1 * b.2 - a.2 * b.1, a.2 * b.0 - a.0 * b.2, a.0 * b.1 - a.1 * b.0)
}

pub open spec fn dot(a: (int, int, int), b: (int, int, int)) -> int {
    a.0 * b.0 + a.1 * b.1 + a.2 * b.2
}

/// `a` and `b` point the same way: no cross product and a positive dot product.
pub open spec fn same_direction(a: (int, int, int), b: (int, int, int)) -> bool {
    cross(a, b) == (0int, 0int, 0int) && dot(a, b) > 0
}

/// The direction an entity placed by `p` faces (-Z when not rotated).
pub open spec fn forward_axis(p: Placement) -> (int, int, int) {
    match p {
        Placement::At(_) => (0, 0, -1),
        Placement::LookAt { eye, target, .. } => diff(target, eye),
    }
}

/// A look-at rotation exists and is unique: the target is not the eye, and
/// the line of sight is not along the up direction.
pub open spec fn look_at_defined(eye: Vec3i, target: Vec3i, up: Vec3i) -> bool {
    cross(diff(target, eye), (up.x as int, up.y as int, up.z as int)) != (0int, 0int, 0int)
}

pub open spec fn camera_components() -> Set<ComponentKind> {
    set![ComponentKind::Transform, ComponentKind::Camera]
}

pub open spec fn ground_components() -> Set<ComponentKind> {
    set![ComponentKind::Transform, ComponentKind::Collider, ComponentKind::Mesh, ComponentKind::Material]
}

pub open spec fn sphere_components() -> Set<ComponentKind> {
    set![
        ComponentKind::Transform,
        ComponentKind::Collider,
        ComponentKind::RigidBody,
        ComponentKind::Restitution,
        ComponentKind::Mesh,
        ComponentKind::Material,
    ]
}

/// Startup on an empty store leaves exactly three entities, the camera, the
/// ground and the ball, each with its own set of components and no other.
pub proof fn setup_spawns_three(before: Seq<SceneEntity>)
    requires
        before.len() == 0,
    ensures
        after_setup(before).len() == 3,
        after_setup(before)[0] == camera_entity(),
        after_setup(before)[1] == ground_entity(),
        after_setup(before)[2] == sphere_entity(),
        components(after_setup(before)[0]) == camera_components(),
        components(after_setup(before)[1]) == ground_components(),
        components(after_setup(before)[2]) == sphere_components(),
{
    assert(after_setup(before) =~= startup_entities());
    assert(components(camera_entity()) =~= camera_components());
    assert(components(ground_entity()) =~= ground_components());
    assert(components(sphere_entity()) =~= sphere_components());
}

/// The ground's collision box has half-extents equal, axis by axis, to the
/// size of its render box.
pub proof fn ground_collider_matches_mesh()
    ensures
        ground_entity().collider matches Some(ColliderShape::Cuboid { half_x, half_y, half_z })
            && ground_entity().mesh matches Some(MeshShape::Box { min_x, max_x, min_y, max_y, min_z, max_z })
            && half_x == max_x - min_x
            && half_y == max_y - min_y
            && half_z == max_z - min_z,
{
}

/// The ball's collider and render mesh have the same radius, one half unit.
pub proof fn sphere_collider_matches_mesh()
    ensures
        sphere_entity().collider == Some(ColliderShape::Ball { radius: 500 }),
        sphere_entity().mesh matches Some(MeshShape::Icosphere { radius, .. }) && radius == 500,
{
}

/// The ball is dynamic with restitution 0.7; the ground is static, with no
/// rigid body and no restitution.
pub proof fn bodies_and_restitution()
    ensures
        sphere_entity().body == Some(BodyKind::Dynamic),
        sphere_entity().restitution == Some(700i64),
        ground_entity().body is None,
        ground_entity().restitution is None,
{
}

/// The camera stands at the eye point and faces the target, with world up as
/// its up reference, and that rotation is well defined.
pub proof fn camera_looks_at_target()
    ensures
        camera_entity().placement == (Placement::LookAt {
            eye: eye_point(),
            target: target_point(),
            up: world_up(),
        }),
        look_at_defined(eye_point(), target_point(), world_up()),
        same_direction(forward_axis(camera_entity().placement), diff(target_point(), eye_point())),
        camera_entity().camera == Some(FlyCamera { eye: eye_point(), target: target_point() }),
{
    let d = diff(target_point(), eye_point());
    assert(d == (3000int, -3000int, -10000int));
    assert(cross(d, d) == (0int, 0int, 0int));
    assert(dot(d, d) == 118000000int);
}

/// Startup adds the same three entities whatever the store held before, so
/// two runs on empty stores give equal stores.
pub proof fn setup_is_history_free(a: Seq<SceneEntity>, b: Seq<SceneEntity>)
    ensures
        after_setup(a).subrange(a.len() as int, a.len() + 3int) == startup_entities(),
        after_setup(a).subrange(0, a.len() as int) == a,
        a.len() == 0 && b.len() == 0 ==> after_setup(a) == after_setup(b),
{
    assert(after_setup(a).subrange(a.len() as int, a.len() + 3int) =~= startup_entities());
    assert(after_setup(a).subrange(0, a.len() as int) =~= a);
    if a.len() == 0 && b.len() == 0 {
        assert(a =~= b);
    }
}

} // verus!
