//! The startup scene: a fly camera, a static ground slab and a bouncing ball.
//!
//! Lengths and coefficients are fixed-point integers in thousandths of a
//! world unit, so that the scene can be described and reasoned about exactly;
//! the host engine receives them divided by `MILLI`.
use vstd::prelude::*;

verus! {

/// Fixed-point scale: one world unit is `MILLI` steps.
pub const MILLI: i64 = 1000;

/// A point or direction in world space, in thousandths of a unit.
#[derive(Clone, Copy, Debug, PartialEq, Eq, Structural)]
pub struct Vec3i {
    pub x: i64,
    pub y: i64,
    pub z: i64,
}

/// Where an entity stands and which way it faces.
#[derive(Clone, Copy, Debug, PartialEq, Eq, Structural)]
pub enum Placement {
    /// Translation only, identity rotation.
    At(Vec3i),
    /// Placed at `eye`, rotated so that its forward axis points at `target`
    /// while its up axis stays as close to `up` as possible.
    LookAt { eye: Vec3i, target: Vec3i, up: Vec3i },
}

/// A fly-camera controller with the controller's default settings, steering
/// a camera from `eye` towards `target`.
#[derive(Clone, Copy, Debug, PartialEq, Eq, Structural)]
pub struct FlyCamera {
    pub eye: Vec3i,
    pub target: Vec3i,
}

/// A collision shape, in thousandths.
#[derive(Clone, Copy, Debug, PartialEq, Eq, Structural)]
pub enum ColliderShape {
    /// An axis-aligned box given by its half-extents.
    Cuboid { half_x: i64, half_y: i64, half_z: i64 },
    Ball { radius: i64 },
}

/// A render mesh, in thousandths.
#[derive(Clone, Copy, Debug, PartialEq, Eq, Structural)]
pub enum MeshShape {
    /// An axis-aligned box given by its bounds.
    Box { min_x: i64, max_x: i64, min_y: i64, max_y: i64, min_z: i64, max_z: i64 },
    /// A sphere approximated by a subdivided icosahedron.
    Icosphere { radius: i64, subdivisions: u32 },
}

/// The base colour of a material.
#[derive(Clone, Copy, Debug, PartialEq, Eq, Structural)]
pub enum BaseColor {
    White,
    Indigo,
}

/// How the physics simulation moves a body.
#[derive(Clone, Copy, Debug, PartialEq, Eq, Structural)]
pub enum BodyKind {
    Dynamic,
}

/// One entity as spawned: its transform and the components attached to it.
#[derive(Clone, Copy, Debug, PartialEq, Eq, Structural)]
pub struct SceneEntity {
    pub placement: Placement,
    /// A 3D camera, driven by a fly-camera controller.
    pub camera: Option<FlyCamera>,
    pub collider: Option<ColliderShape>,
    pub body: Option<BodyKind>,
    /// Restitution coefficient, in thousandths.
    pub restitution: Option<i64>,
    pub mesh: Option<MeshShape>,
    pub material: Option<BaseColor>,
}

/// The kinds of component an entity can carry.
#[derive(Clone, Copy, Debug, PartialEq, Eq, Structural)]
pub enum ComponentKind {
    Transform,
    Camera,
    Collider,
    RigidBody,
    Restitution,
    Mesh,
    Material,
}

/// The set of component kinds attached to `e`.
pub open spec fn components(e: SceneEntity) -> Set<ComponentKind> {
    set![ComponentKind::Transform]
        .union(if e.camera.is_some() { set![ComponentKind::Camera] } else { Set::empty() })
        .union(if e.collider.is_some() { set![ComponentKind::Collider] } else { Set::empty() })
        .union(if e.body.is_some() { set![ComponentKind::RigidBody] } else { Set::empty() })
        .union(
            if e.restitution.is_some() { set![ComponentKind::Restitution] } else { Set::empty() },
        )
        .union(if e.mesh.is_some() { set![ComponentKind::Mesh] } else { Set::empty() })
        .union(if e.material.is_some() { set![ComponentKind::Material] } else { Set::empty() })
}

pub open spec fn vec3(x: i64, y: i64, z: i64) -> Vec3i {
    Vec3i { x, y, z }
}

/// The camera's eye point: (-3, 3, 10).
pub open spec fn eye_point() -> Vec3i {
    vec3((-3000) as i64, 3000, 10000)
}

/// The point the camera looks at: the origin.
pub open spec fn target_point() -> Vec3i {
    vec3(0, 0, 0)
}

/// World up: +Y.
pub open spec fn world_up() -> Vec3i {
    vec3(0, 1000, 0)
}

pub open spec fn camera_entity() -> SceneEntity {
    SceneEntity {
        placement: Placement::LookAt { eye: eye_point(), target: target_point(), up: world_up() },
        camera: Some(FlyCamera { eye: eye_point(), target: target_point() }),
        collider: None,
        body: None,
        restitution: None,
        mesh: None,
        material: None,
    }
}

/// A 100 x 0.1 x 100 slab, 2 units below the origin.
pub open spec fn ground_entity() -> SceneEntity {
    SceneEntity {
        placement: Placement::At(vec3(0, (-2000) as i64, 0)),
        camera: None,
        collider: Some(ColliderShape::Cuboid { half_x: 100000, half_y: 100, half_z: 100000 }),
        body: None,
        restitution: None,
        mesh: Some(
            MeshShape::Box {
                min_x: (-50000) as i64,
                max_x: 50000,
                min_y: (-50) as i64,
                max_y: 50,
                min_z: (-50000) as i64,
                max_z: 50000,
            },
        ),
        material: Some(BaseColor::White),
    }
}

/// A dynamic ball of radius 0.5 and restitution 0.7, 4 units above the origin.
pub open spec fn sphere_entity() -> SceneEntity {
    SceneEntity {
        placement: Placement::At(vec3(0, 4000, 0)),
        camera: None,
        collider: Some(ColliderShape::Ball { radius: 500 }),
        body: Some(BodyKind::Dynamic),
        restitution: Some(700),
        mesh: Some(MeshShape::Icosphere { radius: 500, subdivisions: 5 }),
        material: Some(BaseColor::Indigo),
    }
}

/// The entities that startup adds, in spawn order.
pub open spec fn startup_entities() -> Seq<SceneEntity> {
    seq![camera_entity(), ground_entity(), sphere_entity()]
}

/// What a store holds after startup, given what it held before.
pub open spec fn after_setup(before: Seq<SceneEntity>) -> Seq<SceneEntity> {
    before + startup_entities()
}

/// The engine's entity store, as far as this scene writes into it.
/// An entity's identifier is its position in spawn order.
pub struct SceneStore {
    entities: Vec<SceneEntity>,
}

impl View for SceneStore {
    type V = Seq<SceneEntity>;

    closed spec fn view(&self) -> Seq<SceneEntity> {
        self.entities@
    }
}

impl SceneStore {
    pub fn new() -> (r: SceneStore)
        ensures
            r@ == Seq::<SceneEntity>::empty(),
    {
        SceneStore { entities: Vec::new() }
    }

    pub fn len(&self) -> (r: usize)
        ensures
            r == self@.len(),
    {
        self.entities.len()
    }

    /// The entity with identifier `id`, if there is one.
    pub fn get(&self, id: usize) -> (r: Option<SceneEntity>)
        ensures
            id < self@.len() ==> r == Some(self@[id as int]),
            id >= self@.len() ==> r is None,
    {
        if id < self.entities.len() {
            Some(self.entities[id])
        } else {
            None
        }
    }

    /// Adds `e` and returns its identifier.
    pub fn spawn(&mut self, e: SceneEntity) -> (id: usize)
        ensures
            final(self)@ == old(self)@.push(e),
            id == old(self)@.len(),
    {
        let id = self.entities.len();
        self.entities.push(e);
        id
    }
}

impl Vec3i {
    pub fn new(x: i64, y: i64, z: i64) -> (r: Vec3i)
        ensures
            r == vec3(x, y, z),
    {
        Vec3i { x, y, z }
    }
}

pub fn eye() -> (r: Vec3i)
    ensures
        r == eye_point(),
{
    Vec3i::new(-3 * MILLI, 3 * MILLI, 10 * MILLI)
}

pub fn target() -> (r: Vec3i)
    ensures
        r == target_point(),
{
    Vec3i::new(0, 0, 0)
}

pub fn up() -> (r: Vec3i)
    ensures
        r == world_up(),
{
    Vec3i::new(0, MILLI, 0)
}

/// Spawns the camera, the ground and the ball into `store`, in that order.
pub fn setup(store: &mut SceneStore)
    ensures
        final(store)@ == after_setup(old(store)@),
{
    let eye = eye();
    let target = target();
    store.spawn(
        SceneEntity {
            placement: Placement::LookAt { eye, target, up: up() },
            camera: Some(FlyCamera { eye, target }),
            collider: None,
            body: None,
            restitution: None,
            mesh: None,
            material: None,
        },
    );

    store.spawn(
        SceneEntity {
            placement: Placement::At(Vec3i::new(0, -2 * MILLI, 0)),
            camera: None,
            collider: Some(
                ColliderShape::Cuboid { half_x: 100 * MILLI, half_y: MILLI / 10, half_z: 100 * MILLI },
            ),
            body: None,
            restitution: None,
            mesh: Some(
                MeshShape::Box {
                    min_x: -50 * MILLI,
                    max_x: 50 * MILLI,
                    min_y: -MILLI / 20,
                    max_y: MILLI / 20,
                    min_z: -50 * MILLI,
                    max_z: 50 * MILLI,
                },
            ),
            material: Some(BaseColor::White),
        },
    );

    store.spawn(
        SceneEntity {
            placement: Placement::At(Vec3i::new(0, 4 * MILLI, 0)),
            camera: None,
            collider: Some(ColliderShape::Ball { radius: MILLI / 2 }),
            body: Some(BodyKind::Dynamic),
            restitution: Some(7 * MILLI / 10),
            mesh: Some(MeshShape::Icosphere { radius: MILLI / 2, subdivisions: 5 }),
            material: Some(BaseColor::Indigo),
        },
    );
    assert(final(store)@ =~= after_setup(old(store)@));
}

} // verus!
