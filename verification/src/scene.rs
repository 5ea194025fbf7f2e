use vstd::prelude::*;
use crate::geometry::{Vertex, Pose};
use crate::mesh::Mesh;

verus! {

/// One placed copy of a mesh: the index of the mesh in the scene's mesh
/// list, and the pose at which it stands.
#[derive(Clone, Copy, PartialEq, Eq, Structural, Debug)]
pub struct Instance {
    pub asset_mesh_index: usize,
    pub pose: Pose,
}

/// An instance handed across the library boundary on its own.
pub struct InstanceWrapper {
    instance: Instance,
}

impl InstanceWrapper {
    /// The instance this wrapper holds.
    pub closed spec fn spec_instance(&self) -> Instance {
        self.instance
    }

    /// The instance this wrapper holds.
    pub fn instance(&self) -> (r: Instance)
        ensures
            r == self.spec_instance(),
    {
        self.instance
    }
}

/// Wraps the instance of mesh `asset_index` at translation `(x, y, z)` and
/// rotation quaternion `(qx, qy, qz, qw)` (all `f32` bit patterns).
pub fn create_instance_wrapper(
    asset_index: usize,
    x: u32,
    y: u32,
    z: u32,
    qx: u32,
    qy: u32,
    qz: u32,
    qw: u32,
) -> (w: InstanceWrapper)
    ensures
        w.spec_instance() == (Instance {
            asset_mesh_index: asset_index,
            pose: Pose { x, y, z, qx, qy, qz, qw },
        }),
{
    InstanceWrapper {
        instance: Instance {
            asset_mesh_index: asset_index,
            pose: Pose { x, y, z, qx, qy, qz, qw },
        },
    }
}

/// The meshes and instances from which a ray-tracing scene is built.
pub struct RtSceneBuilder {
    meshes: Vec<Mesh>,
    instances: Vec<Instance>,
}

/// The contents of each mesh of a list, in order.
pub open spec fn mesh_models(meshes: Seq<Mesh>) -> Seq<(Seq<Vertex>, Seq<u16>)> {
    meshes.map_values(|m: Mesh| m@)
}

impl View for RtSceneBuilder {
    /// The contents of the meshes added so far and the instances added so
    /// far, each in the order they were added.
    type V = (Seq<(Seq<Vertex>, Seq<u16>)>, Seq<Instance>);

    closed spec fn view(&self) -> (Seq<(Seq<Vertex>, Seq<u16>)>, Seq<Instance>) {
        (mesh_models(self.meshes@), self.instances@)
    }
}

impl RtSceneBuilder {
    /// The meshes added so far, in the order they were added.
    pub fn meshes(&self) -> (r: &[Mesh])
        ensures
            mesh_models(r@) == self@.0,
    {
        self.meshes.as_slice()
    }

    /// The instances added so far, in the order they were added.
    pub fn instances(&self) -> (r: &[Instance])
        ensures
            r@ == self@.1,
    {
        self.instances.as_slice()
    }
}

/// A new scene builder with no meshes and no instances.
pub fn create_rt_scene_builder() -> (b: RtSceneBuilder)
    ensures
        b@.0 == Seq::<(Seq<Vertex>, Seq<u16>)>::empty(),
        b@.1 == Seq::<Instance>::empty(),
{
    let b = RtSceneBuilder { meshes: Vec::new(), instances: Vec::new() };
    assert(mesh_models(b.meshes@) =~= Seq::<(Seq<Vertex>, Seq<u16>)>::empty());
    b
}

/// Appends a copy of `mesh` to the builder's meshes and returns its index
/// there, which is the number of meshes the builder held before.
pub fn add_mesh(builder: &mut RtSceneBuilder, mesh: &Mesh) -> (index: usize)
    ensures
        index == old(builder)@.0.len(),
        final(builder)@.0 == old(builder)@.0.push(mesh@),
        final(builder)@.1 == old(builder)@.1,
{
    let index = builder.meshes.len();
    let copy = mesh.clone();
    let ghost before = builder.meshes@;
    builder.meshes.push(copy);
    assert(mesh_models(builder.meshes@) =~= mesh_models(before).push(mesh@));
    index
}

/// Appends the wrapped instance to the builder's instances and returns its
/// index there, which is the number of instances the builder held before.
pub fn add_instance(builder: &mut RtSceneBuilder, instance: &InstanceWrapper) -> (id: usize)
    ensures
        id == old(builder)@.1.len(),
        final(builder)@.0 == old(builder)@.0,
        final(builder)@.1 == old(builder)@.1.push(instance.spec_instance()),
{
    let id = builder.instances.len();
    builder.instances.push(instance.instance);
    id
}

/// A batch of new poses for instances already in a scene: `updates[k]` is
/// the new instance for the scene's instance number `indices[k]`.
pub struct RtSceneUpdate {
    pub updates: Vec<Instance>,
    pub indices: Vec<usize>,
}

/// An empty batch of updates.
pub fn create_rt_scene_update() -> (u: RtSceneUpdate)
    ensures
        u.updates@ == Seq::<Instance>::empty(),
        u.indices@ == Seq::<usize>::empty(),
{
    RtSceneUpdate { updates: Vec::new(), indices: Vec::new() }
}

/// Adds to the batch the wrapped instance as the new value of the scene's
/// instance number `index`.
pub fn add_update(update: &mut RtSceneUpdate, instance_wrapper: &InstanceWrapper, index: usize)
    ensures
        final(update).updates@ == old(update).updates@.push(instance_wrapper.spec_instance()),
        final(update).indices@ == old(update).indices@.push(index),
{
    update.updates.push(instance_wrapper.instance);
    update.indices.push(index);
}

/// A camera or sensor pose from which a scene is viewed.
pub struct ViewMatrix {
    pub pose: Pose,
}

/// The view at translation `(x, y, z)` and rotation quaternion
/// `(qx, qy, qz, qw)` (all `f32` bit patterns).
pub fn create_view_matrix(x: u32, y: u32, z: u32, qx: u32, qy: u32, qz: u32, qw: u32) -> (v:
    ViewMatrix)
    ensures
        v.pose == (Pose { x, y, z, qx, qy, qz, qw }),
{
    ViewMatrix { pose: Pose { x, y, z, qx, qy, qz, qw } }
}

/// The updates and the indices that a batch holds after `(instance, index)`
/// pairs `ops` were added, in order, to an empty batch.
pub open spec fn batch_after(ops: Seq<(Instance, usize)>) -> (Seq<Instance>, Seq<usize>) {
    (ops.map_values(|p: (Instance, usize)| p.0), ops.map_values(|p: (Instance, usize)| p.1))
}

/// Law: an empty batch is the batch after no additions, and `add_update`
/// takes the batch after `ops` to the batch after `ops` followed by the
/// added pair; so a batch built from `create_rt_scene_update` by
/// `add_update` calls always has as many updates as indices, and the
/// update at each position belongs with the index at that position.
pub proof fn lemma_batch_stays_paired(ops: Seq<(Instance, usize)>, instance: Instance, index: usize)
    ensures
        batch_after(Seq::empty()) == (Seq::<Instance>::empty(), Seq::<usize>::empty()),
        batch_after(ops.push((instance, index))) == (
            batch_after(ops).0.push(instance),
            batch_after(ops).1.push(index),
        ),
        batch_after(ops).0.len() == ops.len(),
        batch_after(ops).1.len() == ops.len(),
        forall|k: int|
            0 <= k < ops.len() ==> (#[trigger] batch_after(ops).0[k], batch_after(ops).1[k])
                == ops[k],
{
    assert(batch_after(Seq::<(Instance, usize)>::empty()).0 =~= Seq::<Instance>::empty());
    assert(batch_after(Seq::<(Instance, usize)>::empty()).1 =~= Seq::<usize>::empty());
    assert(batch_after(ops.push((instance, index))).0 =~= batch_after(ops).0.push(instance));
    assert(batch_after(ops.push((instance, index))).1 =~= batch_after(ops).1.push(index));
}

/// Law: whatever is added to a builder after a mesh, the mesh is still
/// found at the index `add_mesh` returned for it, and each later addition
/// gets a larger index; the same holds of instances and `add_instance`.
pub proof fn lemma_index_finds_added_item<T>(before: Seq<T>, item: T, later: Seq<T>)
    ensures
        (before.push(item) + later)[before.len() as int] == item,
        (before.push(item) + later).len() == before.len() + 1 + later.len(),
        forall|k: int|
            0 <= k < before.len() ==> #[trigger] (before.push(item) + later)[k] == before[k],
{
}

} // verus!
