//! Culling: which objects of a frame are drawn, and in which batches.
//!
//! Both strategies answer the same question. An object is kept when its
//! bounding sphere passes the frustum test. The kept objects are grouped by
//! mesh and material, and each group is one batch. The batches are ordered by
//! mesh and then by material, both in the order of first appearance in the
//! object list, so that the batches of one mesh follow one another. The
//! objects of a batch keep the order of the list. The instance list is the
//! batches' objects laid end to end, so every batch owns one contiguous range
//! of it.

use vstd::prelude::*;
use crate::frustum::Frustum;
use crate::handles::{BindGroupHandle, BufferHandle, MaterialHandle, MeshHandle};
use crate::mode::ModeData;
use crate::resources::{InternalObject, MaterialManager, MeshBuffers, MeshRange};

pub mod batch;
pub mod cpu;
pub mod gpu;
pub mod laws;
pub mod order;

verus! {

/// What makes two objects share a draw: the same mesh and the same material.
#[derive(Clone, Copy, Debug, PartialEq, Eq, Structural)]
pub struct BatchKey {
    pub mesh: MeshHandle,
    pub material: MaterialHandle,
}

/// One instanced draw: a mesh, a material, and a contiguous range of the
/// instance list.
#[derive(Clone, Copy, Debug, PartialEq, Eq, Structural)]
pub struct DrawBatch {
    pub mesh: MeshHandle,
    pub material: MaterialHandle,
    /// Where the batch starts in the instance list.
    pub first_instance: usize,
    /// How many instances the batch draws.
    pub instance_count: usize,
}

/// The draws that the host strategy computed.
#[derive(Debug)]
pub struct HostDrawList {
    /// The batches, in draw order.
    pub batches: Vec<DrawBatch>,
    /// For every instance, the position of its object in the object list.
    pub instances: Vec<usize>,
}

/// What the device reads for one object.
#[derive(Clone, Copy, Debug, PartialEq, Eq, Structural)]
pub struct CullingInput {
    pub object: InternalObject,
    /// Where the object's mesh lies in the shared buffers.
    pub range: MeshRange,
}

/// The arguments of one indexed draw, as the device writes them into the
/// indirect buffer.
#[derive(Clone, Copy, Debug, PartialEq, Eq, Structural)]
pub struct DrawIndexedIndirect {
    pub index_count: u32,
    pub instance_count: u32,
    pub first_index: u32,
    pub base_vertex: i32,
    pub first_instance: u32,
}

/// The draws that the device strategy leaves on the device, together with
/// what the device computes them from.
#[derive(Debug)]
pub struct IndirectDrawData {
    /// The buffer into which the device writes the draw arguments.
    pub indirect_buffer: BufferHandle,
    /// The buffer into which the device writes the number of draws.
    pub count_buffer: BufferHandle,
    /// The largest number of draws that the device may write.
    pub count: u32,
    /// The view volume that the device tests against.
    pub frustum: Frustum,
    /// The device's input, one entry per object, in the order of the object
    /// list.
    pub inputs: Vec<CullingInput>,
}

/// The result of culling one frame. It is made afresh every frame, read by
/// the prepass and by the opaque pass of that frame, and then dropped.
#[derive(Debug)]
pub struct CulledObjectSet {
    /// The draws, in the shape of the strategy that computed them.
    pub calls: ModeData<HostDrawList, IndirectDrawData>,
    /// The binding of the per-instance data that the draws read.
    pub output_bg: BindGroupHandle,
}

/// Why a frame cannot be culled. Each of these means that whoever supplied
/// the frame's data broke its side of the agreement; the frame is abandoned.
#[derive(Clone, Copy, Debug, PartialEq, Eq, Structural)]
pub enum CullError {
    /// The object at this position names a mesh that is not resident.
    UnresolvedMesh { object: usize },
    /// The object at this position names a material that is not resident.
    UnresolvedMaterial { object: usize },
    /// The frame has more objects than the indirect buffer has room for.
    CapacityExceeded { objects: usize, capacity: u32 },
}

/// Whether the object survives culling.
pub open spec fn is_visible(frustum: Frustum, object: InternalObject) -> bool {
    frustum.contains(object.bounds)
}

/// The mesh and material of an object.
pub open spec fn key_of(object: InternalObject) -> BatchKey {
    BatchKey { mesh: object.mesh, material: object.material }
}

/// The positions of the objects that survive culling.
pub open spec fn visible_set(frustum: Frustum, objects: Seq<InternalObject>) -> Set<usize> {
    Set::new(|i: usize| i < objects.len() && is_visible(frustum, objects[i as int]))
}

/// The meshes of the visible objects among the first `n`, each mesh once, in
/// the order of first appearance.
pub open spec fn mesh_order(frustum: Frustum, objects: Seq<InternalObject>, n: nat) -> Seq<MeshHandle>
    decreases n,
{
    if n == 0 {
        Seq::empty()
    } else {
        let before = mesh_order(frustum, objects, (n - 1) as nat);
        let object = objects[n - 1];
        if is_visible(frustum, object) && !before.contains(object.mesh) {
            before.push(object.mesh)
        } else {
            before
        }
    }
}

/// The materials of the visible objects among the first `n` that have the
/// given mesh, each material once, in the order of first appearance.
pub open spec fn material_order(
    frustum: Frustum,
    objects: Seq<InternalObject>,
    mesh: MeshHandle,
    n: nat,
) -> Seq<MaterialHandle>
    decreases n,
{
    if n == 0 {
        Seq::empty()
    } else {
        let before = material_order(frustum, objects, mesh, (n - 1) as nat);
        let object = objects[n - 1];
        if is_visible(frustum, object) && object.mesh == mesh && !before.contains(object.material) {
            before.push(object.material)
        } else {
            before
        }
    }
}

/// The keys of the batches that draw the given mesh, in draw order.
pub open spec fn mesh_keys(
    frustum: Frustum,
    objects: Seq<InternalObject>,
    mesh: MeshHandle,
) -> Seq<BatchKey> {
    let materials = material_order(frustum, objects, mesh, objects.len());
    Seq::new(materials.len(), |k: int| BatchKey { mesh, material: materials[k] })
}

/// The keys of the batches that draw the first `j` meshes of a frame.
pub open spec fn keys_before(frustum: Frustum, objects: Seq<InternalObject>, j: nat) -> Seq<BatchKey>
    decreases j,
{
    if j == 0 {
        Seq::empty()
    } else {
        keys_before(frustum, objects, (j - 1) as nat) + mesh_keys(
            frustum,
            objects,
            mesh_order(frustum, objects, objects.len())[j - 1],
        )
    }
}

/// The positions of the visible objects among the first `n` that have the
/// given key, ascending.
pub open spec fn batch_members(
    frustum: Frustum,
    objects: Seq<InternalObject>,
    key: BatchKey,
    n: nat,
) -> Seq<usize>
    decreases n,
{
    if n == 0 {
        Seq::empty()
    } else {
        let before = batch_members(frustum, objects, key, (n - 1) as nat);
        let object = objects[n - 1];
        if is_visible(frustum, object) && key_of(object) == key {
            before.push((n - 1) as usize)
        } else {
            before
        }
    }
}

/// The keys of a frame's batches, in draw order: the meshes in the order of
/// first appearance, and under every mesh its materials in the order of
/// first appearance. The batches of one mesh follow one another.
pub open spec fn frame_keys(frustum: Frustum, objects: Seq<InternalObject>) -> Seq<BatchKey> {
    keys_before(frustum, objects, mesh_order(frustum, objects, objects.len()).len())
}

/// The objects of the batch at position `j`, in draw order.
pub open spec fn frame_members(frustum: Frustum, objects: Seq<InternalObject>, j: int) -> Seq<usize> {
    batch_members(frustum, objects, frame_keys(frustum, objects)[j], objects.len())
}

/// The instance list up to the batch at position `j`: the objects of the
/// first `j` batches, laid end to end.
pub open spec fn instances_before(frustum: Frustum, objects: Seq<InternalObject>, j: nat) -> Seq<usize>
    decreases j,
{
    if j == 0 {
        Seq::empty()
    } else {
        instances_before(frustum, objects, (j - 1) as nat) + frame_members(frustum, objects, j - 1)
    }
}

/// The batch at position `j` of a frame.
pub open spec fn frame_batch(frustum: Frustum, objects: Seq<InternalObject>, j: int) -> DrawBatch {
    let key = frame_keys(frustum, objects)[j];
    DrawBatch {
        mesh: key.mesh,
        material: key.material,
        first_instance: instances_before(frustum, objects, j as nat).len() as usize,
        instance_count: frame_members(frustum, objects, j).len() as usize,
    }
}

/// The batches of a frame, in draw order.
pub open spec fn frame_batches(frustum: Frustum, objects: Seq<InternalObject>) -> Seq<DrawBatch> {
    Seq::new(frame_keys(frustum, objects).len(), |j: int| frame_batch(frustum, objects, j))
}

/// The instance list of a frame.
pub open spec fn frame_instances(frustum: Frustum, objects: Seq<InternalObject>) -> Seq<usize> {
    instances_before(frustum, objects, frame_keys(frustum, objects).len())
}

impl CulledObjectSet {
    /// The batches that this set draws. Under the device strategy they are
    /// the batches that the device writes.
    pub open spec fn batches(&self) -> Seq<DrawBatch> {
        match self.calls {
            ModeData::CPU(list) => list.batches@,
            ModeData::GPU(data) => data.batches(),
        }
    }

    /// The instance list that this set's batches index. Under the device
    /// strategy it is the list that the device writes.
    pub open spec fn instances(&self) -> Seq<usize> {
        match self.calls {
            ModeData::CPU(list) => list.instances@,
            ModeData::GPU(data) => data.instances(),
        }
    }

    /// The objects that survive culling, by their positions in the object
    /// list.
    pub open spec fn survivors(&self) -> Set<usize> {
        self.instances().to_set()
    }
}

/// Whether the object's mesh and material are both resident.
pub open spec fn is_resolved(
    object: InternalObject,
    meshes: &MeshBuffers,
    materials: &MaterialManager,
) -> bool {
    meshes.resolve(object.mesh) is Some && materials.resolve(object.material) is Some
}

/// Whether every object's mesh and material are resident.
pub open spec fn all_resolved(
    objects: Seq<InternalObject>,
    meshes: &MeshBuffers,
    materials: &MaterialManager,
) -> bool {
    forall|i: int| 0 <= i < objects.len() ==> is_resolved(#[trigger] objects[i], meshes, materials)
}

/// Whether `error` is the complaint about the first object of the list that
/// names something not resident. Where both of that object's handles are
/// unresolved, the complaint is about the mesh.
pub open spec fn reports_first_unresolved(
    error: CullError,
    objects: Seq<InternalObject>,
    meshes: &MeshBuffers,
    materials: &MaterialManager,
) -> bool {
    match error {
        CullError::UnresolvedMesh { object } => {
            &&& object < objects.len()
            &&& all_resolved(objects.take(object as int), meshes, materials)
            &&& meshes.resolve(objects[object as int].mesh) is None
        },
        CullError::UnresolvedMaterial { object } => {
            &&& object < objects.len()
            &&& all_resolved(objects.take(object as int), meshes, materials)
            &&& meshes.resolve(objects[object as int].mesh) is Some
            &&& materials.resolve(objects[object as int].material) is None
        },
        CullError::CapacityExceeded { .. } => false,
    }
}

/// Checks that every object names a resident mesh and a resident material.
/// An object that does not is never skipped: the first one is reported.
pub fn check_resolved(
    objects: &[InternalObject],
    meshes: &MeshBuffers,
    materials: &MaterialManager,
) -> (outcome: Result<(), CullError>)
    ensures
        match outcome {
            Ok(()) => all_resolved(objects@, meshes, materials),
            Err(error) => reports_first_unresolved(error, objects@, meshes, materials),
        },
{
    for i in 0..objects.len()
        invariant
            all_resolved(objects@.take(i as int), meshes, materials),
    {
        let object = objects[i];
        if meshes.lookup(object.mesh).is_none() {
            return Err(CullError::UnresolvedMesh { object: i });
        }
        if materials.lookup(object.material).is_none() {
            return Err(CullError::UnresolvedMaterial { object: i });
        }
        proof {
            let done = objects@.take(i as int);
            let next = objects@.take(i + 1);
            assert forall|k: int| 0 <= k < next.len() implies is_resolved(
                #[trigger] next[k],
                meshes,
                materials,
            ) by {
                if k < i {
                    assert(next[k] == done[k]);
                }
            }
        }
    }
    proof {
        assert(objects@.take(objects@.len() as int) == objects@);
    }
    Ok(())
}

} // verus!
