//! Theorems about the batches and the instance list of a culled frame.
//!
//! They are stated over the functions that the cullers' contracts use, so
//! whatever a culler returns has them. The instance list holds the visible
//! objects, each once; the batches tile it, one batch for each mesh and
//! material that a visible object has; the batches of a mesh follow one
//! another in the order of first appearance; and the host and the device
//! strategy describe the same draws.

use vstd::prelude::*;
use crate::culling::batch::{lemma_materials_distinct, lemma_meshes_distinct};
use crate::culling::cpu::CpuCuller;
use crate::culling::gpu::{input_objects, GpuCuller};
use crate::culling::order::{
    lemma_batch_has_its_mesh, lemma_instances_before, lemma_keys_come_from_visible,
    lemma_materials_by_first_appearance, lemma_members, lemma_meshes_by_first_appearance,
    lemma_meshes_in_batch_order, lemma_prefix, lemma_total_before, lemma_visible_key_is_batched,
};
use crate::culling::{
    all_resolved, frame_batches, frame_instances, frame_keys, frame_members, instances_before,
    is_resolved, is_visible, key_of, keys_before, mesh_order, reports_first_unresolved,
    visible_set, BatchKey, CullError, CulledObjectSet, DrawBatch,
};
use crate::frustum::Frustum;
use crate::handles::MeshHandle;
use crate::resources::{CameraManager, InternalObject, MaterialManager, MeshBuffers};

verus! {

/// Whether some visible object among the first `n` has the given key.
pub open spec fn key_is_used(
    frustum: Frustum,
    objects: Seq<InternalObject>,
    key: BatchKey,
    n: nat,
) -> bool {
    exists|i: int|
        0 <= i < n && is_visible(frustum, objects[i]) && key_of(#[trigger] objects[i]) == key
}

/// Whether some visible object among the first `n` has the given mesh.
pub open spec fn mesh_is_used(
    frustum: Frustum,
    objects: Seq<InternalObject>,
    mesh: MeshHandle,
    n: nat,
) -> bool {
    exists|i: int| 0 <= i < n && is_visible(frustum, objects[i]) && (#[trigger] objects[i]).mesh == mesh
}

/// Whether, among the first `n` objects, a visible object with the mesh
/// `first` stands before every visible object with the mesh `second`.
pub open spec fn mesh_appears_first(
    frustum: Frustum,
    objects: Seq<InternalObject>,
    first: MeshHandle,
    second: MeshHandle,
    n: nat,
) -> bool {
    exists|i: int|
        0 <= i < n && is_visible(frustum, objects[i]) && (#[trigger] objects[i]).mesh == first
            && !mesh_is_used(frustum, objects, second, (i + 1) as nat)
}

/// Whether, among the first `n` objects, a visible object with the key
/// `first` stands before every visible object with the key `second`.
pub open spec fn key_appears_first(
    frustum: Frustum,
    objects: Seq<InternalObject>,
    first: BatchKey,
    second: BatchKey,
    n: nat,
) -> bool {
    exists|i: int|
        0 <= i < n && is_visible(frustum, objects[i]) && key_of(#[trigger] objects[i]) == first
            && !key_is_used(frustum, objects, second, (i + 1) as nat)
}

/// The number of instances that a list of batches draws.
pub open spec fn total_instances(batches: Seq<DrawBatch>) -> nat
    decreases batches.len(),
{
    if batches.len() == 0 {
        0
    } else {
        total_instances(batches.drop_last()) + batches.last().instance_count as nat
    }
}

/// Whether two outcomes of culling say the same: the same batches over the
/// same instance list with the same output binding, or the same complaint.
pub open spec fn same_outcome(
    first: Result<CulledObjectSet, CullError>,
    second: Result<CulledObjectSet, CullError>,
) -> bool {
    match (first, second) {
        (Ok(a), Ok(b)) => {
            &&& a.calls.mode() == b.calls.mode()
            &&& a.batches() == b.batches()
            &&& a.instances() == b.instances()
            &&& a.output_bg == b.output_bg
        },
        (Err(a), Err(b)) => a == b,
        _ => false,
    }
}

/// Both strategies keep the same objects. For one camera and one object list
/// the host culler's survivors and the device culler's survivors are the
/// same set, the set of the visible objects; and the device's batches and
/// instance list are the host's.
pub proof fn lemma_strategies_agree(
    host_culler: CpuCuller,
    device_culler: GpuCuller,
    camera: &CameraManager,
    materials: &MaterialManager,
    meshes: &MeshBuffers,
    objects: Seq<InternalObject>,
    host: CulledObjectSet,
    device: CulledObjectSet,
)
    requires
        objects.len() <= usize::MAX,
        host_culler.cull_outcome(camera, materials, meshes, objects, Ok(host)),
        device_culler.cull_outcome(camera, materials, meshes, objects, Ok(device)),
    ensures
        host.survivors() == visible_set(camera.frustum(), objects),
        device.survivors() == visible_set(camera.frustum(), objects),
        device.batches() == host.batches(),
        device.instances() == host.instances(),
{
    let data = device.calls->GPU_0;
    assert(input_objects(data.inputs@) =~= objects);
    lemma_instances_are_the_visible(camera.frustum(), objects);
}

/// The instance list of a frame is the visible objects of the frame: each of
/// them once, and nothing else. Its length is their number.
pub proof fn lemma_instances_are_the_visible(frustum: Frustum, objects: Seq<InternalObject>)
    requires
        objects.len() <= usize::MAX,
    ensures
        frame_instances(frustum, objects).no_duplicates(),
        frame_instances(frustum, objects).to_set() == visible_set(frustum, objects),
        frame_instances(frustum, objects).len() == visible_set(frustum, objects).len(),
{
    let keys = frame_keys(frustum, objects);
    let n = objects.len();
    let instances = frame_instances(frustum, objects);
    lemma_instances_before(frustum, objects, keys.len());
    assert forall|x: usize| instances.to_set().contains(x) <==> visible_set(
        frustum,
        objects,
    ).contains(x) by {
        if instances.contains(x) {
            assert(x < n && is_visible(frustum, objects[x as int]));
        }
        if x < n && is_visible(frustum, objects[x as int]) {
            lemma_visible_key_is_batched(frustum, objects, x as int);
            let key = key_of(objects[x as int]);
            let k = choose|k: int| 0 <= k < keys.len() && keys[k] == key;
            lemma_members(frustum, objects, key, n);
            assert(frame_members(frustum, objects, k).contains(x));
            assert(instances.contains(x));
        }
    }
    assert(instances.to_set() =~= visible_set(frustum, objects));
    instances.unique_seq_to_set();
}

/// The batches of a frame draw, all together, one instance for each visible
/// object.
pub proof fn lemma_batches_draw_every_visible_object(
    frustum: Frustum,
    objects: Seq<InternalObject>,
)
    requires
        objects.len() <= usize::MAX,
    ensures
        total_instances(frame_batches(frustum, objects)) == visible_set(frustum, objects).len(),
{
    let batches = frame_batches(frustum, objects);
    lemma_total_before(frustum, objects, frame_keys(frustum, objects).len());
    assert(batches.take(batches.len() as int) == batches);
    lemma_instances_are_the_visible(frustum, objects);
}

/// The batches of a frame tile its instance list: the first batch starts at
/// instance zero, every batch starts where the one before it ends, every
/// batch draws at least one instance, and a batch's range of the instance
/// list holds that batch's objects.
pub proof fn lemma_batches_tile_instances(frustum: Frustum, objects: Seq<InternalObject>, j: int)
    requires
        objects.len() <= usize::MAX,
        0 <= j < frame_batches(frustum, objects).len(),
    ensures
        frame_batches(frustum, objects).len() <= objects.len(),
        j == 0 ==> frame_batches(frustum, objects)[j].first_instance == 0,
        j > 0 ==> frame_batches(frustum, objects)[j].first_instance == frame_batches(
            frustum,
            objects,
        )[j - 1].first_instance + frame_batches(frustum, objects)[j - 1].instance_count,
        frame_batches(frustum, objects)[j].instance_count >= 1,
        frame_batches(frustum, objects)[j].first_instance + frame_batches(
            frustum,
            objects,
        )[j].instance_count <= frame_instances(frustum, objects).len(),
        frame_instances(frustum, objects).subrange(
            frame_batches(frustum, objects)[j].first_instance as int,
            frame_batches(frustum, objects)[j].first_instance + frame_batches(
                frustum,
                objects,
            )[j].instance_count,
        ) == frame_members(frustum, objects, j),
{
    let keys = frame_keys(frustum, objects);
    let n = objects.len();
    lemma_keys_come_from_visible(frustum, objects);
    lemma_instances_before(frustum, objects, keys.len());
    lemma_instances_before(frustum, objects, j as nat);
    lemma_instances_before(frustum, objects, (j + 1) as nat);
    lemma_members(frustum, objects, keys[j], n);
    if j > 0 {
        lemma_instances_before(frustum, objects, (j - 1) as nat);
        lemma_members(frustum, objects, keys[j - 1], n);
    }
    assert(key_is_used(frustum, objects, keys[j], n));
    let i = choose|i: int|
        0 <= i < n && is_visible(frustum, objects[i]) && key_of(#[trigger] objects[i]) == keys[j];
    assert(frame_members(frustum, objects, j).contains(i as usize));
    lemma_prefix(frustum, objects, (j + 1) as nat, keys.len());
    let whole = frame_instances(frustum, objects);
    let upto = instances_before(frustum, objects, (j + 1) as nat);
    let first = instances_before(frustum, objects, j as nat).len() as int;
    assert(whole.subrange(first, upto.len() as int) == frame_members(frustum, objects, j)) by {
        assert(upto == whole.take(upto.len() as int));
        assert(upto.subrange(first, upto.len() as int) == frame_members(frustum, objects, j));
    }
}

/// Two objects with the same mesh and the same material are never drawn by
/// different batches.
pub proof fn lemma_same_key_same_batch(
    frustum: Frustum,
    objects: Seq<InternalObject>,
    j: int,
    k: int,
    x: usize,
    y: usize,
)
    requires
        objects.len() <= usize::MAX,
        0 <= j < frame_keys(frustum, objects).len(),
        0 <= k < frame_keys(frustum, objects).len(),
        frame_members(frustum, objects, j).contains(x),
        frame_members(frustum, objects, k).contains(y),
        key_of(objects[x as int]) == key_of(objects[y as int]),
    ensures
        j == k,
{
    let keys = frame_keys(frustum, objects);
    let n = objects.len();
    lemma_members(frustum, objects, keys[j], n);
    lemma_members(frustum, objects, keys[k], n);
    lemma_keys_distinct(frustum, objects);
    let mj = frame_members(frustum, objects, j);
    let mk = frame_members(frustum, objects, k);
    let p = choose|p: int| 0 <= p < mj.len() && mj[p] == x;
    let q = choose|q: int| 0 <= q < mk.len() && mk[q] == y;
    assert(key_of(objects[mj[p] as int]) == keys[j]);
    assert(key_of(objects[mk[q] as int]) == keys[k]);
}

/// Every visible object is drawn by the batch of its mesh and material.
pub proof fn lemma_visible_object_has_its_batch(
    frustum: Frustum,
    objects: Seq<InternalObject>,
    x: usize,
) -> (j: int)
    requires
        objects.len() <= usize::MAX,
        x < objects.len(),
        is_visible(frustum, objects[x as int]),
    ensures
        0 <= j < frame_batches(frustum, objects).len(),
        frame_batches(frustum, objects)[j].mesh == objects[x as int].mesh,
        frame_batches(frustum, objects)[j].material == objects[x as int].material,
        frame_members(frustum, objects, j).contains(x),
{
    let keys = frame_keys(frustum, objects);
    let n = objects.len();
    let key = key_of(objects[x as int]);
    lemma_visible_key_is_batched(frustum, objects, x as int);
    let j = choose|j: int| 0 <= j < keys.len() && keys[j] == key;
    lemma_members(frustum, objects, key, n);
    j
}

/// No two batches of a frame have the same mesh and the same material.
pub proof fn lemma_keys_distinct(frustum: Frustum, objects: Seq<InternalObject>)
    ensures
        frame_keys(frustum, objects).no_duplicates(),
{
    let keys = frame_keys(frustum, objects);
    let meshes = mesh_order(frustum, objects, objects.len());
    lemma_meshes_distinct(frustum, objects, objects.len());
    assert forall|s: int, t: int| 0 <= s < keys.len() && 0 <= t < keys.len() && s != t implies keys[s]
        != keys[t] by {
        let i = lemma_batch_has_its_mesh(frustum, objects, s);
        let j = lemma_batch_has_its_mesh(frustum, objects, t);
        if keys[s] == keys[t] {
            assert(meshes[i] == meshes[j]);
            lemma_materials_distinct(frustum, objects, meshes[i], objects.len());
        }
    }
}

/// The batches of one mesh follow one another: a batch between two batches
/// of a mesh is a batch of that mesh too.
pub proof fn lemma_batches_of_a_mesh_are_consecutive(
    frustum: Frustum,
    objects: Seq<InternalObject>,
    first: int,
    between: int,
    last: int,
)
    requires
        0 <= first <= between <= last < frame_batches(frustum, objects).len(),
        frame_batches(frustum, objects)[first].mesh == frame_batches(frustum, objects)[last].mesh,
    ensures
        frame_batches(frustum, objects)[between].mesh == frame_batches(
            frustum,
            objects,
        )[first].mesh,
{
    let meshes = mesh_order(frustum, objects, objects.len());
    let i = lemma_batch_has_its_mesh(frustum, objects, first);
    let j = lemma_batch_has_its_mesh(frustum, objects, between);
    let k = lemma_batch_has_its_mesh(frustum, objects, last);
    lemma_meshes_distinct(frustum, objects, objects.len());
    lemma_meshes_in_batch_order(frustum, objects, first, between, i, j);
    lemma_meshes_in_batch_order(frustum, objects, between, last, j, k);
}

/// The batches stand in the order of first appearance. Of two batches of one
/// mesh, the earlier one has its material on a visible object of the mesh
/// before the later one has. Of two batches of different meshes, the earlier
/// one has its mesh on a visible object before the later one has.
pub proof fn lemma_batches_by_first_appearance(
    frustum: Frustum,
    objects: Seq<InternalObject>,
    earlier: int,
    later: int,
)
    requires
        0 <= earlier < later < frame_batches(frustum, objects).len(),
    ensures
        ({
            let first = frame_keys(frustum, objects)[earlier];
            let second = frame_keys(frustum, objects)[later];
            if first.mesh == second.mesh {
                key_appears_first(frustum, objects, first, second, objects.len())
            } else {
                mesh_appears_first(frustum, objects, first.mesh, second.mesh, objects.len())
            }
        }),
{
    let n = objects.len();
    let meshes = mesh_order(frustum, objects, n);
    let i = lemma_batch_has_its_mesh(frustum, objects, earlier);
    let j = lemma_batch_has_its_mesh(frustum, objects, later);
    lemma_meshes_distinct(frustum, objects, n);
    lemma_meshes_in_batch_order(frustum, objects, earlier, later, i, j);
    if i == j {
        let base = keys_before(frustum, objects, i as nat).len();
        lemma_materials_by_first_appearance(
            frustum,
            objects,
            meshes[i],
            earlier - base,
            later - base,
            n,
        );
    } else {
        lemma_meshes_by_first_appearance(frustum, objects, i, j, n);
    }
}

/// Culling on the host is a function of the frame: whatever the culler
/// returns for one camera and one object list, it returns every time.
pub proof fn lemma_host_cull_is_deterministic(
    culler: CpuCuller,
    camera: &CameraManager,
    materials: &MaterialManager,
    meshes: &MeshBuffers,
    objects: Seq<InternalObject>,
    first: Result<CulledObjectSet, CullError>,
    second: Result<CulledObjectSet, CullError>,
)
    requires
        culler.cull_outcome(camera, materials, meshes, objects, first),
        culler.cull_outcome(camera, materials, meshes, objects, second),
    ensures
        same_outcome(first, second),
{
    if first is Err {
        lemma_complaint_is_unique(objects, meshes, materials, first->Err_0, first->Err_0);
        if second is Err {
            lemma_complaint_is_unique(objects, meshes, materials, first->Err_0, second->Err_0);
        }
    } else if second is Err {
        lemma_complaint_is_unique(objects, meshes, materials, second->Err_0, second->Err_0);
    }
}

/// Culling on the device is a function of the frame as well: the same
/// complaint every time, or the same input for the device, and with it the
/// same batches.
pub proof fn lemma_device_cull_is_deterministic(
    culler: GpuCuller,
    camera: &CameraManager,
    materials: &MaterialManager,
    meshes: &MeshBuffers,
    objects: Seq<InternalObject>,
    first: Result<CulledObjectSet, CullError>,
    second: Result<CulledObjectSet, CullError>,
)
    requires
        culler.cull_outcome(camera, materials, meshes, objects, first),
        culler.cull_outcome(camera, materials, meshes, objects, second),
    ensures
        same_outcome(first, second),
        first is Ok ==> first->Ok_0.calls->GPU_0.inputs@ == second->Ok_0.calls->GPU_0.inputs@,
{
    if first is Ok && second is Ok {
        let a = first->Ok_0.calls->GPU_0.inputs@;
        let b = second->Ok_0.calls->GPU_0.inputs@;
        assert(a =~= b);
    } else if first is Err && second is Err {
        if !(first->Err_0 is CapacityExceeded) {
            lemma_complaint_is_unique(objects, meshes, materials, first->Err_0, second->Err_0);
        }
    } else if first is Err {
        if !(first->Err_0 is CapacityExceeded) {
            lemma_complaint_is_unique(objects, meshes, materials, first->Err_0, first->Err_0);
        }
    } else {
        if !(second->Err_0 is CapacityExceeded) {
            lemma_complaint_is_unique(objects, meshes, materials, second->Err_0, second->Err_0);
        }
    }
}

/// Only one complaint can be the complaint about the first unresolved
/// object, and there is none where every object resolves.
pub proof fn lemma_complaint_is_unique(
    objects: Seq<InternalObject>,
    meshes: &MeshBuffers,
    materials: &MaterialManager,
    first: CullError,
    second: CullError,
)
    requires
        reports_first_unresolved(first, objects, meshes, materials),
    ensures
        !all_resolved(objects, meshes, materials),
        reports_first_unresolved(second, objects, meshes, materials) ==> first == second,
{
    let a = unresolved_object(first);
    assert(!is_resolved(objects[a as int], meshes, materials));
    if reports_first_unresolved(second, objects, meshes, materials) {
        let b = unresolved_object(second);
        if a < b {
            assert(objects.take(b as int)[a as int] == objects[a as int]);
        } else if b < a {
            assert(objects.take(a as int)[b as int] == objects[b as int]);
        }
    }
}

/// The object that a complaint about an unresolved handle is about.
pub open spec fn unresolved_object(error: CullError) -> usize {
    match error {
        CullError::UnresolvedMesh { object } => object,
        CullError::UnresolvedMaterial { object } => object,
        CullError::CapacityExceeded { .. } => 0,
    }
}

/// A frame with more objects than the device culler has capacity for is
/// refused with the capacity complaint, whatever else is wrong with it.
pub proof fn lemma_over_capacity_is_refused(
    culler: GpuCuller,
    camera: &CameraManager,
    materials: &MaterialManager,
    meshes: &MeshBuffers,
    objects: Seq<InternalObject>,
    outcome: Result<CulledObjectSet, CullError>,
)
    requires
        objects.len() <= usize::MAX,
        culler.cull_outcome(camera, materials, meshes, objects, outcome),
    ensures
        objects.len() > culler.capacity <==> outcome == Err::<CulledObjectSet, CullError>(
            CullError::CapacityExceeded {
                objects: objects.len() as usize,
                capacity: culler.capacity,
            },
        ),
{
}

} // verus!
