//! Culling on the host.

use vstd::prelude::*;
use crate::culling::batch::build_draw_list;
use crate::culling::{
    all_resolved, check_resolved, frame_batches, frame_instances, reports_first_unresolved,
    CullError, CulledObjectSet, DrawBatch,
};
use crate::handles::BindGroupHandle;
use crate::mode::ModeData;
use crate::recorder::{RenderCommand, RenderPass};
use crate::resources::{CameraManager, InternalObject, MaterialManager, MeshBuffers};

verus! {

/// The host culler.
#[derive(Clone, Copy, Debug, PartialEq, Eq, Structural)]
pub struct CpuCuller {
    /// The binding of the buffer that receives the frame's instance list.
    pub output_bg: BindGroupHandle,
}

/// What the host culler reads for one frame.
pub struct CpuCullerCullArgs<'a> {
    pub camera: &'a CameraManager,
    pub materials: &'a MaterialManager,
    pub meshes: &'a MeshBuffers,
    pub objects: &'a [InternalObject],
}

impl CpuCuller {
    /// A host culler that hands out the given output binding.
    pub fn new(output_bg: BindGroupHandle) -> (culler: CpuCuller)
        ensures
            culler.output_bg == output_bg,
    {
        CpuCuller { output_bg }
    }

    /// What [`CpuCuller::cull`] returns for a frame: the frame's batches and
    /// instance list where every handle resolves, else the complaint about
    /// the first object with an unresolved handle.
    pub open spec fn cull_outcome(
        &self,
        camera: &CameraManager,
        materials: &MaterialManager,
        meshes: &MeshBuffers,
        objects: Seq<InternalObject>,
        outcome: Result<CulledObjectSet, CullError>,
    ) -> bool {
        match outcome {
            Ok(set) => {
                &&& all_resolved(objects, meshes, materials)
                &&& set.output_bg == self.output_bg
                &&& set.calls matches ModeData::CPU(list)
                &&& list.batches@ == frame_batches(camera.frustum(), objects)
                &&& list.instances@ == frame_instances(camera.frustum(), objects)
            },
            Err(error) => reports_first_unresolved(error, objects, meshes, materials),
        }
    }

    /// Culls one frame on the host.
    pub fn cull(&self, args: CpuCullerCullArgs<'_>) -> (outcome: Result<CulledObjectSet, CullError>)
        ensures
            self.cull_outcome(args.camera, args.materials, args.meshes, args.objects@, outcome),
    {
        match check_resolved(args.objects, args.meshes, args.materials) {
            Err(error) => Err(error),
            Ok(()) => {
                let frustum = args.camera.frustum();
                let list = build_draw_list(&frustum, args.objects);
                Ok(CulledObjectSet { calls: ModeData::CPU(list), output_bg: self.output_bg })
            },
        }
    }
}

/// Whether every batch names a resident mesh and a resident material.
pub open spec fn batches_resolved(
    draws: Seq<DrawBatch>,
    materials: &MaterialManager,
    meshes: &MeshBuffers,
) -> bool {
    forall|k: int|
        0 <= k < draws.len() ==> meshes.resolve((#[trigger] draws[k]).mesh) is Some
            && materials.resolve(draws[k].material) is Some
}

/// Checks that every batch names a resident mesh and a resident material.
pub fn check_batches_resolved(
    draws: &Vec<DrawBatch>,
    materials: &MaterialManager,
    meshes: &MeshBuffers,
) -> (resolved: bool)
    ensures
        resolved == batches_resolved(draws@, materials, meshes),
{
    for k in 0..draws.len()
        invariant
            forall|j: int|
                0 <= j < k ==> meshes.resolve((#[trigger] draws@[j]).mesh) is Some
                    && materials.resolve(draws@[j].material) is Some,
    {
        let batch = draws[k];
        if meshes.lookup(batch.mesh).is_none() || materials.lookup(batch.material).is_none() {
            return false;
        }
    }
    true
}

/// The two commands that draw one batch: bind its material at the given
/// slot, then draw its instances.
pub open spec fn batch_commands(
    batch: DrawBatch,
    materials: &MaterialManager,
    meshes: &MeshBuffers,
    material_binding_index: u32,
) -> Seq<RenderCommand> {
    seq![
        RenderCommand::SetBindGroup {
            slot: material_binding_index,
            group: materials.resolve(batch.material).unwrap(),
        },
        RenderCommand::DrawIndexed {
            range: meshes.resolve(batch.mesh).unwrap(),
            first_instance: batch.first_instance,
            instance_count: batch.instance_count,
        },
    ]
}

/// The commands that draw the first `n` batches, in order.
pub open spec fn run_commands(
    draws: Seq<DrawBatch>,
    materials: &MaterialManager,
    meshes: &MeshBuffers,
    material_binding_index: u32,
    n: nat,
) -> Seq<RenderCommand>
    decreases n,
{
    if n == 0 {
        Seq::empty()
    } else {
        run_commands(draws, materials, meshes, material_binding_index, (n - 1) as nat)
            + batch_commands(draws[n - 1], materials, meshes, material_binding_index)
    }
}

/// Issues one draw per batch, in order. Every batch binds its material at
/// `material_binding_index`, whatever the batch.
pub fn run(
    rpass: &mut RenderPass,
    draws: &Vec<DrawBatch>,
    materials: &MaterialManager,
    meshes: &MeshBuffers,
    material_binding_index: u32,
)
    requires
        batches_resolved(draws@, materials, meshes),
    ensures
        final(rpass)@ == old(rpass)@ + run_commands(
            draws@,
            materials,
            meshes,
            material_binding_index,
            draws@.len(),
        ),
{
    let ghost start = rpass@;
    for k in 0..draws.len()
        invariant
            batches_resolved(draws@, materials, meshes),
            rpass@ == start + run_commands(draws@, materials, meshes, material_binding_index, k as nat),
    {
        let batch = draws[k];
        let group = materials.cpu_get_bind_group(batch.material);
        let range = meshes.lookup(batch.mesh).unwrap();
        rpass.set_bind_group(material_binding_index, group);
        rpass.draw_indexed(range, batch.first_instance, batch.instance_count);
    }
}

} // verus!
