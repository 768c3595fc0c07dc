//! Culling on the device.
//!
//! The host does not test a single sphere here. It lays out what the device
//! reads, one entry per object, and records the three dispatches that test
//! the objects, compact the survivors and write the indirect draw arguments.
//! What the device then holds is never read back by the host; its meaning is
//! the draw list that [`IndirectDrawData::evaluate`] computes from the same
//! input.

use vstd::prelude::*;
use crate::culling::batch::build_draw_list;
use crate::culling::laws::lemma_batches_tile_instances;
use crate::culling::order::lemma_instances_before;
use crate::culling::{
    all_resolved, check_resolved, frame_batches, frame_instances, frame_keys,
    reports_first_unresolved, CullError, CulledObjectSet, CullingInput, DrawBatch,
    DrawIndexedIndirect, HostDrawList, IndirectDrawData,
};
use crate::handles::{BindGroupHandle, BufferHandle, PipelineHandle};
use crate::mode::ModeData;
use crate::recorder::{CommandEncoder, EncoderCommand, RenderCommand, RenderPass};
use crate::resources::{CameraManager, InternalObject, MaterialManager, MeshBuffers};

verus! {

/// How many objects one workgroup of a culling dispatch handles.
pub const WORKGROUP_SIZE: u32 = 256;

/// The bind-group slot at which the culling pipelines read their input.
pub const CULLING_INPUT_SLOT: u32 = 0;

/// The device culler, with its pipelines and its buffers. The buffers are
/// allocated once, for at most `capacity` objects.
#[derive(Clone, Copy, Debug, PartialEq, Eq, Structural)]
pub struct GpuCuller {
    /// How many objects the indirect buffer has room for.
    pub capacity: u32,
    /// The pipeline that tests every object against the frustum.
    pub test_pipeline: PipelineHandle,
    /// The pipeline that compacts the surviving objects.
    pub compact_pipeline: PipelineHandle,
    /// The pipeline that writes the indirect draw arguments.
    pub write_pipeline: PipelineHandle,
    /// The binding of the input and output buffers of the three pipelines.
    pub culling_bg: BindGroupHandle,
    /// The buffer that receives the draw arguments.
    pub indirect_buffer: BufferHandle,
    /// The buffer that receives the number of draws.
    pub count_buffer: BufferHandle,
    /// The binding of the buffer that receives the frame's instance list.
    pub output_bg: BindGroupHandle,
}

/// What the device culler reads for one frame, and the encoder that it
/// appends its dispatches to.
pub struct GpuCullerCullArgs<'a> {
    pub encoder: &'a mut CommandEncoder,
    pub materials: &'a MaterialManager,
    pub meshes: &'a MeshBuffers,
    pub camera: &'a CameraManager,
    pub objects: &'a [InternalObject],
}

/// The number of workgroups that cover `count` objects: `count` divided by
/// the workgroup size, rounded up.
pub open spec fn workgroups_for(count: nat) -> nat {
    ((count + WORKGROUP_SIZE - 1) / (WORKGROUP_SIZE as int)) as nat
}

/// What the device reads for the objects: entry `i` holds object `i` and the
/// range of its mesh.
pub open spec fn inputs_encode(
    inputs: Seq<CullingInput>,
    objects: Seq<InternalObject>,
    meshes: &MeshBuffers,
) -> bool {
    &&& inputs.len() == objects.len()
    &&& forall|i: int|
        0 <= i < inputs.len() ==> (#[trigger] inputs[i]).object == objects[i]
            && meshes.resolve(objects[i].mesh) == Some(inputs[i].range)
}

/// The objects that the device's input describes.
pub open spec fn input_objects(inputs: Seq<CullingInput>) -> Seq<InternalObject> {
    Seq::new(inputs.len(), |i: int| inputs[i].object)
}

impl IndirectDrawData {
    /// The batches that the device writes for this input.
    pub open spec fn batches(&self) -> Seq<DrawBatch> {
        frame_batches(self.frustum, input_objects(self.inputs@))
    }

    /// The instance list that the device writes for this input.
    pub open spec fn instances(&self) -> Seq<usize> {
        frame_instances(self.frustum, input_objects(self.inputs@))
    }

    /// The draw arguments that the device writes for the batch at position
    /// `j`: the mesh range of the batch's first object, and the batch's range
    /// of the instance list.
    pub open spec fn argument(&self, j: int) -> DrawIndexedIndirect {
        let batch = self.batches()[j];
        let first = self.instances()[batch.first_instance as int];
        let range = self.inputs@[first as int].range;
        DrawIndexedIndirect {
            index_count: range.index_count,
            instance_count: batch.instance_count as u32,
            first_index: range.first_index,
            base_vertex: range.base_vertex,
            first_instance: batch.first_instance as u32,
        }
    }

    /// The contents of the indirect buffer after the device has run: one
    /// entry of draw arguments for every batch, in draw order.
    pub open spec fn arguments(&self) -> Seq<DrawIndexedIndirect> {
        Seq::new(self.batches().len(), |j: int| self.argument(j))
    }

    /// Computes on the host what the device writes into the indirect buffer,
    /// to hold a buffer that was read back against. There is no such buffer
    /// for more objects than 32 bits can count.
    pub fn evaluate_arguments(&self) -> (arguments: Option<Vec<DrawIndexedIndirect>>)
        ensures
            match arguments {
                Some(list) => self.inputs@.len() <= u32::MAX && list@ == self.arguments(),
                None => self.inputs@.len() > u32::MAX,
            },
    {
        if self.inputs.len() > u32::MAX as usize {
            return None;
        }
        let list = self.evaluate();
        let ghost objects = input_objects(self.inputs@);
        let mut arguments: Vec<DrawIndexedIndirect> = Vec::new();
        for j in 0..list.batches.len()
            invariant
                objects == input_objects(self.inputs@),
                self.inputs@.len() <= u32::MAX,
                list.batches@ == self.batches(),
                list.instances@ == self.instances(),
                arguments@.len() == j,
                forall|k: int| 0 <= k < j ==> arguments@[k] == self.argument(k),
        {
            proof {
                lemma_batches_tile_instances(self.frustum, objects, j as int);
                lemma_instances_before(self.frustum, objects, frame_keys(self.frustum, objects).len());
            }
            let batch = list.batches[j];
            let first = list.instances[batch.first_instance];
            proof {
                assert(list.instances@.contains(first));
            }
            let range = self.inputs[first].range;
            arguments.push(
                DrawIndexedIndirect {
                    index_count: range.index_count,
                    instance_count: batch.instance_count as u32,
                    first_index: range.first_index,
                    base_vertex: range.base_vertex,
                    first_instance: batch.first_instance as u32,
                },
            );
        }
        proof {
            assert(arguments@ =~= self.arguments());
        }
        Some(arguments)
    }

    /// Computes on the host what the device writes for this input: the same
    /// frustum test for every object, and the same grouping of the survivors.
    pub fn evaluate(&self) -> (list: HostDrawList)
        ensures
            list.batches@ == self.batches(),
            list.instances@ == self.instances(),
    {
        let mut objects: Vec<InternalObject> = Vec::new();
        for i in 0..self.inputs.len()
            invariant
                objects@ == input_objects(self.inputs@).take(i as int),
        {
            objects.push(self.inputs[i].object);
            proof {
                assert(input_objects(self.inputs@).take(i + 1) == input_objects(self.inputs@).take(
                    i as int,
                ).push(self.inputs@[i as int].object));
            }
        }
        proof {
            assert(input_objects(self.inputs@).take(self.inputs@.len() as int) == input_objects(
                self.inputs@,
            ));
        }
        build_draw_list(&self.frustum, objects.as_slice())
    }
}

impl GpuCuller {
    /// The commands that [`GpuCuller::cull`] records for a frame of `count`
    /// objects: nothing for an empty frame, else one compute pass with the
    /// three dispatches in order.
    pub open spec fn cull_commands(&self, count: nat) -> Seq<EncoderCommand> {
        if count == 0 {
            Seq::empty()
        } else {
            let workgroups = workgroups_for(count) as u32;
            seq![
                EncoderCommand::BeginComputePass,
                EncoderCommand::SetBindGroup { slot: CULLING_INPUT_SLOT, group: self.culling_bg },
                EncoderCommand::SetPipeline { pipeline: self.test_pipeline },
                EncoderCommand::Dispatch { workgroups },
                EncoderCommand::SetPipeline { pipeline: self.compact_pipeline },
                EncoderCommand::Dispatch { workgroups },
                EncoderCommand::SetPipeline { pipeline: self.write_pipeline },
                EncoderCommand::Dispatch { workgroups },
                EncoderCommand::EndComputePass,
            ]
        }
    }

    /// What [`GpuCuller::cull`] returns for a frame.
    ///
    /// A frame with more objects than the culler has capacity for is refused
    /// as a whole; no object of it is dropped to make the rest fit. A frame
    /// that fits is refused where an object names something not resident.
    pub open spec fn cull_outcome(
        &self,
        camera: &CameraManager,
        materials: &MaterialManager,
        meshes: &MeshBuffers,
        objects: Seq<InternalObject>,
        outcome: Result<CulledObjectSet, CullError>,
    ) -> bool {
        match outcome {
            Ok(set) => {
                &&& objects.len() <= self.capacity
                &&& all_resolved(objects, meshes, materials)
                &&& set.output_bg == self.output_bg
                &&& set.calls matches ModeData::GPU(data)
                &&& data.indirect_buffer == self.indirect_buffer
                &&& data.count_buffer == self.count_buffer
                &&& data.count == objects.len()
                &&& data.frustum == camera.frustum()
                &&& inputs_encode(data.inputs@, objects, meshes)
            },
            Err(CullError::CapacityExceeded { objects: count, capacity }) => {
                &&& objects.len() > self.capacity
                &&& count == objects.len()
                &&& capacity == self.capacity
            },
            Err(error) => {
                &&& objects.len() <= self.capacity
                &&& reports_first_unresolved(error, objects, meshes, materials)
            },
        }
    }

    /// Prepares one frame for culling on the device and appends the culling
    /// dispatches to the encoder. A refused frame leaves the encoder as it
    /// was.
    pub fn cull(&self, args: GpuCullerCullArgs<'_>) -> (outcome: Result<CulledObjectSet, CullError>)
        ensures
            self.cull_outcome(args.camera, args.materials, args.meshes, args.objects@, outcome),
            outcome is Ok ==> final(args.encoder)@ == old(args.encoder)@ + self.cull_commands(
                args.objects@.len(),
            ),
            outcome is Err ==> final(args.encoder)@ == old(args.encoder)@,
    {
        let count = args.objects.len();
        if count > self.capacity as usize {
            return Err(CullError::CapacityExceeded { objects: count, capacity: self.capacity });
        }
        match check_resolved(args.objects, args.meshes, args.materials) {
            Err(error) => {
                return Err(error);
            },
            Ok(()) => {},
        }
        let mut inputs: Vec<CullingInput> = Vec::new();
        for i in 0..count
            invariant
                count == args.objects@.len(),
                all_resolved(args.objects@, args.meshes, args.materials),
                inputs_encode(inputs@, args.objects@.take(i as int), args.meshes),
        {
            let object = args.objects[i];
            let range = args.meshes.lookup(object.mesh).unwrap();
            inputs.push(CullingInput { object, range });
        }
        proof {
            assert(args.objects@.take(count as int) == args.objects@);
        }
        if count > 0 {
            let workgroups: u32 = ((count as u64 + WORKGROUP_SIZE as u64 - 1) / (
            WORKGROUP_SIZE as u64)) as u32;
            let encoder = args.encoder;
            let ghost start = encoder@;
            encoder.record(EncoderCommand::BeginComputePass);
            encoder.record(
                EncoderCommand::SetBindGroup { slot: CULLING_INPUT_SLOT, group: self.culling_bg },
            );
            encoder.record(EncoderCommand::SetPipeline { pipeline: self.test_pipeline });
            encoder.record(EncoderCommand::Dispatch { workgroups });
            encoder.record(EncoderCommand::SetPipeline { pipeline: self.compact_pipeline });
            encoder.record(EncoderCommand::Dispatch { workgroups });
            encoder.record(EncoderCommand::SetPipeline { pipeline: self.write_pipeline });
            encoder.record(EncoderCommand::Dispatch { workgroups });
            encoder.record(EncoderCommand::EndComputePass);
            proof {
                assert(encoder@ == start + self.cull_commands(count as nat));
            }
        }
        Ok(
            CulledObjectSet {
                calls: ModeData::GPU(
                    IndirectDrawData {
                        indirect_buffer: self.indirect_buffer,
                        count_buffer: self.count_buffer,
                        count: count as u32,
                        frustum: args.camera.frustum(),
                        inputs,
                    },
                ),
                output_bg: self.output_bg,
            },
        )
    }
}

/// The command that [`run`] records.
pub open spec fn run_commands(data: &IndirectDrawData) -> Seq<RenderCommand> {
    seq![
        RenderCommand::MultiDrawIndexedIndirectCount {
            indirect_buffer: data.indirect_buffer,
            count_buffer: data.count_buffer,
            max_count: data.count,
        },
    ]
}

/// Issues the one multi-draw that draws everything the device wrote.
pub fn run(rpass: &mut RenderPass, data: &IndirectDrawData)
    ensures
        final(rpass)@ == old(rpass)@ + run_commands(data),
{
    rpass.multi_draw_indexed_indirect_count(data.indirect_buffer, data.count_buffer, data.count);
}

} // verus!
