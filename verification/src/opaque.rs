//! The opaque pass: culling, the depth prepass and the lit opaque draw of one
//! frame.
//!
//! The pass keeps two pipelines for its whole life and nothing else from one
//! frame to the next. Both draws bind their groups at slots that the pipeline
//! layouts fix once and for all; the opaque layout extends the depth layout.
//!
//! | slot | depth prepass            | opaque draw              |
//! |------|--------------------------|--------------------------|
//! | 0    | samplers                 | samplers                 |
//! | 1    | per-instance data        | per-instance data        |
//! | 2    | materials                | directional lights       |
//! | 3    | textures (device only)   | shader uniforms          |
//! | 4    |                          | materials                |
//! | 5    |                          | textures (device only)   |

use vstd::prelude::*;
use crate::culling::cpu::{CpuCuller, CpuCullerCullArgs};
use crate::culling::gpu::{GpuCuller, GpuCullerCullArgs};
use crate::culling::{CullError, CulledObjectSet};
use crate::handles::{BindGroupHandle, PipelineHandle};
use crate::mode::{ModeData, RendererMode};
use crate::recorder::{CommandEncoder, RenderCommand, RenderPass};
use crate::resources::{CameraManager, InternalObject, MaterialManager, MeshBuffers, Samplers};

verus! {

/// The slot of the samplers, in both draws.
pub const SAMPLER_SLOT: u32 = 0;

/// The slot of the per-instance data that culling produced, in both draws.
pub const CULLED_OBJECTS_SLOT: u32 = 1;

/// The slot of the materials in the depth prepass.
pub const PREPASS_MATERIAL_SLOT: u32 = 2;

/// The slot of the texture array in the depth prepass.
pub const PREPASS_TEXTURE_SLOT: u32 = 3;

/// The slot of the directional lights in the opaque draw.
pub const DRAW_LIGHT_SLOT: u32 = 2;

/// The slot of the shader uniforms in the opaque draw.
pub const DRAW_UNIFORM_SLOT: u32 = 3;

/// The slot of the materials in the opaque draw.
pub const DRAW_MATERIAL_SLOT: u32 = 4;

/// The slot of the texture array in the opaque draw.
pub const DRAW_TEXTURE_SLOT: u32 = 5;

/// What [`OpaquePass::cull_opaque`] reads for one frame.
pub struct OpaquePassCullArgs<'a> {
    /// The encoder that the device culler appends its dispatches to.
    pub encoder: &'a mut CommandEncoder,
    /// The culler of the renderer's strategy.
    pub culler: ModeData<&'a CpuCuller, &'a GpuCuller>,
    pub materials: &'a MaterialManager,
    pub meshes: &'a MeshBuffers,
    pub camera: &'a CameraManager,
    pub objects: &'a [InternalObject],
}

/// What [`OpaquePass::prepass`] reads, and the render pass that it records
/// into.
pub struct OpaquePassPrepassArgs<'rpass, 'b> {
    pub rpass: &'b mut RenderPass,
    pub materials: &'rpass MaterialManager,
    pub meshes: &'rpass MeshBuffers,
    pub samplers: &'rpass Samplers,
    /// The texture array; it exists under the device strategy only.
    pub texture_bg: ModeData<(), BindGroupHandle>,
    pub culled_objects: &'rpass CulledObjectSet,
}

/// What [`OpaquePass::draw`] reads, and the render pass that it records into.
pub struct OpaquePassDrawArgs<'rpass, 'b> {
    pub rpass: &'b mut RenderPass,
    pub materials: &'rpass MaterialManager,
    pub meshes: &'rpass MeshBuffers,
    pub samplers: &'rpass Samplers,
    pub directional_light_bg: BindGroupHandle,
    /// The texture array; it exists under the device strategy only.
    pub texture_bg: ModeData<(), BindGroupHandle>,
    pub shader_uniform_bg: BindGroupHandle,
    pub culled_objects: &'rpass CulledObjectSet,
}

/// The opaque pass of a renderer.
#[derive(Clone, Copy, Debug, PartialEq, Eq, Structural)]
pub struct OpaquePass {
    depth_pipeline: PipelineHandle,
    opaque_pipeline: PipelineHandle,
}

/// Whether a culled set can be drawn with the given tables: under the host
/// strategy every batch names a resident mesh and material; under the device
/// strategy the material table and the texture array have their device
/// bindings.
pub open spec fn can_draw(
    culled_objects: &CulledObjectSet,
    materials: &MaterialManager,
    meshes: &MeshBuffers,
    texture_bg: ModeData<(), BindGroupHandle>,
) -> bool {
    match culled_objects.calls {
        ModeData::CPU(list) => crate::culling::cpu::batches_resolved(list.batches@, materials, meshes),
        ModeData::GPU(_) => materials.table() is GPU && texture_bg is GPU,
    }
}

/// Checks whether a culled set can be drawn with the given tables. A caller
/// that cannot rule out a mismatch asks here before it records a pass, and
/// abandons the frame on `false`.
pub fn check_can_draw(
    culled_objects: &CulledObjectSet,
    materials: &MaterialManager,
    meshes: &MeshBuffers,
    texture_bg: &ModeData<(), BindGroupHandle>,
) -> (drawable: bool)
    ensures
        drawable == can_draw(culled_objects, materials, meshes, *texture_bg),
{
    match &culled_objects.calls {
        ModeData::CPU(list) => crate::culling::cpu::check_batches_resolved(
            &list.batches,
            materials,
            meshes,
        ),
        ModeData::GPU(_) => {
            let table = materials.mode();
            let textures = texture_bg.mode();
            table == RendererMode::GPUPowered && textures == RendererMode::GPUPowered
        },
    }
}

/// The commands that draw a culled set, with the materials bound at
/// `material_slot` and, under the device strategy, the texture array at
/// `texture_slot`.
pub open spec fn draw_commands(
    culled_objects: &CulledObjectSet,
    materials: &MaterialManager,
    meshes: &MeshBuffers,
    texture_bg: ModeData<(), BindGroupHandle>,
    material_slot: u32,
    texture_slot: u32,
) -> Seq<RenderCommand> {
    match culled_objects.calls {
        ModeData::CPU(list) => crate::culling::cpu::run_commands(
            list.batches@,
            materials,
            meshes,
            material_slot,
            list.batches@.len(),
        ),
        ModeData::GPU(data) => seq![
            RenderCommand::SetBindGroup { slot: material_slot, group: materials.table()->GPU_0 },
            RenderCommand::SetBindGroup { slot: texture_slot, group: texture_bg->GPU_0 },
        ] + crate::culling::gpu::run_commands(&data),
    }
}

impl OpaquePass {
    /// The pass that draws depth with `depth_pipeline` and colour with
    /// `opaque_pipeline`.
    pub fn new(depth_pipeline: PipelineHandle, opaque_pipeline: PipelineHandle) -> (pass: OpaquePass)
        ensures
            pass.depth_pipeline() == depth_pipeline,
            pass.opaque_pipeline() == opaque_pipeline,
    {
        OpaquePass { depth_pipeline, opaque_pipeline }
    }

    /// The pipeline of the depth prepass.
    pub closed spec fn depth_pipeline(&self) -> PipelineHandle {
        self.depth_pipeline
    }

    /// The pipeline of the opaque draw.
    pub closed spec fn opaque_pipeline(&self) -> PipelineHandle {
        self.opaque_pipeline
    }

    /// Culls one frame with the culler of the renderer's strategy. The result
    /// is tagged with that strategy. Only the device culler touches the
    /// encoder.
    pub fn cull_opaque(&self, args: OpaquePassCullArgs<'_>) -> (outcome: Result<
        CulledObjectSet,
        CullError,
    >)
        ensures
            outcome matches Ok(set) ==> set.calls.mode() == args.culler.mode(),
            match args.culler {
                ModeData::CPU(culler) => {
                    &&& culler.cull_outcome(
                        args.camera,
                        args.materials,
                        args.meshes,
                        args.objects@,
                        outcome,
                    )
                    &&& final(args.encoder)@ == old(args.encoder)@
                },
                ModeData::GPU(culler) => {
                    &&& culler.cull_outcome(
                        args.camera,
                        args.materials,
                        args.meshes,
                        args.objects@,
                        outcome,
                    )
                    &&& outcome is Ok ==> final(args.encoder)@ == old(args.encoder)@
                        + culler.cull_commands(args.objects@.len())
                    &&& outcome is Err ==> final(args.encoder)@ == old(args.encoder)@
                },
            },
    {
        match args.culler {
            ModeData::CPU(cpu_culler) => cpu_culler.cull(
                CpuCullerCullArgs {
                    camera: args.camera,
                    materials: args.materials,
                    meshes: args.meshes,
                    objects: args.objects,
                },
            ),
            ModeData::GPU(gpu_culler) => gpu_culler.cull(
                GpuCullerCullArgs {
                    encoder: args.encoder,
                    materials: args.materials,
                    meshes: args.meshes,
                    camera: args.camera,
                    objects: args.objects,
                },
            ),
        }
    }

    /// The commands of the depth prepass.
    pub open spec fn prepass_commands(
        &self,
        materials: &MaterialManager,
        meshes: &MeshBuffers,
        samplers: &Samplers,
        texture_bg: ModeData<(), BindGroupHandle>,
        culled_objects: &CulledObjectSet,
    ) -> Seq<RenderCommand> {
        meshes.bind_commands() + seq![
            RenderCommand::SetPipeline { pipeline: self.depth_pipeline() },
            RenderCommand::SetBindGroup { slot: SAMPLER_SLOT, group: samplers.linear_nearest_bg },
            RenderCommand::SetBindGroup {
                slot: CULLED_OBJECTS_SLOT,
                group: culled_objects.output_bg,
            },
        ] + draw_commands(
            culled_objects,
            materials,
            meshes,
            texture_bg,
            PREPASS_MATERIAL_SLOT,
            PREPASS_TEXTURE_SLOT,
        )
    }

    /// Records the depth prepass: the frame's draws with the depth pipeline,
    /// which writes depth and no colour.
    pub fn prepass<'rpass>(&'rpass self, args: OpaquePassPrepassArgs<'rpass, '_>)
        requires
            can_draw(args.culled_objects, args.materials, args.meshes, args.texture_bg),
        ensures
            final(args.rpass)@ == old(args.rpass)@ + self.prepass_commands(
                args.materials,
                args.meshes,
                args.samplers,
                args.texture_bg,
                args.culled_objects,
            ),
    {
        let rpass = args.rpass;
        args.meshes.bind(rpass);

        rpass.set_pipeline(self.depth_pipeline);
        rpass.set_bind_group(SAMPLER_SLOT, args.samplers.linear_nearest_bg);
        rpass.set_bind_group(CULLED_OBJECTS_SLOT, args.culled_objects.output_bg);

        match &args.culled_objects.calls {
            ModeData::CPU(draws) => crate::culling::cpu::run(
                rpass,
                &draws.batches,
                args.materials,
                args.meshes,
                PREPASS_MATERIAL_SLOT,
            ),
            ModeData::GPU(data) => {
                rpass.set_bind_group(PREPASS_MATERIAL_SLOT, args.materials.gpu_get_bind_group());
                rpass.set_bind_group(PREPASS_TEXTURE_SLOT, *args.texture_bg.as_gpu());
                crate::culling::gpu::run(rpass, data);
            },
        }
    }

    /// The commands of the opaque draw.
    pub open spec fn opaque_commands(
        &self,
        materials: &MaterialManager,
        meshes: &MeshBuffers,
        samplers: &Samplers,
        directional_light_bg: BindGroupHandle,
        texture_bg: ModeData<(), BindGroupHandle>,
        shader_uniform_bg: BindGroupHandle,
        culled_objects: &CulledObjectSet,
    ) -> Seq<RenderCommand> {
        meshes.bind_commands() + seq![
            RenderCommand::SetPipeline { pipeline: self.opaque_pipeline() },
            RenderCommand::SetBindGroup { slot: SAMPLER_SLOT, group: samplers.linear_nearest_bg },
            RenderCommand::SetBindGroup {
                slot: CULLED_OBJECTS_SLOT,
                group: culled_objects.output_bg,
            },
            RenderCommand::SetBindGroup { slot: DRAW_LIGHT_SLOT, group: directional_light_bg },
            RenderCommand::SetBindGroup { slot: DRAW_UNIFORM_SLOT, group: shader_uniform_bg },
        ] + draw_commands(
            culled_objects,
            materials,
            meshes,
            texture_bg,
            DRAW_MATERIAL_SLOT,
            DRAW_TEXTURE_SLOT,
        )
    }

    /// Records the opaque draw: the frame's draws with the opaque pipeline,
    /// lit and shaded.
    pub fn draw<'rpass>(&'rpass self, args: OpaquePassDrawArgs<'rpass, '_>)
        requires
            can_draw(args.culled_objects, args.materials, args.meshes, args.texture_bg),
        ensures
            final(args.rpass)@ == old(args.rpass)@ + self.opaque_commands(
                args.materials,
                args.meshes,
                args.samplers,
                args.directional_light_bg,
                args.texture_bg,
                args.shader_uniform_bg,
                args.culled_objects,
            ),
    {
        let rpass = args.rpass;
        args.meshes.bind(rpass);

        rpass.set_pipeline(self.opaque_pipeline);
        rpass.set_bind_group(SAMPLER_SLOT, args.samplers.linear_nearest_bg);
        rpass.set_bind_group(CULLED_OBJECTS_SLOT, args.culled_objects.output_bg);
        rpass.set_bind_group(DRAW_LIGHT_SLOT, args.directional_light_bg);
        rpass.set_bind_group(DRAW_UNIFORM_SLOT, args.shader_uniform_bg);

        match &args.culled_objects.calls {
            ModeData::CPU(draws) => crate::culling::cpu::run(
                rpass,
                &draws.batches,
                args.materials,
                args.meshes,
                DRAW_MATERIAL_SLOT,
            ),
            ModeData::GPU(data) => {
                rpass.set_bind_group(DRAW_MATERIAL_SLOT, args.materials.gpu_get_bind_group());
                rpass.set_bind_group(DRAW_TEXTURE_SLOT, *args.texture_bg.as_gpu());
                crate::culling::gpu::run(rpass, data);
            },
        }
    }
}

/// The slots that a command stream binds groups at, in the order of the
/// stream.
pub open spec fn bind_slots(commands: Seq<RenderCommand>) -> Seq<u32>
    decreases commands.len(),
{
    if commands.len() == 0 {
        Seq::empty()
    } else {
        let before = bind_slots(commands.drop_last());
        match commands.last() {
            RenderCommand::SetBindGroup { slot, .. } => before.push(slot),
            _ => before,
        }
    }
}

/// The slots of the depth prepass. Under the host strategy the two fixed
/// bindings are followed by the material slot once for every batch.
pub open spec fn prepass_slots(mode: RendererMode, batches: nat) -> Seq<u32> {
    match mode {
        RendererMode::CPUPowered => seq![SAMPLER_SLOT, CULLED_OBJECTS_SLOT] + Seq::new(
            batches,
            |k: int| PREPASS_MATERIAL_SLOT,
        ),
        RendererMode::GPUPowered => seq![
            SAMPLER_SLOT,
            CULLED_OBJECTS_SLOT,
            PREPASS_MATERIAL_SLOT,
            PREPASS_TEXTURE_SLOT,
        ],
    }
}

/// The slots of the opaque draw. Under the host strategy the four fixed
/// bindings are followed by the material slot once for every batch.
pub open spec fn opaque_slots(mode: RendererMode, batches: nat) -> Seq<u32> {
    match mode {
        RendererMode::CPUPowered => seq![
            SAMPLER_SLOT,
            CULLED_OBJECTS_SLOT,
            DRAW_LIGHT_SLOT,
            DRAW_UNIFORM_SLOT,
        ] + Seq::new(batches, |k: int| DRAW_MATERIAL_SLOT),
        RendererMode::GPUPowered => seq![
            SAMPLER_SLOT,
            CULLED_OBJECTS_SLOT,
            DRAW_LIGHT_SLOT,
            DRAW_UNIFORM_SLOT,
            DRAW_MATERIAL_SLOT,
            DRAW_TEXTURE_SLOT,
        ],
    }
}

/// The slots of a stream that ends in `command` are the slots of the stream
/// before it and, where `command` binds a group, its slot.
proof fn lemma_slots_push(commands: Seq<RenderCommand>, command: RenderCommand)
    ensures
        bind_slots(commands.push(command)) == match command {
            RenderCommand::SetBindGroup { slot, .. } => bind_slots(commands).push(slot),
            _ => bind_slots(commands),
        },
{
    assert(commands.push(command).drop_last() == commands);
}

/// The slots of two streams laid end to end are the slots of the first
/// followed by the slots of the second.
proof fn lemma_slots_concat(first: Seq<RenderCommand>, second: Seq<RenderCommand>)
    ensures
        bind_slots(first + second) == bind_slots(first) + bind_slots(second),
    decreases second.len(),
{
    if second.len() == 0 {
        assert(first + second == first);
    } else {
        lemma_slots_concat(first, second.drop_last());
        assert((first + second).drop_last() == first + second.drop_last());
        assert((first + second).last() == second.last());
    }
}

/// The host's draws bind at the material slot once for every batch, and
/// nowhere else.
proof fn lemma_host_draw_slots(
    draws: Seq<crate::culling::DrawBatch>,
    materials: &MaterialManager,
    meshes: &MeshBuffers,
    material_slot: u32,
    n: nat,
)
    ensures
        bind_slots(crate::culling::cpu::run_commands(draws, materials, meshes, material_slot, n))
            == Seq::new(n, |k: int| material_slot),
    decreases n,
{
    if n > 0 {
        let before = crate::culling::cpu::run_commands(
            draws,
            materials,
            meshes,
            material_slot,
            (n - 1) as nat,
        );
        let batch = crate::culling::cpu::batch_commands(draws[n - 1], materials, meshes, material_slot);
        lemma_host_draw_slots(draws, materials, meshes, material_slot, (n - 1) as nat);
        lemma_slots_concat(before, batch);
        assert(batch == Seq::<RenderCommand>::empty().push(batch[0]).push(batch[1]));
        lemma_slots_push(Seq::empty(), batch[0]);
        lemma_slots_push(Seq::<RenderCommand>::empty().push(batch[0]), batch[1]);
        assert(bind_slots(batch) == seq![material_slot]);
        assert(Seq::new((n - 1) as nat, |k: int| material_slot) + seq![material_slot] == Seq::new(
            n,
            |k: int| material_slot,
        ));
    }
}

/// The slots at which a culled set's draws bind.
proof fn lemma_draw_slots(
    culled_objects: &CulledObjectSet,
    materials: &MaterialManager,
    meshes: &MeshBuffers,
    texture_bg: ModeData<(), BindGroupHandle>,
    material_slot: u32,
    texture_slot: u32,
)
    ensures
        bind_slots(
            draw_commands(culled_objects, materials, meshes, texture_bg, material_slot, texture_slot),
        ) == match culled_objects.calls {
            ModeData::CPU(list) => Seq::new(list.batches@.len(), |k: int| material_slot),
            ModeData::GPU(_) => seq![material_slot, texture_slot],
        },
{
    match culled_objects.calls {
        ModeData::CPU(list) => {
            lemma_host_draw_slots(list.batches@, materials, meshes, material_slot, list.batches@.len());
        },
        ModeData::GPU(data) => {
            let commands = draw_commands(
                culled_objects,
                materials,
                meshes,
                texture_bg,
                material_slot,
                texture_slot,
            );
            let none = Seq::<RenderCommand>::empty();
            assert(commands == none.push(commands[0]).push(commands[1]).push(commands[2]));
            lemma_slots_push(none, commands[0]);
            lemma_slots_push(none.push(commands[0]), commands[1]);
            lemma_slots_push(none.push(commands[0]).push(commands[1]), commands[2]);
        },
    }
}

/// The depth prepass binds its groups at slots 0 to 3, the same slots in
/// every frame. Which slots it binds, and in which order, depends on the
/// strategy and on the number of batches and on nothing else: not on the
/// camera, the objects, the handles or the batch that is being drawn.
pub proof fn lemma_prepass_slots_are_fixed(
    pass: OpaquePass,
    materials: &MaterialManager,
    meshes: &MeshBuffers,
    samplers: &Samplers,
    texture_bg: ModeData<(), BindGroupHandle>,
    culled_objects: &CulledObjectSet,
)
    ensures
        bind_slots(pass.prepass_commands(materials, meshes, samplers, texture_bg, culled_objects))
            == prepass_slots(culled_objects.calls.mode(), culled_objects.batches().len()),
        forall|k: int|
            0 <= k < prepass_slots(
                culled_objects.calls.mode(),
                culled_objects.batches().len(),
            ).len() ==> #[trigger] prepass_slots(
                culled_objects.calls.mode(),
                culled_objects.batches().len(),
            )[k] <= PREPASS_TEXTURE_SLOT,
{
    let fixed = seq![
        RenderCommand::SetPipeline { pipeline: pass.depth_pipeline() },
        RenderCommand::SetBindGroup { slot: SAMPLER_SLOT, group: samplers.linear_nearest_bg },
        RenderCommand::SetBindGroup { slot: CULLED_OBJECTS_SLOT, group: culled_objects.output_bg },
    ];
    let draws = draw_commands(
        culled_objects,
        materials,
        meshes,
        texture_bg,
        PREPASS_MATERIAL_SLOT,
        PREPASS_TEXTURE_SLOT,
    );
    let bind = meshes.bind_commands();
    let none = Seq::<RenderCommand>::empty();
    assert(bind == none.push(bind[0]).push(bind[1]));
    lemma_slots_push(none, bind[0]);
    lemma_slots_push(none.push(bind[0]), bind[1]);
    assert(fixed == none.push(fixed[0]).push(fixed[1]).push(fixed[2]));
    lemma_slots_push(none, fixed[0]);
    lemma_slots_push(none.push(fixed[0]), fixed[1]);
    lemma_slots_push(none.push(fixed[0]).push(fixed[1]), fixed[2]);
    lemma_slots_concat(bind, fixed);
    lemma_slots_concat(bind + fixed, draws);
    lemma_draw_slots(
        culled_objects,
        materials,
        meshes,
        texture_bg,
        PREPASS_MATERIAL_SLOT,
        PREPASS_TEXTURE_SLOT,
    );
    assert(bind_slots(bind + fixed + draws) == prepass_slots(
        culled_objects.calls.mode(),
        culled_objects.batches().len(),
    ));
}

/// The opaque draw binds its groups at slots 0 to 5, the same slots in every
/// frame. Which slots it binds, and in which order, depends on the strategy
/// and on the number of batches and on nothing else. Slots 0 and 1 hold what
/// they hold in the depth prepass.
pub proof fn lemma_opaque_slots_are_fixed(
    pass: OpaquePass,
    materials: &MaterialManager,
    meshes: &MeshBuffers,
    samplers: &Samplers,
    directional_light_bg: BindGroupHandle,
    texture_bg: ModeData<(), BindGroupHandle>,
    shader_uniform_bg: BindGroupHandle,
    culled_objects: &CulledObjectSet,
)
    ensures
        bind_slots(
            pass.opaque_commands(
                materials,
                meshes,
                samplers,
                directional_light_bg,
                texture_bg,
                shader_uniform_bg,
                culled_objects,
            ),
        ) == opaque_slots(culled_objects.calls.mode(), culled_objects.batches().len()),
        forall|k: int|
            0 <= k < opaque_slots(
                culled_objects.calls.mode(),
                culled_objects.batches().len(),
            ).len() ==> #[trigger] opaque_slots(
                culled_objects.calls.mode(),
                culled_objects.batches().len(),
            )[k] <= DRAW_TEXTURE_SLOT,
        opaque_slots(culled_objects.calls.mode(), culled_objects.batches().len()).take(2)
            == prepass_slots(culled_objects.calls.mode(), culled_objects.batches().len()).take(2),
{
    let fixed = seq![
        RenderCommand::SetPipeline { pipeline: pass.opaque_pipeline() },
        RenderCommand::SetBindGroup { slot: SAMPLER_SLOT, group: samplers.linear_nearest_bg },
        RenderCommand::SetBindGroup { slot: CULLED_OBJECTS_SLOT, group: culled_objects.output_bg },
        RenderCommand::SetBindGroup { slot: DRAW_LIGHT_SLOT, group: directional_light_bg },
        RenderCommand::SetBindGroup { slot: DRAW_UNIFORM_SLOT, group: shader_uniform_bg },
    ];
    let draws = draw_commands(
        culled_objects,
        materials,
        meshes,
        texture_bg,
        DRAW_MATERIAL_SLOT,
        DRAW_TEXTURE_SLOT,
    );
    let bind = meshes.bind_commands();
    let none = Seq::<RenderCommand>::empty();
    assert(bind == none.push(bind[0]).push(bind[1]));
    lemma_slots_push(none, bind[0]);
    lemma_slots_push(none.push(bind[0]), bind[1]);
    assert(fixed == none.push(fixed[0]).push(fixed[1]).push(fixed[2]).push(fixed[3]).push(fixed[4]));
    lemma_slots_push(none, fixed[0]);
    lemma_slots_push(none.push(fixed[0]), fixed[1]);
    lemma_slots_push(none.push(fixed[0]).push(fixed[1]), fixed[2]);
    lemma_slots_push(none.push(fixed[0]).push(fixed[1]).push(fixed[2]), fixed[3]);
    lemma_slots_push(none.push(fixed[0]).push(fixed[1]).push(fixed[2]).push(fixed[3]), fixed[4]);
    lemma_slots_concat(bind, fixed);
    lemma_slots_concat(bind + fixed, draws);
    lemma_draw_slots(
        culled_objects,
        materials,
        meshes,
        texture_bg,
        DRAW_MATERIAL_SLOT,
        DRAW_TEXTURE_SLOT,
    );
    assert(bind_slots(bind + fixed + draws) == opaque_slots(
        culled_objects.calls.mode(),
        culled_objects.batches().len(),
    ));
}

} // verus!
