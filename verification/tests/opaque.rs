use rend3::culling::cpu::CpuCuller;
use rend3::culling::gpu::GpuCuller;
use rend3::culling::{CullError, CulledObjectSet, DrawBatch, HostDrawList, IndirectDrawData};
use rend3::frustum::{BoundingSphere, Frustum, Plane};
use rend3::handles::{BindGroupHandle, BufferHandle, MaterialHandle, MeshHandle, PipelineHandle};
use rend3::mode::{ModeData, RendererMode};
use rend3::opaque::{
    OpaquePass, OpaquePassCullArgs, OpaquePassDrawArgs, OpaquePassPrepassArgs, CULLED_OBJECTS_SLOT,
    DRAW_LIGHT_SLOT, DRAW_MATERIAL_SLOT, DRAW_TEXTURE_SLOT, DRAW_UNIFORM_SLOT,
    PREPASS_MATERIAL_SLOT, PREPASS_TEXTURE_SLOT, SAMPLER_SLOT,
};
use rend3::recorder::{CommandEncoder, EncoderCommand, RenderCommand, RenderPass};
use rend3::resources::{
    CameraManager, InternalObject, MaterialManager, MeshBuffers, MeshRange, Samplers,
    VERTEX_BUFFER_SLOT,
};

fn cube() -> Frustum {
    Frustum {
        left: Plane { a: 1, b: 0, c: 0, d: 10 },
        right: Plane { a: -1, b: 0, c: 0, d: 10 },
        top: Plane { a: 0, b: -1, c: 0, d: 10 },
        bottom: Plane { a: 0, b: 1, c: 0, d: 10 },
        near: Plane { a: 0, b: 0, c: 1, d: 10 },
        far: Plane { a: 0, b: 0, c: -1, d: 10 },
    }
}

fn object(mesh: usize, material: usize, x: i32) -> InternalObject {
    InternalObject {
        mesh: MeshHandle(mesh),
        material: MaterialHandle(material),
        bounds: BoundingSphere { x, y: 0, z: 0, radius: 1 },
    }
}

fn range(n: u32) -> MeshRange {
    MeshRange { first_index: 100 * n, index_count: 36, base_vertex: 10 * n as i32 }
}

fn meshes() -> MeshBuffers {
    MeshBuffers::new(
        BufferHandle(70),
        BufferHandle(71),
        vec![Some(range(0)), Some(range(1)), Some(range(2)), None],
    )
}

fn materials(table: ModeData<(), BindGroupHandle>) -> MaterialManager {
    MaterialManager::new(
        vec![Some(BindGroupHandle(40)), Some(BindGroupHandle(41)), Some(BindGroupHandle(42)), None],
        table,
    )
}

fn samplers() -> Samplers {
    Samplers { linear_nearest_bg: BindGroupHandle(30) }
}

fn pass() -> OpaquePass {
    OpaquePass::new(PipelineHandle(10), PipelineHandle(11))
}

fn device_culler(capacity: u32) -> GpuCuller {
    GpuCuller {
        capacity,
        test_pipeline: PipelineHandle(1),
        compact_pipeline: PipelineHandle(2),
        write_pipeline: PipelineHandle(3),
        culling_bg: BindGroupHandle(4),
        indirect_buffer: BufferHandle(5),
        count_buffer: BufferHandle(6),
        output_bg: BindGroupHandle(7),
    }
}

fn objects() -> Vec<InternalObject> {
    vec![object(1, 1, 0), object(2, 0, 0), object(1, 1, 5), object(0, 0, 100)]
}

fn host_set() -> CulledObjectSet {
    let camera = CameraManager::new(cube());
    let culler = CpuCuller::new(BindGroupHandle(9));
    let mut encoder = CommandEncoder::new();
    let set = pass()
        .cull_opaque(OpaquePassCullArgs {
            encoder: &mut encoder,
            culler: ModeData::CPU(&culler),
            materials: &materials(ModeData::CPU(())),
            meshes: &meshes(),
            camera: &camera,
            objects: &objects(),
        })
        .unwrap();
    assert!(encoder.commands().is_empty());
    set
}

fn device_set() -> CulledObjectSet {
    let camera = CameraManager::new(cube());
    let culler = device_culler(8);
    let mut encoder = CommandEncoder::new();
    let set = pass()
        .cull_opaque(OpaquePassCullArgs {
            encoder: &mut encoder,
            culler: ModeData::GPU(&culler),
            materials: &materials(ModeData::GPU(BindGroupHandle(50))),
            meshes: &meshes(),
            camera: &camera,
            objects: &objects(),
        })
        .unwrap();
    assert_eq!(encoder.commands().len(), 9);
    assert_eq!(encoder.commands()[3], EncoderCommand::Dispatch { workgroups: 1 });
    set
}

fn bind(slot: u32, group: usize) -> RenderCommand {
    RenderCommand::SetBindGroup { slot, group: BindGroupHandle(group) }
}

fn mesh_binding() -> Vec<RenderCommand> {
    vec![
        RenderCommand::SetVertexBuffer { slot: 0, buffer: BufferHandle(70) },
        RenderCommand::SetIndexBuffer { buffer: BufferHandle(71) },
    ]
}

fn slots(commands: &[RenderCommand]) -> Vec<u32> {
    commands
        .iter()
        .filter_map(|command| match command {
            RenderCommand::SetBindGroup { slot, .. } => Some(*slot),
            _ => None,
        })
        .collect()
}

#[test]
fn cull_opaque_uses_the_host_culler() {
    let set = host_set();
    assert_eq!(set.calls.mode(), RendererMode::CPUPowered);
    assert_eq!(set.output_bg, BindGroupHandle(9));
    let list = set.calls.as_cpu();
    assert_eq!(list.instances, vec![0, 2, 1]);
    assert_eq!(list.batches.len(), 2);
}

#[test]
fn cull_opaque_uses_the_device_culler() {
    let set = device_set();
    assert_eq!(set.calls.mode(), RendererMode::GPUPowered);
    assert_eq!(set.output_bg, BindGroupHandle(7));
    let data = set.calls.as_gpu();
    assert_eq!(data.count, 4);
    let list = data.evaluate();
    assert_eq!(list.instances, vec![0, 2, 1]);
    assert_eq!(list.batches, host_set().calls.as_cpu().batches);
}

#[test]
fn cull_opaque_hands_on_the_cullers_complaint() {
    let camera = CameraManager::new(cube());
    let culler = device_culler(1);
    let mut encoder = CommandEncoder::new();
    let outcome = pass().cull_opaque(OpaquePassCullArgs {
        encoder: &mut encoder,
        culler: ModeData::GPU(&culler),
        materials: &materials(ModeData::GPU(BindGroupHandle(50))),
        meshes: &meshes(),
        camera: &camera,
        objects: &objects(),
    });
    assert_eq!(outcome.err(), Some(CullError::CapacityExceeded { objects: 4, capacity: 1 }));
    assert!(encoder.commands().is_empty());
    let culler = CpuCuller::new(BindGroupHandle(9));
    let outcome = pass().cull_opaque(OpaquePassCullArgs {
        encoder: &mut encoder,
        culler: ModeData::CPU(&culler),
        materials: &materials(ModeData::CPU(())),
        meshes: &meshes(),
        camera: &camera,
        objects: &[object(3, 0, 0)],
    });
    assert_eq!(outcome.err(), Some(CullError::UnresolvedMesh { object: 0 }));
}

#[test]
fn the_host_prepass_draws_batch_by_batch() {
    let mut rpass = RenderPass::new();
    let set = host_set();
    pass().prepass(OpaquePassPrepassArgs {
        rpass: &mut rpass,
        materials: &materials(ModeData::CPU(())),
        meshes: &meshes(),
        samplers: &samplers(),
        texture_bg: ModeData::CPU(()),
        culled_objects: &set,
    });
    let mut expected = mesh_binding();
    expected.extend([
        RenderCommand::SetPipeline { pipeline: PipelineHandle(10) },
        bind(0, 30),
        bind(1, 9),
        bind(2, 41),
        RenderCommand::DrawIndexed { range: range(1), first_instance: 0, instance_count: 2 },
        bind(2, 40),
        RenderCommand::DrawIndexed { range: range(2), first_instance: 2, instance_count: 1 },
    ]);
    assert_eq!(rpass.commands(), &expected);
}

#[test]
fn the_device_prepass_draws_once() {
    let mut rpass = RenderPass::new();
    let set = device_set();
    pass().prepass(OpaquePassPrepassArgs {
        rpass: &mut rpass,
        materials: &materials(ModeData::GPU(BindGroupHandle(50))),
        meshes: &meshes(),
        samplers: &samplers(),
        texture_bg: ModeData::GPU(BindGroupHandle(60)),
        culled_objects: &set,
    });
    let mut expected = mesh_binding();
    expected.extend([
        RenderCommand::SetPipeline { pipeline: PipelineHandle(10) },
        bind(0, 30),
        bind(1, 7),
        bind(2, 50),
        bind(3, 60),
        RenderCommand::MultiDrawIndexedIndirectCount {
            indirect_buffer: BufferHandle(5),
            count_buffer: BufferHandle(6),
            max_count: 4,
        },
    ]);
    assert_eq!(rpass.commands(), &expected);
}

#[test]
fn the_host_draw_binds_lights_and_uniforms() {
    let mut rpass = RenderPass::new();
    let set = host_set();
    pass().draw(OpaquePassDrawArgs {
        rpass: &mut rpass,
        materials: &materials(ModeData::CPU(())),
        meshes: &meshes(),
        samplers: &samplers(),
        directional_light_bg: BindGroupHandle(80),
        texture_bg: ModeData::CPU(()),
        shader_uniform_bg: BindGroupHandle(81),
        culled_objects: &set,
    });
    let mut expected = mesh_binding();
    expected.extend([
        RenderCommand::SetPipeline { pipeline: PipelineHandle(11) },
        bind(0, 30),
        bind(1, 9),
        bind(2, 80),
        bind(3, 81),
        bind(4, 41),
        RenderCommand::DrawIndexed { range: range(1), first_instance: 0, instance_count: 2 },
        bind(4, 40),
        RenderCommand::DrawIndexed { range: range(2), first_instance: 2, instance_count: 1 },
    ]);
    assert_eq!(rpass.commands(), &expected);
}

#[test]
fn the_device_draw_draws_once() {
    let mut rpass = RenderPass::new();
    let set = device_set();
    pass().draw(OpaquePassDrawArgs {
        rpass: &mut rpass,
        materials: &materials(ModeData::GPU(BindGroupHandle(50))),
        meshes: &meshes(),
        samplers: &samplers(),
        directional_light_bg: BindGroupHandle(80),
        texture_bg: ModeData::GPU(BindGroupHandle(60)),
        shader_uniform_bg: BindGroupHandle(81),
        culled_objects: &set,
    });
    let mut expected = mesh_binding();
    expected.extend([
        RenderCommand::SetPipeline { pipeline: PipelineHandle(11) },
        bind(0, 30),
        bind(1, 7),
        bind(2, 80),
        bind(3, 81),
        bind(4, 50),
        bind(5, 60),
        RenderCommand::MultiDrawIndexedIndirectCount {
            indirect_buffer: BufferHandle(5),
            count_buffer: BufferHandle(6),
            max_count: 4,
        },
    ]);
    assert_eq!(rpass.commands(), &expected);
}

#[test]
fn a_pass_appends_to_what_the_render_pass_holds() {
    let mut rpass = RenderPass::new();
    rpass.set_pipeline(PipelineHandle(99));
    let set = device_set();
    pass().prepass(OpaquePassPrepassArgs {
        rpass: &mut rpass,
        materials: &materials(ModeData::GPU(BindGroupHandle(50))),
        meshes: &meshes(),
        samplers: &samplers(),
        texture_bg: ModeData::GPU(BindGroupHandle(60)),
        culled_objects: &set,
    });
    assert_eq!(rpass.commands().len(), 9);
    assert_eq!(rpass.commands()[0], RenderCommand::SetPipeline { pipeline: PipelineHandle(99) });
}

fn host_set_of(batches: usize) -> CulledObjectSet {
    let batches: Vec<DrawBatch> = (0..batches)
        .map(|k| DrawBatch {
            mesh: MeshHandle(k % 3),
            material: MaterialHandle(k % 2),
            first_instance: k,
            instance_count: 1,
        })
        .collect();
    let instances = (0..batches.len()).collect();
    CulledObjectSet {
        calls: ModeData::CPU(HostDrawList { batches, instances }),
        output_bg: BindGroupHandle(9),
    }
}

fn prepass_slots_of(set: &CulledObjectSet, table: ModeData<(), BindGroupHandle>, textures: ModeData<(), BindGroupHandle>) -> Vec<u32> {
    let mut rpass = RenderPass::new();
    pass().prepass(OpaquePassPrepassArgs {
        rpass: &mut rpass,
        materials: &materials(table),
        meshes: &meshes(),
        samplers: &samplers(),
        texture_bg: textures,
        culled_objects: set,
    });
    slots(rpass.commands())
}

fn draw_slots_of(set: &CulledObjectSet, table: ModeData<(), BindGroupHandle>, textures: ModeData<(), BindGroupHandle>) -> Vec<u32> {
    let mut rpass = RenderPass::new();
    pass().draw(OpaquePassDrawArgs {
        rpass: &mut rpass,
        materials: &materials(table),
        meshes: &meshes(),
        samplers: &samplers(),
        directional_light_bg: BindGroupHandle(80),
        texture_bg: textures,
        shader_uniform_bg: BindGroupHandle(81),
        culled_objects: set,
    });
    slots(rpass.commands())
}

#[test]
fn the_slots_do_not_depend_on_the_frame() {
    for batches in [0, 1, 2, 7] {
        let set = host_set_of(batches);
        let mut expected = vec![0, 1];
        expected.extend(vec![2; batches]);
        assert_eq!(prepass_slots_of(&set, ModeData::CPU(()), ModeData::CPU(())), expected);
        let mut expected = vec![0, 1, 2, 3];
        expected.extend(vec![4; batches]);
        assert_eq!(draw_slots_of(&set, ModeData::CPU(()), ModeData::CPU(())), expected);
    }
    for count in [0, 1, 1000] {
        let set = CulledObjectSet {
            calls: ModeData::GPU(IndirectDrawData {
                indirect_buffer: BufferHandle(5),
                count_buffer: BufferHandle(6),
                count,
                frustum: cube(),
                inputs: Vec::new(),
            }),
            output_bg: BindGroupHandle(7),
        };
        let table = || ModeData::GPU(BindGroupHandle(50));
        let textures = || ModeData::GPU(BindGroupHandle(60));
        assert_eq!(prepass_slots_of(&set, table(), textures()), vec![0, 1, 2, 3]);
        assert_eq!(draw_slots_of(&set, table(), textures()), vec![0, 1, 2, 3, 4, 5]);
    }
}

#[test]
fn the_slot_table_is_what_the_layouts_say() {
    assert_eq!(
        [SAMPLER_SLOT, CULLED_OBJECTS_SLOT, PREPASS_MATERIAL_SLOT, PREPASS_TEXTURE_SLOT],
        [0, 1, 2, 3]
    );
    assert_eq!(
        [
            SAMPLER_SLOT,
            CULLED_OBJECTS_SLOT,
            DRAW_LIGHT_SLOT,
            DRAW_UNIFORM_SLOT,
            DRAW_MATERIAL_SLOT,
            DRAW_TEXTURE_SLOT
        ],
        [0, 1, 2, 3, 4, 5]
    );
    assert_eq!(VERTEX_BUFFER_SLOT, 0);
}
