use rend3::frustum::{Frustum, Plane};
use rend3::handles::{BindGroupHandle, BufferHandle, MaterialHandle, MeshHandle, PipelineHandle};
use rend3::mode::{ModeData, RendererMode};
use rend3::recorder::{CommandEncoder, EncoderCommand, RenderCommand, RenderPass};
use rend3::resources::{CameraManager, MaterialManager, MeshBuffers, MeshRange};

#[test]
fn mode_data_knows_its_strategy() {
    let host: ModeData<u8, u16> = ModeData::CPU(3);
    let device: ModeData<u8, u16> = ModeData::GPU(4);
    assert_eq!(host.mode(), RendererMode::CPUPowered);
    assert_eq!(device.mode(), RendererMode::GPUPowered);
    assert_eq!(*host.as_cpu(), 3);
    assert_eq!(*device.as_gpu(), 4);
}

#[test]
fn a_camera_keeps_its_frustum() {
    let plane = |d: i32| Plane { a: 1, b: 2, c: 3, d };
    let frustum = Frustum {
        left: plane(1),
        right: plane(2),
        top: plane(3),
        bottom: plane(4),
        near: plane(5),
        far: plane(6),
    };
    assert_eq!(CameraManager::new(frustum).frustum(), frustum);
}

#[test]
fn a_mesh_table_resolves_resident_meshes_only() {
    let range = MeshRange { first_index: 6, index_count: 12, base_vertex: -4 };
    let meshes = MeshBuffers::new(BufferHandle(1), BufferHandle(2), vec![None, Some(range)]);
    assert_eq!(meshes.lookup(MeshHandle(0)), None);
    assert_eq!(meshes.lookup(MeshHandle(1)), Some(range));
    assert_eq!(meshes.lookup(MeshHandle(2)), None);
    assert_eq!(meshes.lookup(MeshHandle(usize::MAX)), None);
}

#[test]
fn a_mesh_table_binds_its_two_buffers() {
    let meshes = MeshBuffers::new(BufferHandle(1), BufferHandle(2), Vec::new());
    let mut rpass = RenderPass::new();
    rpass.set_bind_group(5, BindGroupHandle(6));
    meshes.bind(&mut rpass);
    assert_eq!(
        rpass.commands(),
        &vec![
            RenderCommand::SetBindGroup { slot: 5, group: BindGroupHandle(6) },
            RenderCommand::SetVertexBuffer { slot: 0, buffer: BufferHandle(1) },
            RenderCommand::SetIndexBuffer { buffer: BufferHandle(2) },
        ]
    );
}

#[test]
fn a_material_table_resolves_resident_materials_only() {
    let materials = MaterialManager::new(
        vec![Some(BindGroupHandle(8)), None],
        ModeData::GPU(BindGroupHandle(9)),
    );
    assert_eq!(materials.lookup(MaterialHandle(0)), Some(BindGroupHandle(8)));
    assert_eq!(materials.lookup(MaterialHandle(1)), None);
    assert_eq!(materials.lookup(MaterialHandle(2)), None);
    assert_eq!(materials.cpu_get_bind_group(MaterialHandle(0)), BindGroupHandle(8));
    assert_eq!(materials.gpu_get_bind_group(), BindGroupHandle(9));
}

#[test]
fn a_render_pass_records_in_order() {
    let mut rpass = RenderPass::new();
    assert!(rpass.commands().is_empty());
    let range = MeshRange { first_index: 0, index_count: 3, base_vertex: 0 };
    rpass.set_vertex_buffer(1, BufferHandle(2));
    rpass.set_index_buffer(BufferHandle(3));
    rpass.set_pipeline(PipelineHandle(4));
    rpass.set_bind_group(5, BindGroupHandle(6));
    rpass.draw_indexed(range, 7, 8);
    rpass.multi_draw_indexed_indirect_count(BufferHandle(9), BufferHandle(10), 11);
    rpass.record(RenderCommand::SetPipeline { pipeline: PipelineHandle(12) });
    assert_eq!(
        rpass.commands(),
        &vec![
            RenderCommand::SetVertexBuffer { slot: 1, buffer: BufferHandle(2) },
            RenderCommand::SetIndexBuffer { buffer: BufferHandle(3) },
            RenderCommand::SetPipeline { pipeline: PipelineHandle(4) },
            RenderCommand::SetBindGroup { slot: 5, group: BindGroupHandle(6) },
            RenderCommand::DrawIndexed { range, first_instance: 7, instance_count: 8 },
            RenderCommand::MultiDrawIndexedIndirectCount {
                indirect_buffer: BufferHandle(9),
                count_buffer: BufferHandle(10),
                max_count: 11,
            },
            RenderCommand::SetPipeline { pipeline: PipelineHandle(12) },
        ]
    );
}

#[test]
fn an_encoder_records_in_order() {
    let mut encoder = CommandEncoder::new();
    assert!(encoder.commands().is_empty());
    encoder.record(EncoderCommand::BeginComputePass);
    encoder.record(EncoderCommand::Dispatch { workgroups: 2 });
    encoder.record(EncoderCommand::EndComputePass);
    assert_eq!(
        encoder.commands(),
        &vec![
            EncoderCommand::BeginComputePass,
            EncoderCommand::Dispatch { workgroups: 2 },
            EncoderCommand::EndComputePass,
        ]
    );
}
