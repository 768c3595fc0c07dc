use rend3::culling::cpu::{CpuCuller, CpuCullerCullArgs};
use rend3::culling::gpu::{GpuCuller, GpuCullerCullArgs};
use rend3::culling::{
    check_resolved, CullError, CulledObjectSet, CullingInput, DrawBatch, DrawIndexedIndirect,
    HostDrawList, IndirectDrawData,
};
use rend3::culling::batch::build_draw_list;
use rend3::frustum::{BoundingSphere, Frustum, Plane};
use rend3::handles::{BindGroupHandle, BufferHandle, MaterialHandle, MeshHandle, PipelineHandle};
use rend3::mode::ModeData;
use rend3::recorder::{CommandEncoder, EncoderCommand};
use rend3::resources::{CameraManager, InternalObject, MaterialManager, MeshBuffers, MeshRange};

/// The cube of all points whose coordinates lie between -10 and 10.
fn cube() -> Frustum {
    Frustum {
        left: Plane { a: 1, b: 0, c: 0, d: 10 },
        right: Plane { a: -1, b: 0, c: 0, d: 10 },
        top: Plane { a: 0, b: -1, c: 0, d: 10 },
        bottom: Plane { a: 0, b: 1, c: 0, d: 10 },
        near: Plane { a: 0, b: 0, c: 1, d: 10 },
        far: Plane { a: 0, b: 0, c: -1, d: 10 },
    }
}

fn inside() -> BoundingSphere {
    BoundingSphere { x: 0, y: 0, z: 0, radius: 1 }
}

fn outside() -> BoundingSphere {
    BoundingSphere { x: 100, y: 0, z: 0, radius: 1 }
}

fn object(mesh: usize, material: usize, bounds: BoundingSphere) -> InternalObject {
    InternalObject { mesh: MeshHandle(mesh), material: MaterialHandle(material), bounds }
}

fn range(n: u32) -> MeshRange {
    MeshRange { first_index: 100 * n, index_count: 36, base_vertex: 10 * n as i32 }
}

/// Meshes 0 to 3 are resident, mesh 4 is not.
fn meshes() -> MeshBuffers {
    MeshBuffers::new(
        BufferHandle(70),
        BufferHandle(71),
        vec![Some(range(0)), Some(range(1)), Some(range(2)), Some(range(3)), None],
    )
}

/// Materials 0 to 3 are resident, material 4 is not.
fn materials(table: ModeData<(), BindGroupHandle>) -> MaterialManager {
    MaterialManager::new(
        vec![
            Some(BindGroupHandle(40)),
            Some(BindGroupHandle(41)),
            Some(BindGroupHandle(42)),
            Some(BindGroupHandle(43)),
            None,
        ],
        table,
    )
}

fn device_culler(capacity: u32) -> GpuCuller {
    GpuCuller {
        capacity,
        test_pipeline: PipelineHandle(1),
        compact_pipeline: PipelineHandle(2),
        write_pipeline: PipelineHandle(3),
        culling_bg: BindGroupHandle(4),
        indirect_buffer: BufferHandle(5),
        count_buffer: BufferHandle(6),
        output_bg: BindGroupHandle(7),
    }
}

fn three_objects() -> Vec<InternalObject> {
    vec![object(1, 1, inside()), object(1, 1, inside()), object(2, 2, outside())]
}

fn mixed_objects() -> Vec<InternalObject> {
    vec![
        object(1, 1, inside()),
        object(2, 1, inside()),
        object(3, 3, outside()),
        object(1, 1, inside()),
        object(1, 2, inside()),
        object(2, 1, inside()),
        object(1, 1, outside()),
        object(1, 2, inside()),
    ]
}

fn host_cull(objects: &[InternalObject]) -> Result<CulledObjectSet, CullError> {
    let camera = CameraManager::new(cube());
    let materials = materials(ModeData::CPU(()));
    let meshes = meshes();
    CpuCuller::new(BindGroupHandle(9)).cull(CpuCullerCullArgs {
        camera: &camera,
        materials: &materials,
        meshes: &meshes,
        objects,
    })
}

fn device_cull(
    culler: &GpuCuller,
    encoder: &mut CommandEncoder,
    objects: &[InternalObject],
) -> Result<CulledObjectSet, CullError> {
    let camera = CameraManager::new(cube());
    let materials = materials(ModeData::GPU(BindGroupHandle(50)));
    let meshes = meshes();
    culler.cull(GpuCullerCullArgs {
        encoder,
        materials: &materials,
        meshes: &meshes,
        camera: &camera,
        objects,
    })
}

fn host_list(set: CulledObjectSet) -> HostDrawList {
    match set.calls {
        ModeData::CPU(list) => list,
        ModeData::GPU(_) => panic!("the host culler returned a device result"),
    }
}

fn device_list(set: CulledObjectSet) -> HostDrawList {
    match set.calls {
        ModeData::CPU(_) => panic!("the device culler returned a host result"),
        ModeData::GPU(data) => data.evaluate(),
    }
}

#[test]
fn host_culling_batches_two_of_three() {
    let set = host_cull(&three_objects()).unwrap();
    assert_eq!(set.output_bg, BindGroupHandle(9));
    let list = host_list(set);
    assert_eq!(
        list.batches,
        vec![DrawBatch {
            mesh: MeshHandle(1),
            material: MaterialHandle(1),
            first_instance: 0,
            instance_count: 2,
        }]
    );
    assert_eq!(list.instances, vec![0, 1]);
    assert!(!list.instances.contains(&2));
}

#[test]
fn device_culling_batches_two_of_three() {
    let culler = device_culler(16);
    let mut encoder = CommandEncoder::new();
    let set = device_cull(&culler, &mut encoder, &three_objects()).unwrap();
    assert_eq!(set.output_bg, BindGroupHandle(7));
    let list = device_list(set);
    assert_eq!(
        list.batches,
        vec![DrawBatch {
            mesh: MeshHandle(1),
            material: MaterialHandle(1),
            first_instance: 0,
            instance_count: 2,
        }]
    );
    assert_eq!(list.instances, vec![0, 1]);
    assert!(!list.instances.contains(&2));
}

#[test]
fn batches_stand_in_order_of_first_appearance() {
    let list = host_list(host_cull(&mixed_objects()).unwrap());
    assert_eq!(
        list.batches,
        vec![
            DrawBatch {
                mesh: MeshHandle(1),
                material: MaterialHandle(1),
                first_instance: 0,
                instance_count: 2,
            },
            DrawBatch {
                mesh: MeshHandle(1),
                material: MaterialHandle(2),
                first_instance: 2,
                instance_count: 2,
            },
            DrawBatch {
                mesh: MeshHandle(2),
                material: MaterialHandle(1),
                first_instance: 4,
                instance_count: 2,
            },
        ]
    );
    assert_eq!(list.instances, vec![0, 3, 4, 7, 1, 5]);
}

#[test]
fn batches_of_one_mesh_follow_one_another() {
    let objects = vec![
        object(3, 0, inside()),
        object(1, 2, inside()),
        object(3, 1, inside()),
        object(2, 0, outside()),
        object(1, 0, inside()),
        object(3, 0, inside()),
        object(0, 3, inside()),
        object(1, 2, inside()),
    ];
    let list = host_list(host_cull(&objects).unwrap());
    let keys: Vec<(usize, usize)> =
        list.batches.iter().map(|batch| (batch.mesh.0, batch.material.0)).collect();
    assert_eq!(keys, vec![(3, 0), (3, 1), (1, 2), (1, 0), (0, 3)]);
    assert_eq!(list.instances, vec![0, 5, 2, 1, 7, 4, 6]);
}

#[test]
fn both_strategies_keep_the_same_objects() {
    let objects = mixed_objects();
    let host = host_list(host_cull(&objects).unwrap());
    let culler = device_culler(8);
    let mut encoder = CommandEncoder::new();
    let device = device_list(device_cull(&culler, &mut encoder, &objects).unwrap());
    assert_eq!(host.batches, device.batches);
    assert_eq!(host.instances, device.instances);
    let mut survivors = host.instances.clone();
    survivors.sort();
    assert_eq!(survivors, vec![0, 1, 3, 4, 5, 7]);
}

#[test]
fn batches_draw_every_visible_object_once() {
    let objects = mixed_objects();
    let list = host_list(host_cull(&objects).unwrap());
    let total: usize = list.batches.iter().map(|batch| batch.instance_count).sum();
    assert_eq!(total, 6);
    assert_eq!(list.instances.len(), 6);
    for i in 0..objects.len() {
        let times = list.instances.iter().filter(|&&x| x == i).count();
        let visible = cube().contains_sphere(&objects[i].bounds);
        assert_eq!(times, if visible { 1 } else { 0 });
    }
    assert!(list.batches.len() <= objects.len());
}

#[test]
fn batches_tile_the_instance_list() {
    let objects = mixed_objects();
    let list = host_list(host_cull(&objects).unwrap());
    let mut next = 0;
    for batch in &list.batches {
        assert_eq!(batch.first_instance, next);
        assert!(batch.instance_count >= 1);
        for &i in &list.instances[batch.first_instance..batch.first_instance + batch.instance_count] {
            assert_eq!(objects[i].mesh, batch.mesh);
            assert_eq!(objects[i].material, batch.material);
        }
        next += batch.instance_count;
    }
    assert_eq!(next, list.instances.len());
}

#[test]
fn equal_keys_share_one_batch() {
    let objects = mixed_objects();
    let list = host_list(host_cull(&objects).unwrap());
    for (j, a) in list.batches.iter().enumerate() {
        for (k, b) in list.batches.iter().enumerate() {
            if j != k {
                assert!(a.mesh != b.mesh || a.material != b.material);
            }
        }
    }
}

#[test]
fn culling_twice_gives_the_same_result() {
    let objects = mixed_objects();
    let first = host_list(host_cull(&objects).unwrap());
    let second = host_list(host_cull(&objects).unwrap());
    assert_eq!(first.batches, second.batches);
    assert_eq!(first.instances, second.instances);
    let culler = device_culler(8);
    let mut encoder = CommandEncoder::new();
    let a = device_cull(&culler, &mut encoder, &objects).unwrap();
    let b = device_cull(&culler, &mut encoder, &objects).unwrap();
    match (a.calls, b.calls) {
        (ModeData::GPU(a), ModeData::GPU(b)) => {
            assert_eq!(a.inputs, b.inputs);
            assert_eq!(a.frustum, b.frustum);
            assert_eq!(a.count, b.count);
        }
        _ => panic!("the device culler returned a host result"),
    }
}

#[test]
fn an_empty_frame_has_no_batches() {
    let list = host_list(host_cull(&[]).unwrap());
    assert!(list.batches.is_empty());
    assert!(list.instances.is_empty());
    let list = build_draw_list(&cube(), &[object(1, 1, outside())]);
    assert!(list.batches.is_empty());
    assert!(list.instances.is_empty());
}

#[test]
fn the_host_reports_the_first_unresolved_mesh() {
    let objects = vec![object(1, 1, inside()), object(4, 1, outside()), object(9, 9, inside())];
    assert_eq!(host_cull(&objects).err(), Some(CullError::UnresolvedMesh { object: 1 }));
}

#[test]
fn the_host_reports_the_first_unresolved_material() {
    let objects = vec![object(1, 1, inside()), object(2, 4, inside()), object(4, 1, inside())];
    assert_eq!(host_cull(&objects).err(), Some(CullError::UnresolvedMaterial { object: 1 }));
    let objects = vec![object(1, 7, outside())];
    assert_eq!(host_cull(&objects).err(), Some(CullError::UnresolvedMaterial { object: 0 }));
}

#[test]
fn an_unresolved_mesh_is_reported_before_the_material() {
    let objects = vec![object(4, 4, inside())];
    assert_eq!(host_cull(&objects).err(), Some(CullError::UnresolvedMesh { object: 0 }));
    let meshes = meshes();
    let materials = materials(ModeData::CPU(()));
    assert_eq!(
        check_resolved(&objects, &meshes, &materials),
        Err(CullError::UnresolvedMesh { object: 0 })
    );
    assert_eq!(check_resolved(&three_objects(), &meshes, &materials), Ok(()));
}

#[test]
fn the_device_refuses_a_frame_over_capacity() {
    let culler = device_culler(2);
    let mut encoder = CommandEncoder::new();
    let outcome = device_cull(&culler, &mut encoder, &three_objects());
    assert_eq!(outcome.err(), Some(CullError::CapacityExceeded { objects: 3, capacity: 2 }));
    assert!(encoder.commands().is_empty());
}

#[test]
fn the_capacity_is_checked_before_the_handles() {
    let culler = device_culler(0);
    let mut encoder = CommandEncoder::new();
    let outcome = device_cull(&culler, &mut encoder, &[object(4, 4, inside())]);
    assert_eq!(outcome.err(), Some(CullError::CapacityExceeded { objects: 1, capacity: 0 }));
}

#[test]
fn the_device_accepts_a_frame_at_capacity() {
    let culler = device_culler(3);
    let mut encoder = CommandEncoder::new();
    let set = device_cull(&culler, &mut encoder, &three_objects()).unwrap();
    match set.calls {
        ModeData::GPU(data) => {
            assert_eq!(data.count, 3);
            assert_eq!(data.indirect_buffer, BufferHandle(5));
            assert_eq!(data.count_buffer, BufferHandle(6));
            assert_eq!(data.frustum, cube());
            assert_eq!(
                data.inputs,
                vec![
                    CullingInput { object: object(1, 1, inside()), range: range(1) },
                    CullingInput { object: object(1, 1, inside()), range: range(1) },
                    CullingInput { object: object(2, 2, outside()), range: range(2) },
                ]
            );
        }
        ModeData::CPU(_) => panic!("the device culler returned a host result"),
    }
}

#[test]
fn the_device_reports_unresolved_handles() {
    let culler = device_culler(8);
    let mut encoder = CommandEncoder::new();
    let outcome = device_cull(&culler, &mut encoder, &[object(0, 0, inside()), object(4, 0, inside())]);
    assert_eq!(outcome.err(), Some(CullError::UnresolvedMesh { object: 1 }));
    let outcome = device_cull(&culler, &mut encoder, &[object(0, 4, inside())]);
    assert_eq!(outcome.err(), Some(CullError::UnresolvedMaterial { object: 0 }));
    assert!(encoder.commands().is_empty());
}

fn dispatches(workgroups: u32) -> Vec<EncoderCommand> {
    vec![
        EncoderCommand::BeginComputePass,
        EncoderCommand::SetBindGroup { slot: 0, group: BindGroupHandle(4) },
        EncoderCommand::SetPipeline { pipeline: PipelineHandle(1) },
        EncoderCommand::Dispatch { workgroups },
        EncoderCommand::SetPipeline { pipeline: PipelineHandle(2) },
        EncoderCommand::Dispatch { workgroups },
        EncoderCommand::SetPipeline { pipeline: PipelineHandle(3) },
        EncoderCommand::Dispatch { workgroups },
        EncoderCommand::EndComputePass,
    ]
}

fn recorded_for(count: usize) -> Vec<EncoderCommand> {
    let culler = device_culler(1000);
    let mut encoder = CommandEncoder::new();
    let objects = vec![object(1, 1, inside()); count];
    device_cull(&culler, &mut encoder, &objects).unwrap();
    encoder.commands().clone()
}

#[test]
fn the_device_records_three_dispatches() {
    assert_eq!(recorded_for(3), dispatches(1));
}

#[test]
fn workgroups_round_up() {
    assert_eq!(recorded_for(1), dispatches(1));
    assert_eq!(recorded_for(256), dispatches(1));
    assert_eq!(recorded_for(257), dispatches(2));
    assert_eq!(recorded_for(512), dispatches(2));
    assert_eq!(recorded_for(513), dispatches(3));
}

#[test]
fn an_empty_frame_records_nothing() {
    assert_eq!(recorded_for(0), vec![]);
}

#[test]
fn the_device_appends_to_what_the_encoder_holds() {
    let culler = device_culler(8);
    let mut encoder = CommandEncoder::new();
    encoder.record(EncoderCommand::Dispatch { workgroups: 9 });
    device_cull(&culler, &mut encoder, &three_objects()).unwrap();
    let mut expected = vec![EncoderCommand::Dispatch { workgroups: 9 }];
    expected.extend(dispatches(1));
    assert_eq!(encoder.commands(), &expected);
}

fn device_data(set: CulledObjectSet) -> IndirectDrawData {
    match set.calls {
        ModeData::CPU(_) => panic!("the device culler returned a host result"),
        ModeData::GPU(data) => data,
    }
}

#[test]
fn the_device_writes_one_entry_for_two_of_three() {
    let culler = device_culler(16);
    let mut encoder = CommandEncoder::new();
    let data = device_data(device_cull(&culler, &mut encoder, &three_objects()).unwrap());
    assert_eq!(
        data.evaluate_arguments(),
        Some(vec![DrawIndexedIndirect {
            index_count: 36,
            instance_count: 2,
            first_index: 100,
            base_vertex: 10,
            first_instance: 0,
        }])
    );
}

#[test]
fn the_device_writes_one_entry_for_every_batch() {
    let culler = device_culler(16);
    let mut encoder = CommandEncoder::new();
    let data = device_data(device_cull(&culler, &mut encoder, &mixed_objects()).unwrap());
    let entry = |mesh: u32, first_instance: u32| DrawIndexedIndirect {
        index_count: 36,
        instance_count: 2,
        first_index: 100 * mesh,
        base_vertex: 10 * mesh as i32,
        first_instance,
    };
    assert_eq!(data.evaluate_arguments(), Some(vec![entry(1, 0), entry(1, 2), entry(2, 4)]));
}

#[test]
fn an_empty_frame_writes_no_entry() {
    let culler = device_culler(16);
    let mut encoder = CommandEncoder::new();
    let data = device_data(device_cull(&culler, &mut encoder, &[]).unwrap());
    assert_eq!(data.evaluate_arguments(), Some(Vec::new()));
    let data = device_data(device_cull(&culler, &mut encoder, &[object(1, 1, outside())]).unwrap());
    assert_eq!(data.evaluate_arguments(), Some(Vec::new()));
}
