use rwr::command::Command;
use rwr::descriptor::{CpuDescriptorHandle, DescriptorHeap, DescriptorHeapDesc,
    DescriptorHeapKind, DescriptorHeapManager, GpuDescriptorHandle};
use rwr::device::{PrebuildInfo, RaytracingTier};
use rwr::dx12_rt::{check_raytracing_support, Dx12Rt};
use rwr::pipeline::StateSubobject;
use rwr::resource::ResourceState;

fn shader_blob() -> Vec<u8> {
    vec![0xD5u8; 256]
}

fn blas_prebuild() -> PrebuildInfo {
    PrebuildInfo { scratch_data_size: 1024, result_data_max_size: 2048 }
}

fn tlas_prebuild() -> PrebuildInfo {
    PrebuildInfo { scratch_data_size: 512, result_data_max_size: 1024 }
}

fn identifiers() -> (Vec<u8>, Vec<u8>, Vec<u8>) {
    (vec![0x11u8; 32], vec![0x22u8; 32], vec![0x33u8; 32])
}

fn initialized(width: u32, height: u32, frame_count: u32) -> Dx12Rt {
    let mut dx = Dx12Rt::new(width, height, frame_count, shader_blob());
    dx.init_d3d(0x7777);
    let (ray_gen_id, miss_id, hit_group_id) = identifiers();
    dx.init_dxr(3, 12, blas_prebuild(), tlas_prebuild(), &ray_gen_id, &miss_id, &hit_group_id);
    dx
}

#[test]
fn blas_then_tlas_orders_checkpoints() {
    let mut dx = Dx12Rt::new(640, 480, 2, shader_blob());
    dx.init_d3d(0x7777);
    dx.create_vertex_buffer(3, 12);
    dx.build_blas(blas_prebuild());
    dx.build_tlas(tlas_prebuild());

    let tlas = dx.tlas.as_ref().expect("tlas result buffer must exist");
    assert_ne!(tlas.id, 0);
    assert_eq!(tlas.state, ResourceState::AccelerationStructure);
    assert!(dx.blas_checkpoint < dx.tlas_checkpoint);
    // The single instance descriptor embeds the BLAS result address.
    let instance = dx.tlas_instance.expect("instance descriptor written");
    assert_eq!(
        instance.acceleration_structure.resource,
        dx.blas.as_ref().unwrap().id
    );
}

#[test]
fn triangle_scenario_first_frame_transitions() {
    // A 3-vertex triangle, two frames in flight, a 640x480 viewport.
    let triangle: [[f32; 3]; 3] = [[-0.5, -0.5, 0.0], [0.5, -0.5, 0.0], [0.0, 0.75, 0.0]];
    let vertex_count = triangle.len() as u32;
    let vertex_stride = (triangle[0].len() * std::mem::size_of::<f32>()) as u32;
    assert_eq!((vertex_count, vertex_stride), (3, 12));

    let mut dx = Dx12Rt::new(640, 480, 2, shader_blob());
    dx.init_d3d(0x7777);
    let (ray_gen_id, miss_id, hit_group_id) = identifiers();
    // Initialization completes through the shader-table build without error.
    dx.init_dxr(
        vertex_count,
        vertex_stride,
        blas_prebuild(),
        tlas_prebuild(),
        &ray_gen_id,
        &miss_id,
        &hit_group_id,
    );
    assert!(dx.shader_table.is_some());
    assert_eq!(dx.dispatch_ray_desc.width, 640);
    assert_eq!(dx.dispatch_ray_desc.height, 480);
    assert_eq!(dx.dispatch_ray_desc.depth, 1);

    let output_id = dx.result_buffer.as_ref().unwrap().id;
    let back_buffer_id = dx.render_targets[dx.frame_index as usize].id;

    dx.render(1);

    let batch = dx
        .command_queue
        .as_ref()
        .unwrap()
        .submitted
        .last()
        .expect("the frame batch was submitted");

    let count = |before: ResourceState, after: ResourceState, id: u64| {
        batch
            .iter()
            .filter(|c| {
                matches!(c,
                    Command::Transition { resource, state_before, state_after }
                        if *resource == id && *state_before == before && *state_after == after)
            })
            .count()
    };

    assert_eq!(count(ResourceState::CopySource, ResourceState::UnorderedAccess, output_id), 1);
    assert_eq!(count(ResourceState::UnorderedAccess, ResourceState::CopySource, output_id), 1);
    assert_eq!(count(ResourceState::Present, ResourceState::CopyDest, back_buffer_id), 1);
    assert_eq!(count(ResourceState::CopyDest, ResourceState::Present, back_buffer_id), 1);

    // The copy goes from the output image into the current back buffer.
    assert!(batch.iter().any(|c| {
        matches!(c, Command::CopyResource { dest, source }
            if *dest == back_buffer_id && *source == output_id)
    }));
}

#[test]
fn frame_index_stays_within_frame_count() {
    let mut dx = initialized(640, 480, 2);
    for &reported in &[1u32, 0, 0, 1, 1, 0] {
        dx.render(reported);
        assert!(dx.frame_index < dx.frame_count);
        assert_eq!(dx.frame_index, reported);
    }
}

#[test]
fn dispatch_binds_the_created_root_signature() {
    let mut dx = initialized(640, 480, 2);
    let sig_id = dx.global_root_signature.as_ref().unwrap().id;
    let so = dx.state_object.as_ref().unwrap();

    // The state object's global-root-signature sub-object names the same
    // signature handle.
    assert_eq!(
        so.subobjects[0],
        StateSubobject::GlobalRootSignature { root_signature: sig_id }
    );

    dx.render(1);
    let batch = dx.command_queue.as_ref().unwrap().submitted.last().unwrap();
    assert_eq!(batch[0], Command::SetComputeRootSignature { root_signature: sig_id });
    assert!(batch.iter().any(|c| {
        matches!(c, Command::SetPipelineState { state_object }
            if *state_object == dx.state_object.as_ref().unwrap().id)
    }));
}

#[test]
fn repeated_render_leaves_scene_untouched() {
    let mut dx = initialized(640, 480, 2);

    let blas = dx.blas;
    let tlas = dx.tlas;
    let blas_checkpoint = dx.blas_checkpoint;
    let tlas_checkpoint = dx.tlas_checkpoint;
    let state_object = dx.state_object.clone();
    let root_signature = dx.global_root_signature.clone();
    let shader_table = dx.shader_table;
    let shader_table_data = dx.shader_table_data.clone();
    let dispatch = dx.dispatch_ray_desc;
    let fence_before = dx.fence.as_ref().unwrap().value;

    for frame in 0..5u32 {
        dx.render(frame % 2);
    }

    assert_eq!(dx.blas, blas);
    assert_eq!(dx.tlas, tlas);
    assert_eq!(dx.blas_checkpoint, blas_checkpoint);
    assert_eq!(dx.tlas_checkpoint, tlas_checkpoint);
    assert_eq!(dx.state_object, state_object);
    assert_eq!(dx.global_root_signature, root_signature);
    assert_eq!(dx.shader_table, shader_table);
    assert_eq!(dx.shader_table_data, shader_table_data);
    assert_eq!(dx.dispatch_ray_desc, dispatch);
    // Only the frame index and the fence evolve.
    assert_eq!(dx.fence.as_ref().unwrap().value, fence_before + 5);
    assert_eq!(dx.swap_chain.as_ref().unwrap().presented, 5);
}

#[test]
fn update_changes_nothing() {
    let mut dx = initialized(640, 480, 2);
    let submitted_before = dx.command_queue.as_ref().unwrap().submitted.len();
    let fence_before = dx.fence.as_ref().unwrap().value;
    dx.update();
    assert_eq!(dx.command_queue.as_ref().unwrap().submitted.len(), submitted_before);
    assert_eq!(dx.fence.as_ref().unwrap().value, fence_before);
}

#[test]
fn output_image_rests_in_copy_source_between_frames() {
    let mut dx = initialized(640, 480, 2);
    assert_eq!(dx.result_buffer.as_ref().unwrap().state, ResourceState::CopySource);
    dx.render(1);
    assert_eq!(dx.result_buffer.as_ref().unwrap().state, ResourceState::CopySource);
    for rt in &dx.render_targets {
        assert_eq!(rt.state, ResourceState::Present);
    }
}

#[test]
fn raytracing_support_is_a_distinct_condition() {
    let mut dx = Dx12Rt::new(640, 480, 2, shader_blob());
    dx.create_device();

    let ops = dx.chack_dxr_support(RaytracingTier::NotSupported);
    assert_eq!(
        check_raytracing_support(&ops),
        Err("Not supported raytracing")
    );

    let ops = dx.chack_dxr_support(RaytracingTier::Tier1_1);
    assert_eq!(check_raytracing_support(&ops), Ok(()));
}

#[test]
fn descriptor_allocation_offsets_and_exhaustion() {
    let heap = DescriptorHeap {
        id: 9,
        desc: DescriptorHeapDesc {
            heap_type: DescriptorHeapKind::Rtv,
            num_descriptors: 2,
            shader_visible: false,
        },
        cpu_start: CpuDescriptorHandle { ptr: 1000 },
        gpu_start: GpuDescriptorHandle { ptr: 5000 },
    };

    let manager = DescriptorHeapManager::new(heap, 32);
    let d = manager.allocate().expect("first slot fits");
    assert_eq!(d.offset, 0);
    assert_eq!(d.h_cpu.ptr, 1000);
    assert_eq!(d.h_gpu.ptr, 5000);
    assert_eq!(d.heap_type, DescriptorHeapKind::Rtv);

    let manager = DescriptorHeapManager { heap, inc_size: 32, allocate_index: 1 };
    let d = manager.allocate().expect("second slot fits");
    assert_eq!(d.offset, 32);
    assert_eq!(d.h_cpu.ptr, 1032);
    assert_eq!(d.h_gpu.ptr, 5032);

    let manager = DescriptorHeapManager { heap, inc_size: 32, allocate_index: 2 };
    assert_eq!(manager.allocate(), Err("Failed to allocate descriptor"));
}

#[test]
fn context_creation_produces_per_frame_objects() {
    let mut dx = Dx12Rt::new(640, 480, 3, shader_blob());
    dx.init_d3d(0x7777);

    assert!(dx.device.is_some());
    assert!(dx.dxgi_factory.is_some());
    assert_eq!(dx.command_queue.as_ref().unwrap().submitted.len(), 0);
    assert_eq!(dx.command_allocator.as_ref().unwrap().len(), 3);
    assert_eq!(dx.command_list.as_ref().unwrap().len(), 3);
    assert_eq!(dx.render_targets.len(), 3);
    assert_eq!(dx.swap_chain.as_ref().unwrap().buffer_count, 3);
    assert_eq!(dx.swap_chain.as_ref().unwrap().surface, 0x7777);
    let fence = dx.fence.as_ref().unwrap();
    assert_eq!((fence.value, fence.completed), (1, 0));
}

#[test]
fn vertex_buffer_sizes_follow_count_and_stride() {
    let mut dx = Dx12Rt::new(640, 480, 2, shader_blob());
    dx.init_d3d(0x7777);
    dx.create_vertex_buffer(3, 12);

    let vbv = dx.vbv.expect("vertex buffer view set");
    assert_eq!(vbv.stride_in_bytes, 12);
    assert_eq!(vbv.size_in_bytes, 36);
    assert_eq!(vbv.buffer_location.resource, dx.vb.as_ref().unwrap().id);
    assert_eq!(vbv.buffer_location.offset, 0);
    assert_eq!(dx.vertices_count, 3);
}

#[test]
fn blas_batch_holds_build_and_barrier() {
    let mut dx = Dx12Rt::new(640, 480, 2, shader_blob());
    dx.init_d3d(0x7777);
    dx.create_vertex_buffer(3, 12);
    dx.build_blas(blas_prebuild());

    let blas = dx.blas.as_ref().unwrap();
    let scratch = dx.blas_scratch.as_ref().unwrap();
    assert_eq!(blas.dim, rwr::resource::ResourceDim::Buffer { size: 2048 });
    assert_eq!(scratch.dim, rwr::resource::ResourceDim::Buffer { size: 1024 });
    assert_eq!(scratch.state, ResourceState::UnorderedAccess);

    let batch = dx.command_queue.as_ref().unwrap().submitted.last().unwrap();
    assert_eq!(batch.len(), 2);
    match &batch[0] {
        Command::BuildAccelerationStructure { dest, scratch: s, inputs } => {
            assert_eq!(dest.resource, blas.id);
            assert_eq!(s.resource, scratch.id);
            match inputs {
                rwr::command::AsBuildInputs::BottomLevel {
                    vertex_buffer,
                    vertex_stride,
                    vertex_count,
                } => {
                    assert_eq!(vertex_buffer.resource, dx.vb.as_ref().unwrap().id);
                    assert_eq!(*vertex_stride, 12);
                    assert_eq!(*vertex_count, 3);
                }
                other => panic!("expected bottom-level inputs, got {:?}", other),
            }
        }
        other => panic!("expected a build command, got {:?}", other),
    }
    assert_eq!(batch[1], Command::UavBarrier { resource: blas.id });
}

#[test]
fn tlas_batch_builds_over_one_instance() {
    let mut dx = Dx12Rt::new(640, 480, 2, shader_blob());
    dx.init_d3d(0x7777);
    dx.create_vertex_buffer(3, 12);
    dx.build_blas(blas_prebuild());
    dx.build_tlas(tlas_prebuild());

    let tlas = dx.tlas.as_ref().unwrap();
    let batch = dx.command_queue.as_ref().unwrap().submitted.last().unwrap();
    assert_eq!(batch.len(), 2);
    match &batch[0] {
        Command::BuildAccelerationStructure { dest, inputs, .. } => {
            assert_eq!(dest.resource, tlas.id);
            match inputs {
                rwr::command::AsBuildInputs::TopLevel { instance_count, .. } => {
                    assert_eq!(*instance_count, 1);
                }
                other => panic!("expected top-level inputs, got {:?}", other),
            }
        }
        other => panic!("expected a build command, got {:?}", other),
    }
    assert_eq!(batch[1], Command::UavBarrier { resource: tlas.id });
}

#[test]
fn fence_checkpoints_advance_through_initialization() {
    let dx = initialized(640, 480, 2);
    // One checkpoint for the bottom-level build, the next for the
    // top-level build, and the counter stands one past the last wait.
    assert_eq!(dx.blas_checkpoint, 1);
    assert_eq!(dx.tlas_checkpoint, 2);
    assert_eq!(dx.fence.as_ref().unwrap().value, 3);
    assert_eq!(dx.command_queue.as_ref().unwrap().submitted.len(), 2);
}

#[test]
fn dispatch_ranges_follow_the_layout() {
    let dx = initialized(640, 480, 2);
    let table_id = dx.shader_table.as_ref().unwrap().id;
    let d = dx.dispatch_ray_desc;

    assert_eq!(d.ray_generation_shader_record.start.resource, table_id);
    assert_eq!(d.ray_generation_shader_record.start.offset, 0);
    assert_eq!(d.ray_generation_shader_record.size, 32);

    assert_eq!(d.miss_shader_table.start.resource, table_id);
    assert_eq!(d.miss_shader_table.start.offset, 64);
    assert_eq!(d.miss_shader_table.size, 32);
    assert_eq!(d.miss_shader_table.stride, 32);

    assert_eq!(d.hit_group_table.start.resource, table_id);
    assert_eq!(d.hit_group_table.start.offset, 128);
    assert_eq!(d.hit_group_table.size, 32);
    assert_eq!(d.hit_group_table.stride, 32);

    assert_eq!((d.width, d.height, d.depth), (640, 480, 1));
}

#[test]
fn state_object_aggregates_five_subobjects() {
    let dx = initialized(640, 480, 2);
    let so = dx.state_object.as_ref().unwrap();
    assert_eq!(so.subobjects.len(), 5);
    match &so.subobjects[1] {
        StateSubobject::RaytracingShaderConfig { shader_config } => {
            assert_eq!(shader_config.max_payload_size, 12);
            assert_eq!(shader_config.max_attribute_size, 8);
        }
        other => panic!("expected the shader config, got {:?}", other),
    }
    match &so.subobjects[2] {
        StateSubobject::RaytracingPipelineConfig { pipeline_config } => {
            assert_eq!(pipeline_config.max_trace_recursion_depth, 1);
        }
        other => panic!("expected the pipeline config, got {:?}", other),
    }
    match &so.subobjects[3] {
        StateSubobject::DxilLibrary { library } => {
            assert_eq!(library.bytecode, shader_blob());
            let names: Vec<&str> =
                library.exports.iter().map(|e| e.name.as_str()).collect();
            assert_eq!(names, ["MainRayGen", "MainMiss", "MainClosestHit"]);
        }
        other => panic!("expected the shader library, got {:?}", other),
    }
    match &so.subobjects[4] {
        StateSubobject::HitGroup { hit_group } => {
            assert_eq!(hit_group.hit_group_export.as_str(), "DefaultHitGroup");
            assert_eq!(hit_group.closest_hit_import.as_str(), "MainClosestHit");
        }
        other => panic!("expected the hit group, got {:?}", other),
    }
}

#[test]
fn largest_buffering_depth_initializes() {
    let mut dx = initialized(640, 480, 16);
    dx.render(15);
    assert_eq!(dx.frame_index, 15);
    assert!(dx.frame_index < dx.frame_count);
}
