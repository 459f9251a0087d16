//! The ray-tracing renderer: owns the device and queue context, the frame
//! resources, the acceleration structures, the pipeline state and shader
//! table, and drives the fence-synchronized dispatch/present cycle.
//!
//! Creation order is a protocol: the device first, then queue, allocators,
//! lists, swap chain and fence; then the vertex buffer, the bottom-level and
//! top-level acceleration structures (each drained through the fence before
//! the next stage), the root signature, the state object, the output image,
//! and the shader table. Only then may frames be rendered.

use vstd::prelude::*;

use crate::command::{AsBuildInputs, Command, CommandAllocator, CommandList, CommandQueue};
use crate::descriptor::{DescriptorHeap, DescriptorHeapDesc, DescriptorHeapKind,
    DescriptorHeapManager};
use crate::device::{Device, DxgiFactory, FeatureDataOptions5, PrebuildInfo, RaytracingTier,
    SwapChain};
use crate::fence::Fence;
use crate::pipeline::{DescriptorRange, DescriptorRangeKind, DxilLibraryDesc, ExportDesc,
    HitGroupDesc, PipelineConfig, RootParameter, RootSignature, ShaderConfig, StateObject,
    StateSubobject};
use crate::resource::{GpuVa, HeapKind, Resource, ResourceDim, ResourceState};
use crate::shader_table::{DispatchRaysDesc, GpuVaRange, GpuVaRangeAndStride, ShaderTableLayout};

verus! {

/// The largest buffering depth a swap chain supports.
pub const MAX_FRAME_COUNT: u32 = 16;

/// Byte size of the ray payload structure the shaders exchange.
pub const RAY_PAYLOAD_SIZE: u32 = 12;

/// Byte size of the triangle intersection attributes.
pub const RAY_ATTRIBUTE_SIZE: u32 = 8;

/// Byte size of one instance descriptor in the top-level build input.
pub const RAYTRACING_INSTANCE_DESC_SIZE: u64 = 64;

/// The vertex buffer view: start address, record stride, and total size.
#[derive(Clone, Copy, Debug, PartialEq, Eq, Structural)]
pub struct VertexBufferView {
    pub buffer_location: GpuVa,
    pub stride_in_bytes: u32,
    pub size_in_bytes: u32,
}

/// The single instance descriptor of the top-level acceleration structure.
/// The identity transform it also carries is opaque payload the platform
/// writes; the model keeps what the protocol decides on.
#[derive(Clone, Copy, Debug, PartialEq, Eq, Structural)]
pub struct RaytracingInstanceDesc {
    pub instance_id: u32,
    pub instance_mask: u32,
    pub flags: u32,
    /// The bottom-level result buffer this instance refers to.
    pub acceleration_structure: GpuVa,
}

/// The renderer. Fields are created in protocol order and immutable once
/// set, except the frame index, the fence, and the per-frame command state.
pub struct Dx12Rt {
    pub width: u32,
    pub height: u32,
    pub frame_count: u32,
    pub device: Option<Device>,
    pub command_queue: Option<CommandQueue>,
    pub dxgi_factory: Option<DxgiFactory>,
    pub swap_chain: Option<SwapChain>,
    pub render_targets: Vec<Resource>,
    pub render_target_view_descriptor: Option<DescriptorHeapManager>,
    pub command_allocator: Option<Vec<CommandAllocator>>,
    pub command_list: Option<Vec<CommandList>>,
    pub frame_index: u32,

    pub vb: Option<Resource>,
    pub vbv: Option<VertexBufferView>,
    pub vertices_count: u32,
    pub blas_scratch: Option<Resource>,
    pub blas: Option<Resource>,
    pub tlas_scratch: Option<Resource>,
    pub tlas: Option<Resource>,
    /// The fence value whose completion the bottom-level build waited on.
    pub blas_checkpoint: u64,
    /// The fence value whose completion the top-level build waited on.
    pub tlas_checkpoint: u64,
    /// What the top-level build wrote into its instance buffer.
    pub tlas_instance: Option<RaytracingInstanceDesc>,
    pub global_root_signature: Option<RootSignature>,
    pub state_object: Option<StateObject>,

    pub tlas_descriptor: Option<DescriptorHeap>,

    pub result_buffer: Option<Resource>,
    pub result_resource_descriptor: Option<DescriptorHeap>,

    pub shader_table: Option<Resource>,
    pub shader_table_layout: Option<ShaderTableLayout>,
    /// The byte image written into the shader-table upload buffer.
    pub shader_table_data: Vec<u8>,

    pub dispatch_ray_desc: DispatchRaysDesc,

    pub fence: Option<Fence>,

    pub ray_gen_symbol: String,
    pub miss_symbol: String,
    pub closest_hit_symbol: String,
    pub default_hit_group_symbol: String,

    pub ray_shader_blob: Vec<u8>,
}

impl Dx12Rt {
    /// The configuration and shader inputs, fixed at construction.
    pub open spec fn same_config(a: Dx12Rt, b: Dx12Rt) -> bool {
        &&& a.width == b.width
        &&& a.height == b.height
        &&& a.frame_count == b.frame_count
        &&& a.ray_gen_symbol == b.ray_gen_symbol
        &&& a.miss_symbol == b.miss_symbol
        &&& a.closest_hit_symbol == b.closest_hit_symbol
        &&& a.default_hit_group_symbol == b.default_hit_group_symbol
        &&& a.ray_shader_blob == b.ray_shader_blob
    }

    /// The vertex buffer and its view.
    pub open spec fn same_geometry(a: Dx12Rt, b: Dx12Rt) -> bool {
        &&& a.vb == b.vb
        &&& a.vbv == b.vbv
        &&& a.vertices_count == b.vertices_count
    }

    /// The bottom-level acceleration structure and its checkpoint.
    pub open spec fn same_blas(a: Dx12Rt, b: Dx12Rt) -> bool {
        &&& a.blas_scratch == b.blas_scratch
        &&& a.blas == b.blas
        &&& a.blas_checkpoint == b.blas_checkpoint
    }

    /// The top-level acceleration structure, its checkpoint, its instance
    /// descriptor, and its shader-resource descriptor heap.
    pub open spec fn same_tlas(a: Dx12Rt, b: Dx12Rt) -> bool {
        &&& a.tlas_scratch == b.tlas_scratch
        &&& a.tlas == b.tlas
        &&& a.tlas_checkpoint == b.tlas_checkpoint
        &&& a.tlas_instance == b.tlas_instance
        &&& a.tlas_descriptor == b.tlas_descriptor
    }

    /// The root signature and state object.
    pub open spec fn same_pso(a: Dx12Rt, b: Dx12Rt) -> bool {
        &&& a.global_root_signature == b.global_root_signature
        &&& a.state_object == b.state_object
    }

    /// The output image and its descriptor heap.
    pub open spec fn same_output(a: Dx12Rt, b: Dx12Rt) -> bool {
        &&& a.result_buffer == b.result_buffer
        &&& a.result_resource_descriptor == b.result_resource_descriptor
    }

    /// The shader table, its layout, its byte image, and the dispatch
    /// description derived from it.
    pub open spec fn same_shader_table(a: Dx12Rt, b: Dx12Rt) -> bool {
        &&& a.shader_table == b.shader_table
        &&& a.shader_table_layout == b.shader_table_layout
        &&& a.shader_table_data@ == b.shader_table_data@
        &&& a.dispatch_ray_desc == b.dispatch_ray_desc
    }

    /// The geometry, acceleration structures, pipeline state and shader
    /// table: everything rendering reads but never changes.
    pub open spec fn same_scene(a: Dx12Rt, b: Dx12Rt) -> bool {
        &&& Dx12Rt::same_geometry(a, b)
        &&& Dx12Rt::same_blas(a, b)
        &&& Dx12Rt::same_tlas(a, b)
        &&& Dx12Rt::same_pso(a, b)
        &&& Dx12Rt::same_output(a, b)
        &&& Dx12Rt::same_shader_table(a, b)
    }

    /// Every command list exists per frame, is recording, and holds no
    /// leftover commands: the state between protocol steps.
    pub open spec fn lists_ready(self) -> bool {
        self.command_list is Some ==> {
            &&& self.command_list.unwrap()@.len() == self.frame_count
            &&& forall|i: int|
                0 <= i < self.frame_count ==> (#[trigger] self.command_list.unwrap()@[i]).recording
            &&& forall|i: int|
                0 <= i < self.frame_count ==> (#[trigger] self.command_list.unwrap()@[i])@.len()
                    == 0
        }
    }

    /// The command lists of `a` and `b` have the same handles, slot for
    /// slot.
    pub open spec fn same_list_ids(a: Dx12Rt, b: Dx12Rt) -> bool {
        &&& a.command_list is Some <==> b.command_list is Some
        &&& a.command_list is Some ==> {
            &&& a.command_list.unwrap()@.len() == b.command_list.unwrap()@.len()
            &&& forall|i: int|
                0 <= i < a.command_list.unwrap()@.len()
                    ==> (#[trigger] a.command_list.unwrap()@[i]).id
                    == b.command_list.unwrap()@[i].id
        }
    }

    /// The structural invariant of the renderer.
    pub open spec fn wf(self) -> bool {
        &&& 1 <= self.frame_count <= MAX_FRAME_COUNT
        &&& self.width >= 1
        &&& self.height >= 1
        &&& self.frame_index < self.frame_count
        &&& self.device is Some ==> self.device.unwrap().inv()
        &&& self.fence is Some ==> self.fence.unwrap().inv()
        &&& self.lists_ready()
        &&& self.command_allocator is Some ==> self.command_allocator.unwrap()@.len()
            == self.frame_count
        &&& self.render_targets@.len() != 0 ==> {
            &&& self.render_targets@.len() == self.frame_count
            &&& forall|i: int|
                0 <= i < self.frame_count ==> (#[trigger] self.render_targets@[i]).state
                    == ResourceState::Present
            &&& forall|i: int|
                0 <= i < self.frame_count ==> (#[trigger] self.render_targets@[i]).inv()
        }
        &&& self.vb is Some ==> {
            &&& self.vb.unwrap().inv()
            &&& self.vbv is Some
            &&& self.vbv.unwrap().buffer_location == (GpuVa {
                resource: self.vb.unwrap().id,
                offset: 0,
            })
        }
        &&& self.blas is Some ==> {
            &&& self.blas.unwrap().inv()
            &&& self.blas.unwrap().state == ResourceState::AccelerationStructure
            &&& self.blas.unwrap().uav_allowed
            &&& self.fence is Some
            &&& self.blas_checkpoint < self.fence.unwrap().value
        }
        &&& self.tlas is Some ==> {
            &&& self.blas is Some
            &&& self.tlas.unwrap().inv()
            &&& self.tlas.unwrap().state == ResourceState::AccelerationStructure
            &&& self.tlas.unwrap().uav_allowed
            &&& self.blas_checkpoint < self.tlas_checkpoint
            &&& self.tlas_checkpoint < self.fence.unwrap().value
            &&& self.tlas_instance is Some
            &&& self.tlas_instance.unwrap().acceleration_structure == (GpuVa {
                resource: self.blas.unwrap().id,
                offset: 0,
            })
        }
        &&& self.global_root_signature is Some ==> self.global_root_signature.unwrap().id != 0
        &&& self.state_object is Some ==> {
            &&& self.global_root_signature is Some
            &&& self.state_object.unwrap().id != 0
            &&& self.global_root_signature.unwrap().id != 0
            &&& self.state_object.unwrap().references_global_root_signature(
                self.global_root_signature.unwrap().id,
            )
        }
        &&& self.result_buffer is Some ==> {
            &&& self.result_buffer.unwrap().inv()
            &&& self.result_buffer.unwrap().state == ResourceState::CopySource
            &&& self.result_buffer.unwrap().uav_allowed
        }
        &&& self.shader_table is Some ==> {
            &&& self.shader_table.unwrap().inv()
            &&& self.shader_table_layout is Some
            &&& self.shader_table_layout.unwrap().wf()
            &&& self.shader_table_data@.len() == self.shader_table_layout.unwrap().table_size
            &&& self.dispatch_ray_desc.width == self.width
            &&& self.dispatch_ray_desc.height == self.height
            &&& self.dispatch_ray_desc.depth == 1
        }
    }

    /// Everything a frame needs exists: the terminal state of
    /// initialization.
    pub open spec fn ready_to_render(self) -> bool {
        &&& self.wf()
        &&& self.device is Some
        &&& self.command_queue is Some
        &&& self.swap_chain is Some
        &&& self.render_targets@.len() == self.frame_count
        &&& self.command_allocator is Some
        &&& self.command_list is Some
        &&& self.fence is Some
        &&& self.vb is Some
        &&& self.blas is Some
        &&& self.tlas is Some
        &&& self.global_root_signature is Some
        &&& self.state_object is Some
        &&& self.result_buffer is Some
        &&& self.result_resource_descriptor is Some
        &&& self.shader_table is Some
    }

    /// Constructs the renderer with its configuration, the shader-library
    /// bytes the platform loaded, and the fixed export symbol names.
    pub fn new(width: u32, height: u32, frame_count: u32, ray_shader_blob: Vec<u8>) -> (dx: Dx12Rt)
        requires
            width >= 1,
            height >= 1,
            1 <= frame_count <= MAX_FRAME_COUNT,
        ensures
            dx.width == width,
            dx.height == height,
            dx.frame_count == frame_count,
            dx.device is None,
            dx.command_queue is None,
            dx.dxgi_factory is None,
            dx.swap_chain is None,
            dx.render_targets@.len() == 0,
            dx.render_target_view_descriptor is None,
            dx.command_allocator is None,
            dx.command_list is None,
            dx.frame_index == 0,
            dx.vb is None,
            dx.vbv is None,
            dx.vertices_count == 0,
            dx.blas_scratch is None,
            dx.blas is None,
            dx.tlas_scratch is None,
            dx.tlas is None,
            dx.blas_checkpoint == 0,
            dx.tlas_checkpoint == 0,
            dx.tlas_instance is None,
            dx.global_root_signature is None,
            dx.state_object is None,
            dx.tlas_descriptor is None,
            dx.result_buffer is None,
            dx.result_resource_descriptor is None,
            dx.shader_table is None,
            dx.shader_table_layout is None,
            dx.shader_table_data@.len() == 0,
            dx.dispatch_ray_desc == DispatchRaysDesc::spec_zeroed(),
            dx.fence is None,
            dx.ray_gen_symbol@ == "MainRayGen"@,
            dx.miss_symbol@ == "MainMiss"@,
            dx.closest_hit_symbol@ == "MainClosestHit"@,
            dx.default_hit_group_symbol@ == "DefaultHitGroup"@,
            dx.ray_shader_blob == ray_shader_blob,
            dx.wf(),
    {
        Dx12Rt {
            width,
            height,
            frame_count,
            device: None,
            command_queue: None,
            dxgi_factory: None,
            swap_chain: None,
            render_targets: Vec::new(),
            render_target_view_descriptor: None,
            command_allocator: None,
            command_list: None,
            frame_index: 0,
            vb: None,
            vbv: None,
            vertices_count: 0,
            blas_scratch: None,
            blas: None,
            tlas_scratch: None,
            tlas: None,
            blas_checkpoint: 0,
            tlas_checkpoint: 0,
            tlas_instance: None,
            global_root_signature: None,
            state_object: None,
            tlas_descriptor: None,
            result_buffer: None,
            result_resource_descriptor: None,
            shader_table: None,
            shader_table_layout: None,
            shader_table_data: Vec::new(),
            dispatch_ray_desc: DispatchRaysDesc::zeroed(),
            fence: None,
            ray_gen_symbol: String::from_str("MainRayGen"),
            miss_symbol: String::from_str("MainMiss"),
            closest_hit_symbol: String::from_str("MainClosestHit"),
            default_hit_group_symbol: String::from_str("DefaultHitGroup"),
            ray_shader_blob,
        }
    }

    /// Creates the logical device.
    pub fn create_device(&mut self)
        requires
            old(self).wf(),
        ensures
            final(self).device == Some(Device { next_id: 1u64 }),
            Dx12Rt::same_config(*old(self), *final(self)),
            Dx12Rt::same_scene(*old(self), *final(self)),
            final(self).command_queue == old(self).command_queue,
            final(self).dxgi_factory == old(self).dxgi_factory,
            final(self).swap_chain == old(self).swap_chain,
            final(self).render_targets == old(self).render_targets,
            final(self).render_target_view_descriptor == old(self).render_target_view_descriptor,
            final(self).command_allocator == old(self).command_allocator,
            final(self).command_list == old(self).command_list,
            final(self).frame_index == old(self).frame_index,
            final(self).fence == old(self).fence,
            final(self).wf(),
    {
        self.device = Some(Device::new());
    }

    /// Creates the factory that will create the swap chain.
    pub fn create_factory(&mut self)
        requires
            old(self).wf(),
        ensures
            final(self).dxgi_factory == Some(DxgiFactory { debug: false }),
            Dx12Rt::same_config(*old(self), *final(self)),
            Dx12Rt::same_scene(*old(self), *final(self)),
            final(self).device == old(self).device,
            final(self).command_queue == old(self).command_queue,
            final(self).swap_chain == old(self).swap_chain,
            final(self).render_targets == old(self).render_targets,
            final(self).render_target_view_descriptor == old(self).render_target_view_descriptor,
            final(self).command_allocator == old(self).command_allocator,
            final(self).command_list == old(self).command_list,
            final(self).frame_index == old(self).frame_index,
            final(self).fence == old(self).fence,
            final(self).wf(),
    {
        self.dxgi_factory = Some(DxgiFactory { debug: false });
    }

    /// Creates the direct command queue; the device must exist.
    pub fn create_command_queue(&mut self)
        requires
            old(self).wf(),
            old(self).device is Some,
        ensures
            final(self).command_queue is Some,
            final(self).command_queue.unwrap().submitted@.len() == 0,
            Dx12Rt::same_config(*old(self), *final(self)),
            Dx12Rt::same_scene(*old(self), *final(self)),
            final(self).device == old(self).device,
            final(self).dxgi_factory == old(self).dxgi_factory,
            final(self).swap_chain == old(self).swap_chain,
            final(self).render_targets == old(self).render_targets,
            final(self).render_target_view_descriptor == old(self).render_target_view_descriptor,
            final(self).command_allocator == old(self).command_allocator,
            final(self).command_list == old(self).command_list,
            final(self).frame_index == old(self).frame_index,
            final(self).fence == old(self).fence,
            final(self).wf(),
    {
        self.command_queue = Some(CommandQueue::new());
    }

    /// Creates the fence; the device must exist. The first checkpoint to be
    /// signaled is 1.
    pub fn create_fence(&mut self)
        requires
            old(self).wf(),
            old(self).device is Some,
            old(self).blas is None,
            old(self).tlas is None,
        ensures
            final(self).fence == Some(Fence { value: 1u64, completed: 0u64 }),
            Dx12Rt::same_config(*old(self), *final(self)),
            Dx12Rt::same_scene(*old(self), *final(self)),
            final(self).device == old(self).device,
            final(self).command_queue == old(self).command_queue,
            final(self).dxgi_factory == old(self).dxgi_factory,
            final(self).swap_chain == old(self).swap_chain,
            final(self).render_targets == old(self).render_targets,
            final(self).render_target_view_descriptor == old(self).render_target_view_descriptor,
            final(self).command_allocator == old(self).command_allocator,
            final(self).command_list == old(self).command_list,
            final(self).frame_index == old(self).frame_index,
            final(self).wf(),
    {
        self.fence = Some(Fence::new());
    }

    /// Queries the ray-tracing support level; the device must exist. The
    /// level itself is what the platform reports for this machine.
    pub fn chack_dxr_support(&self, reported_tier: RaytracingTier) -> (ops: FeatureDataOptions5)
        requires
            self.device is Some,
        ensures
            ops.raytracing_tier == reported_tier,
    {
        let device = self.device.as_ref().unwrap();
        device.check_feature_support(reported_tier)
    }

    /// Creates one command allocator per frame; the device must exist.
    pub fn create_command_allocator(&mut self)
        requires
            old(self).wf(),
            old(self).device is Some,
            old(self).device.unwrap().next_id + old(self).frame_count <= u64::MAX,
        ensures
            final(self).command_allocator is Some,
            final(self).command_allocator.unwrap()@.len() == old(self).frame_count,
            forall|i: int|
                0 <= i < old(self).frame_count ==> (#[trigger] final(self).command_allocator.unwrap()@[i]).id == old(self).device.unwrap().next_id + i,
            final(self).device is Some,
            final(self).device.unwrap().next_id == old(self).device.unwrap().next_id + old(self).frame_count,
            Dx12Rt::same_config(*old(self), *final(self)),
            Dx12Rt::same_scene(*old(self), *final(self)),
            final(self).command_queue == old(self).command_queue,
            final(self).dxgi_factory == old(self).dxgi_factory,
            final(self).swap_chain == old(self).swap_chain,
            final(self).render_targets == old(self).render_targets,
            final(self).render_target_view_descriptor == old(self).render_target_view_descriptor,
            final(self).command_list == old(self).command_list,
            final(self).frame_index == old(self).frame_index,
            final(self).fence == old(self).fence,
            final(self).wf(),
    {
        let mut device = self.device.take().unwrap();
        let frame_count = self.frame_count;
        let ghost n0 = device.next_id;
        let mut alc: Vec<CommandAllocator> = Vec::new();
        let mut i: u32 = 0;
        while i < frame_count
            invariant
                i <= frame_count,
                device.inv(),
                device.next_id == n0 + i,
                n0 + frame_count <= u64::MAX,
                alc@.len() == i,
                forall|j: int| 0 <= j < i ==> (#[trigger] alc@[j]).id == n0 + j,
            decreases frame_count - i,
        {
            let a = device.create_command_allocator();
            alc.push(a);
            i += 1;
        }
        self.device = Some(device);
        self.command_allocator = Some(alc);
    }

    /// Creates one command list per allocator; each starts out recording
    /// and empty.
    pub fn create_command_list(&mut self)
        requires
            old(self).wf(),
            old(self).device is Some,
            old(self).command_allocator is Some,
            old(self).device.unwrap().next_id + old(self).frame_count <= u64::MAX,
        ensures
            final(self).command_list is Some,
            final(self).command_list.unwrap()@.len() == old(self).frame_count,
            forall|i: int|
                0 <= i < old(self).frame_count ==> (#[trigger] final(self).command_list.unwrap()@[i]).id == old(self).device.unwrap().next_id + i,
            final(self).device is Some,
            final(self).device.unwrap().next_id == old(self).device.unwrap().next_id + old(self).frame_count,
            Dx12Rt::same_config(*old(self), *final(self)),
            Dx12Rt::same_scene(*old(self), *final(self)),
            final(self).command_queue == old(self).command_queue,
            final(self).dxgi_factory == old(self).dxgi_factory,
            final(self).swap_chain == old(self).swap_chain,
            final(self).render_targets == old(self).render_targets,
            final(self).render_target_view_descriptor == old(self).render_target_view_descriptor,
            final(self).command_allocator == old(self).command_allocator,
            final(self).frame_index == old(self).frame_index,
            final(self).fence == old(self).fence,
            final(self).wf(),
    {
        let mut device = self.device.take().unwrap();
        let allocators = self.command_allocator.as_ref().unwrap();
        let n = allocators.len();
        let ghost n0 = device.next_id;
        let mut cmd_lists: Vec<CommandList> = Vec::new();
        let mut i: usize = 0;
        while i < n
            invariant
                i <= n,
                n == allocators@.len(),
                n <= MAX_FRAME_COUNT,
                device.inv(),
                device.next_id == n0 + i,
                n0 + n <= u64::MAX,
                cmd_lists@.len() == i,
                forall|j: int| 0 <= j < i ==> (#[trigger] cmd_lists@[j]).id == n0 + j,
                forall|j: int| 0 <= j < i ==> (#[trigger] cmd_lists@[j]).recording,
                forall|j: int| 0 <= j < i ==> (#[trigger] cmd_lists@[j])@.len() == 0,
            decreases n - i,
        {
            let l = device.create_command_list(&allocators[i]);
            cmd_lists.push(l);
            i += 1;
        }
        self.device = Some(device);
        self.command_list = Some(cmd_lists);
    }

    /// Creates the swap chain over the supplied surface handle, the
    /// render-target-view heap, and one back buffer per frame, each starting
    /// in present state.
    pub fn create_swap_chain(&mut self, surface: u64)
        requires
            old(self).wf(),
            old(self).device is Some,
            old(self).dxgi_factory is Some,
            old(self).command_queue is Some,
            old(self).render_targets@.len() == 0,
            old(self).device.unwrap().next_id + 2 + old(self).frame_count <= u64::MAX,
        ensures
            final(self).swap_chain == Some(
                SwapChain {
                    id: old(self).device.unwrap().next_id,
                    surface,
                    width: old(self).width,
                    height: old(self).height,
                    buffer_count: old(self).frame_count,
                    presented: 0u64,
                },
            ),
            final(self).render_targets@.len() == old(self).frame_count,
            forall|i: int|
                0 <= i < old(self).frame_count ==> (#[trigger] final(self).render_targets@[i]).state
                    == ResourceState::Present,
            forall|i: int|
                0 <= i < old(self).frame_count ==> (#[trigger] final(self).render_targets@[i]).dim
                    == (ResourceDim::Texture2D { width: old(self).width, height: old(self).height }),
            forall|i: int|
                0 <= i < old(self).frame_count ==> (#[trigger] final(self).render_targets@[i]).inv(),
            final(self).render_target_view_descriptor is Some,
            final(self).device is Some,
            final(self).device.unwrap().next_id == old(self).device.unwrap().next_id + 2 + old(self).frame_count,
            Dx12Rt::same_config(*old(self), *final(self)),
            Dx12Rt::same_scene(*old(self), *final(self)),
            final(self).command_queue == old(self).command_queue,
            final(self).dxgi_factory == old(self).dxgi_factory,
            final(self).command_allocator == old(self).command_allocator,
            final(self).command_list == old(self).command_list,
            final(self).frame_index == old(self).frame_index,
            final(self).fence == old(self).fence,
            final(self).wf(),
    {
        let mut device = self.device.take().unwrap();
        let factory = self.dxgi_factory.as_ref().unwrap();
        let frame_count = self.frame_count;

        let sc = device.create_swap_chain(factory, surface, self.width, self.height, frame_count);

        let heap_desc = DescriptorHeapDesc {
            heap_type: DescriptorHeapKind::Rtv,
            num_descriptors: frame_count,
            shader_visible: false,
        };
        let rtv_heap = device.create_descriptor_heap(heap_desc);
        let increment_size = device.get_descriptor_handle_increment_size(DescriptorHeapKind::Rtv);
        let manager = DescriptorHeapManager::new(rtv_heap, increment_size);

        let mut handle = rtv_heap.cpu_start;
        let ghost n0 = device.next_id;
        let mut targets: Vec<Resource> = Vec::new();
        let mut i: u32 = 0;
        while i < frame_count
            invariant
                i <= frame_count,
                frame_count <= MAX_FRAME_COUNT,
                self.width >= 1,
                self.height >= 1,
                device.inv(),
                device.next_id == n0 + i,
                n0 + frame_count <= u64::MAX,
                increment_size == 32,
                handle.ptr == i * 32,
                targets@.len() == i,
                forall|j: int|
                    0 <= j < i ==> (#[trigger] targets@[j]).state == ResourceState::Present,
                forall|j: int|
                    0 <= j < i ==> (#[trigger] targets@[j]).dim == (ResourceDim::Texture2D {
                        width: self.width,
                        height: self.height,
                    }),
                forall|j: int| 0 <= j < i ==> (#[trigger] targets@[j]).inv(),
            decreases frame_count - i,
        {
            let render_target = device.create_committed_texture2d(
                HeapKind::Default,
                self.width,
                self.height,
                false,
                ResourceState::Present,
            );
            targets.push(render_target);
            handle.ptr += increment_size as usize;
            i += 1;
        }

        self.swap_chain = Some(sc);
        self.render_target_view_descriptor = Some(manager);
        self.render_targets = targets;
        self.device = Some(device);
    }

    /// The command batch the bottom-level build submits, in terms of the
    /// state before the call: one build command whose scratch and
    /// destination are the two buffers about to be allocated, then a
    /// read-after-write barrier on the result.
    pub open spec fn spec_blas_batch(self) -> Seq<Command> {
        let scratch_id = self.device.unwrap().next_id;
        let blas_id = (scratch_id + 1) as u64;
        seq![
            Command::BuildAccelerationStructure {
                dest: GpuVa { resource: blas_id, offset: 0 },
                scratch: GpuVa { resource: scratch_id, offset: 0 },
                inputs: AsBuildInputs::BottomLevel {
                    vertex_buffer: self.vbv.unwrap().buffer_location,
                    vertex_stride: self.vbv.unwrap().stride_in_bytes as u64,
                    vertex_count: self.vertices_count,
                },
            },
            Command::UavBarrier { resource: blas_id },
        ]
    }

    /// Builds the bottom-level acceleration structure over the vertex
    /// buffer: allocates the scratch and result buffers at the sizes the
    /// device computed for this geometry, records the build and its
    /// barrier, submits, and drains the queue through the fence before
    /// returning.
    pub fn build_blas(&mut self, prebuild: PrebuildInfo)
        requires
            old(self).wf(),
            old(self).device is Some,
            old(self).command_queue is Some,
            old(self).command_list is Some,
            old(self).command_allocator is Some,
            old(self).fence is Some,
            old(self).vb is Some,
            old(self).blas is None,
            old(self).tlas is None,
            prebuild.scratch_data_size >= 1,
            prebuild.result_data_max_size >= 1,
            old(self).device.unwrap().next_id + 2 <= u64::MAX,
            old(self).fence.unwrap().value < u64::MAX,
        ensures
            final(self).blas_scratch == Some(
                Resource {
                    id: old(self).device.unwrap().next_id,
                    dim: ResourceDim::Buffer { size: prebuild.scratch_data_size },
                    heap: HeapKind::Default,
                    uav_allowed: true,
                    state: ResourceState::UnorderedAccess,
                },
            ),
            final(self).blas == Some(
                Resource {
                    id: (old(self).device.unwrap().next_id + 1) as u64,
                    dim: ResourceDim::Buffer { size: prebuild.result_data_max_size },
                    heap: HeapKind::Default,
                    uav_allowed: true,
                    state: ResourceState::AccelerationStructure,
                },
            ),
            final(self).blas_checkpoint == old(self).fence.unwrap().value,
            final(self).fence == Some(old(self).fence.unwrap().spec_signal_and_wait()),
            final(self).blas_checkpoint < final(self).fence.unwrap().value,
            final(self).device is Some,
            final(self).device.unwrap().next_id == old(self).device.unwrap().next_id + 2,
            final(self).command_queue is Some,
            final(self).command_queue.unwrap().submitted@.len() == old(self).command_queue.unwrap().submitted@.len() + 1,
            final(self).command_queue.unwrap().submitted@.last()@ == old(self).spec_blas_batch(),
            forall|i: int|
                0 <= i < old(self).command_queue.unwrap().submitted@.len() ==> #[trigger] final(self).command_queue.unwrap().submitted@[i] == old(self).command_queue.unwrap().submitted@[i],
            final(self).command_list is Some,
            final(self).lists_ready(),
            Dx12Rt::same_list_ids(*old(self), *final(self)),
            Dx12Rt::same_config(*old(self), *final(self)),
            Dx12Rt::same_geometry(*old(self), *final(self)),
            Dx12Rt::same_tlas(*old(self), *final(self)),
            Dx12Rt::same_pso(*old(self), *final(self)),
            Dx12Rt::same_output(*old(self), *final(self)),
            Dx12Rt::same_shader_table(*old(self), *final(self)),
            final(self).dxgi_factory == old(self).dxgi_factory,
            final(self).swap_chain == old(self).swap_chain,
            final(self).render_targets == old(self).render_targets,
            final(self).render_target_view_descriptor == old(self).render_target_view_descriptor,
            final(self).command_allocator == old(self).command_allocator,
            final(self).frame_index == old(self).frame_index,
            final(self).wf(),
    {
        let frame_idx = self.frame_index as usize;
        let mut device = self.device.take().unwrap();

        let vbv = *self.vbv.as_ref().unwrap();
        let geom_inputs = AsBuildInputs::BottomLevel {
            vertex_buffer: vbv.buffer_location,
            vertex_stride: vbv.stride_in_bytes as u64,
            vertex_count: self.vertices_count,
        };

        let blas_scratch = device.create_committed_buffer(
            HeapKind::Default,
            prebuild.scratch_data_size,
            true,
            ResourceState::UnorderedAccess,
        );
        let blas = device.create_committed_buffer(
            HeapKind::Default,
            prebuild.result_data_max_size,
            true,
            ResourceState::AccelerationStructure,
        );

        let mut lists = self.command_list.take().unwrap();
        let command_list = &mut lists[frame_idx];

        command_list.build_raytracing_acceleration_structure(&blas, &blas_scratch, geom_inputs);
        command_list.resource_barrier_uav(&blas);
        command_list.close();

        let mut queue = self.command_queue.take().unwrap();
        queue.execute_command_lists(command_list);

        let mut fence = self.fence.take().unwrap();
        let checkpoint = fence.value;
        let _next = fence.signal_and_wait();

        let allocators = self.command_allocator.as_ref().unwrap();
        command_list.reset(&allocators[frame_idx]);

        proof {
            assert(queue.submitted@.last()@ =~= old(self).spec_blas_batch());
        }

        self.command_list = Some(lists);
        self.command_queue = Some(queue);
        self.fence = Some(fence);
        self.device = Some(device);
        self.blas_scratch = Some(blas_scratch);
        self.blas = Some(blas);
        self.blas_checkpoint = checkpoint;

        proof {
            assert(self.command_list.unwrap()@.len() == old(self).frame_count);
            assert forall|i: int| 0 <= i < self.frame_count implies (#[trigger] self.command_list.unwrap()@[i]).recording
                && self.command_list.unwrap()@[i]@.len() == 0 by {
                if i != frame_idx {
                    assert(self.command_list.unwrap()@[i] == old(self).command_list.unwrap()@[i]);
                }
            }
        }
    }

    /// The command batch the top-level build submits, in terms of the state
    /// before the call: one build command over the single instance
    /// descriptor, then a read-after-write barrier on the result.
    pub open spec fn spec_tlas_batch(self) -> Seq<Command> {
        let instance_buffer_id = self.device.unwrap().next_id;
        let scratch_id = (instance_buffer_id + 1) as u64;
        let tlas_id = (instance_buffer_id + 2) as u64;
        seq![
            Command::BuildAccelerationStructure {
                dest: GpuVa { resource: tlas_id, offset: 0 },
                scratch: GpuVa { resource: scratch_id, offset: 0 },
                inputs: AsBuildInputs::TopLevel {
                    instance_descs: GpuVa { resource: instance_buffer_id, offset: 0 },
                    instance_count: 1u32,
                },
            },
            Command::UavBarrier { resource: tlas_id },
        ]
    }

    /// Builds the top-level acceleration structure. Its single instance
    /// descriptor embeds the bottom-level result buffer's address, so the
    /// bottom-level build — including its fence wait — must have completed
    /// first; the two stages never overlap. Ends with the top-level result
    /// in acceleration-structure state and its shader-resource descriptor
    /// created.
    pub fn build_tlas(&mut self, prebuild: PrebuildInfo)
        requires
            old(self).wf(),
            old(self).device is Some,
            old(self).command_queue is Some,
            old(self).command_list is Some,
            old(self).command_allocator is Some,
            old(self).fence is Some,
            old(self).vb is Some,
            old(self).blas is Some,
            old(self).tlas is None,
            prebuild.scratch_data_size >= 1,
            prebuild.result_data_max_size >= 1,
            old(self).device.unwrap().next_id + 4 <= u64::MAX,
            old(self).fence.unwrap().value < u64::MAX,
        ensures
            final(self).tlas_scratch == Some(
                Resource {
                    id: (old(self).device.unwrap().next_id + 1) as u64,
                    dim: ResourceDim::Buffer { size: prebuild.scratch_data_size },
                    heap: HeapKind::Default,
                    uav_allowed: true,
                    state: ResourceState::UnorderedAccess,
                },
            ),
            final(self).tlas == Some(
                Resource {
                    id: (old(self).device.unwrap().next_id + 2) as u64,
                    dim: ResourceDim::Buffer { size: prebuild.result_data_max_size },
                    heap: HeapKind::Default,
                    uav_allowed: true,
                    state: ResourceState::AccelerationStructure,
                },
            ),
            final(self).tlas is Some,
            final(self).tlas.unwrap().id != 0,
            final(self).tlas.unwrap().state == ResourceState::AccelerationStructure,
            final(self).tlas_checkpoint == old(self).fence.unwrap().value,
            final(self).blas_checkpoint == old(self).blas_checkpoint,
            final(self).blas_checkpoint < final(self).tlas_checkpoint,
            final(self).tlas_instance == Some(
                RaytracingInstanceDesc {
                    instance_id: 0u32,
                    instance_mask: 0xFFu32,
                    flags: 0u32,
                    acceleration_structure: GpuVa {
                        resource: old(self).blas.unwrap().id,
                        offset: 0,
                    },
                },
            ),
            final(self).tlas_descriptor is Some,
            final(self).tlas_descriptor.unwrap().desc == (DescriptorHeapDesc {
                heap_type: DescriptorHeapKind::CbvSrvUav,
                num_descriptors: 1u32,
                shader_visible: true,
            }),
            final(self).fence == Some(old(self).fence.unwrap().spec_signal_and_wait()),
            final(self).device is Some,
            final(self).device.unwrap().next_id == old(self).device.unwrap().next_id + 4,
            final(self).command_queue is Some,
            final(self).command_queue.unwrap().submitted@.len() == old(self).command_queue.unwrap().submitted@.len() + 1,
            final(self).command_queue.unwrap().submitted@.last()@ == old(self).spec_tlas_batch(),
            forall|i: int|
                0 <= i < old(self).command_queue.unwrap().submitted@.len() ==> #[trigger] final(self).command_queue.unwrap().submitted@[i] == old(self).command_queue.unwrap().submitted@[i],
            final(self).command_list is Some,
            final(self).lists_ready(),
            Dx12Rt::same_list_ids(*old(self), *final(self)),
            Dx12Rt::same_config(*old(self), *final(self)),
            Dx12Rt::same_geometry(*old(self), *final(self)),
            Dx12Rt::same_blas(*old(self), *final(self)),
            Dx12Rt::same_pso(*old(self), *final(self)),
            Dx12Rt::same_output(*old(self), *final(self)),
            Dx12Rt::same_shader_table(*old(self), *final(self)),
            final(self).dxgi_factory == old(self).dxgi_factory,
            final(self).swap_chain == old(self).swap_chain,
            final(self).render_targets == old(self).render_targets,
            final(self).render_target_view_descriptor == old(self).render_target_view_descriptor,
            final(self).command_allocator == old(self).command_allocator,
            final(self).frame_index == old(self).frame_index,
            final(self).wf(),
    {
        let frame_idx = self.frame_index as usize;
        let mut device = self.device.take().unwrap();

        let blas_address = self.blas.as_ref().unwrap().gpu_virtual_address();
        let instance_desc = RaytracingInstanceDesc {
            instance_id: 0,
            instance_mask: 0xFF,
            flags: 0,
            acceleration_structure: blas_address,
        };

        let instance_desc_buffer = device.create_committed_buffer(
            HeapKind::Upload,
            RAYTRACING_INSTANCE_DESC_SIZE,
            false,
            ResourceState::GenericRead,
        );

        let tlas_scratch = device.create_committed_buffer(
            HeapKind::Default,
            prebuild.scratch_data_size,
            true,
            ResourceState::UnorderedAccess,
        );
        let tlas = device.create_committed_buffer(
            HeapKind::Default,
            prebuild.result_data_max_size,
            true,
            ResourceState::AccelerationStructure,
        );

        let instance_inputs = AsBuildInputs::TopLevel {
            instance_descs: instance_desc_buffer.gpu_virtual_address(),
            instance_count: 1,
        };

        let mut lists = self.command_list.take().unwrap();
        let command_list = &mut lists[frame_idx];

        command_list.build_raytracing_acceleration_structure(&tlas, &tlas_scratch, instance_inputs);
        command_list.resource_barrier_uav(&tlas);
        command_list.close();

        let mut queue = self.command_queue.take().unwrap();
        queue.execute_command_lists(command_list);

        let mut fence = self.fence.take().unwrap();
        let checkpoint = fence.value;
        let _next = fence.signal_and_wait();

        let heap_desc = DescriptorHeapDesc {
            heap_type: DescriptorHeapKind::CbvSrvUav,
            num_descriptors: 1,
            shader_visible: true,
        };
        let tlas_heap = device.create_descriptor_heap(heap_desc);

        let allocators = self.command_allocator.as_ref().unwrap();
        command_list.reset(&allocators[frame_idx]);

        proof {
            assert(queue.submitted@.last()@ =~= old(self).spec_tlas_batch());
        }

        self.command_list = Some(lists);
        self.command_queue = Some(queue);
        self.fence = Some(fence);
        self.device = Some(device);
        self.tlas_scratch = Some(tlas_scratch);
        self.tlas = Some(tlas);
        self.tlas_checkpoint = checkpoint;
        self.tlas_instance = Some(instance_desc);
        self.tlas_descriptor = Some(tlas_heap);

        proof {
            assert forall|i: int| 0 <= i < self.frame_count implies (#[trigger] self.command_list.unwrap()@[i]).recording
                && self.command_list.unwrap()@[i]@.len() == 0 by {
                if i != frame_idx {
                    assert(self.command_list.unwrap()@[i] == old(self).command_list.unwrap()@[i]);
                }
            }
        }
    }

    /// Creates the upload-heap vertex buffer for `vertex_count` vertices of
    /// `vertex_stride` bytes each, and its view. The vertex bytes themselves
    /// are opaque payload the platform maps and copies.
    pub fn create_vertex_buffer(&mut self, vertex_count: u32, vertex_stride: u32)
        requires
            old(self).wf(),
            old(self).device is Some,
            old(self).device.unwrap().next_id < u64::MAX,
            vertex_count >= 1,
            vertex_stride >= 1,
            vertex_count * vertex_stride <= u32::MAX,
        ensures
            final(self).vb == Some(
                Resource {
                    id: old(self).device.unwrap().next_id,
                    dim: ResourceDim::Buffer {
                        size: (vertex_count * vertex_stride) as u64,
                    },
                    heap: HeapKind::Upload,
                    uav_allowed: false,
                    state: ResourceState::GenericRead,
                },
            ),
            final(self).vbv == Some(
                VertexBufferView {
                    buffer_location: GpuVa {
                        resource: old(self).device.unwrap().next_id,
                        offset: 0,
                    },
                    stride_in_bytes: vertex_stride,
                    size_in_bytes: (vertex_count * vertex_stride) as u32,
                },
            ),
            final(self).vertices_count == vertex_count,
            final(self).device is Some,
            final(self).device.unwrap().next_id == old(self).device.unwrap().next_id + 1,
            Dx12Rt::same_config(*old(self), *final(self)),
            Dx12Rt::same_blas(*old(self), *final(self)),
            Dx12Rt::same_tlas(*old(self), *final(self)),
            Dx12Rt::same_pso(*old(self), *final(self)),
            Dx12Rt::same_output(*old(self), *final(self)),
            Dx12Rt::same_shader_table(*old(self), *final(self)),
            final(self).command_queue == old(self).command_queue,
            final(self).dxgi_factory == old(self).dxgi_factory,
            final(self).swap_chain == old(self).swap_chain,
            final(self).render_targets == old(self).render_targets,
            final(self).render_target_view_descriptor == old(self).render_target_view_descriptor,
            final(self).command_allocator == old(self).command_allocator,
            final(self).command_list == old(self).command_list,
            final(self).frame_index == old(self).frame_index,
            final(self).fence == old(self).fence,
            final(self).wf(),
    {
        let mut device = self.device.take().unwrap();

        proof {
            vstd::arithmetic::mul::lemma_mul_inequality(
                1,
                vertex_count as int,
                vertex_stride as int,
            );
        }
        let size64: u64 = vertex_count as u64 * vertex_stride as u64;
        let vertex_buffer = device.create_committed_buffer(
            HeapKind::Upload,
            size64,
            false,
            ResourceState::GenericRead,
        );

        let buffer_location = vertex_buffer.gpu_virtual_address();
        self.vbv = Some(
            VertexBufferView {
                buffer_location,
                stride_in_bytes: vertex_stride,
                size_in_bytes: size64 as u32,
            },
        );
        self.vb = Some(vertex_buffer);
        self.vertices_count = vertex_count;
        self.device = Some(device);
    }

    /// Builds the global root signature: two descriptor-table parameters,
    /// one shader-resource binding for the top-level acceleration structure
    /// and one unordered-access binding for the output image.
    pub fn create_global_root_signature(&mut self)
        requires
            old(self).wf(),
            old(self).device is Some,
            old(self).device.unwrap().next_id < u64::MAX,
            old(self).state_object is None,
        ensures
            final(self).global_root_signature is Some,
            final(self).global_root_signature.unwrap().id == old(self).device.unwrap().next_id,
            final(self).global_root_signature.unwrap().id != 0,
            final(self).global_root_signature.unwrap().params@.len() == 2,
            final(self).global_root_signature.unwrap().params@[0] matches
                RootParameter::DescriptorTable { ranges } && ranges@ == seq![
                DescriptorRange {
                    range_type: DescriptorRangeKind::Srv,
                    num_descriptors: 1u32,
                    base_shader_register: 0u32,
                    register_space: 0u32,
                },
            ],
            final(self).global_root_signature.unwrap().params@[1] matches
                RootParameter::DescriptorTable { ranges } && ranges@ == seq![
                DescriptorRange {
                    range_type: DescriptorRangeKind::Uav,
                    num_descriptors: 1u32,
                    base_shader_register: 0u32,
                    register_space: 0u32,
                },
            ],
            final(self).device is Some,
            final(self).device.unwrap().next_id == old(self).device.unwrap().next_id + 1,
            final(self).state_object is None,
            Dx12Rt::same_config(*old(self), *final(self)),
            Dx12Rt::same_geometry(*old(self), *final(self)),
            Dx12Rt::same_blas(*old(self), *final(self)),
            Dx12Rt::same_tlas(*old(self), *final(self)),
            Dx12Rt::same_output(*old(self), *final(self)),
            Dx12Rt::same_shader_table(*old(self), *final(self)),
            final(self).command_queue == old(self).command_queue,
            final(self).dxgi_factory == old(self).dxgi_factory,
            final(self).swap_chain == old(self).swap_chain,
            final(self).render_targets == old(self).render_targets,
            final(self).render_target_view_descriptor == old(self).render_target_view_descriptor,
            final(self).command_allocator == old(self).command_allocator,
            final(self).command_list == old(self).command_list,
            final(self).frame_index == old(self).frame_index,
            final(self).fence == old(self).fence,
            final(self).wf(),
    {
        let mut device = self.device.take().unwrap();

        let desc_range_tlas = DescriptorRange {
            range_type: DescriptorRangeKind::Srv,
            num_descriptors: 1,
            base_shader_register: 0,
            register_space: 0,
        };
        let desc_range_output = DescriptorRange {
            range_type: DescriptorRangeKind::Uav,
            num_descriptors: 1,
            base_shader_register: 0,
            register_space: 0,
        };

        let mut ranges_tlas: Vec<DescriptorRange> = Vec::new();
        ranges_tlas.push(desc_range_tlas);
        let mut ranges_output: Vec<DescriptorRange> = Vec::new();
        ranges_output.push(desc_range_output);

        let mut root_params: Vec<RootParameter> = Vec::new();
        root_params.push(RootParameter::DescriptorTable { ranges: ranges_tlas });
        root_params.push(RootParameter::DescriptorTable { ranges: ranges_output });

        let root_sig = device.create_root_signature(root_params);

        proof {
            assert(root_sig.params@[0] matches RootParameter::DescriptorTable { ranges }
                && ranges@ =~= seq![desc_range_tlas]);
            assert(root_sig.params@[1] matches RootParameter::DescriptorTable { ranges }
                && ranges@ =~= seq![desc_range_output]);
        }

        self.global_root_signature = Some(root_sig);
        self.device = Some(device);
    }

    /// Assembles the ray-tracing state object from its five sub-objects:
    /// the global root signature, the shader config, the pipeline config,
    /// the shader library with its three exports, and the triangle hit
    /// group.
    pub fn create_state_object(&mut self)
        requires
            old(self).wf(),
            old(self).device is Some,
            old(self).device.unwrap().next_id < u64::MAX,
            old(self).global_root_signature is Some,
        ensures
            final(self).state_object is Some,
            final(self).state_object.unwrap().id == old(self).device.unwrap().next_id,
            final(self).state_object.unwrap().id != 0,
            final(self).state_object.unwrap().subobjects@.len() == 5,
            final(self).state_object.unwrap().subobjects@[0] == (
            StateSubobject::GlobalRootSignature {
                root_signature: old(self).global_root_signature.unwrap().id,
            }),
            final(self).state_object.unwrap().subobjects@[1] == (
            StateSubobject::RaytracingShaderConfig {
                shader_config: ShaderConfig {
                    max_payload_size: RAY_PAYLOAD_SIZE,
                    max_attribute_size: RAY_ATTRIBUTE_SIZE,
                },
            }),
            final(self).state_object.unwrap().subobjects@[2] == (
            StateSubobject::RaytracingPipelineConfig {
                pipeline_config: PipelineConfig { max_trace_recursion_depth: 1u32 },
            }),
            final(self).state_object.unwrap().subobjects@[3] matches StateSubobject::DxilLibrary {
                library,
            } && {
                &&& library.bytecode@ == old(self).ray_shader_blob@
                &&& library.exports@.len() == 3
                &&& library.exports@[0].name@ == old(self).ray_gen_symbol@
                &&& library.exports@[1].name@ == old(self).miss_symbol@
                &&& library.exports@[2].name@ == old(self).closest_hit_symbol@
            },
            final(self).state_object.unwrap().subobjects@[4] matches StateSubobject::HitGroup {
                hit_group,
            } && {
                &&& hit_group.hit_group_export@ == old(self).default_hit_group_symbol@
                &&& hit_group.closest_hit_import@ == old(self).closest_hit_symbol@
            },
            final(self).state_object.unwrap().references_global_root_signature(
                old(self).global_root_signature.unwrap().id,
            ),
            final(self).device is Some,
            final(self).device.unwrap().next_id == old(self).device.unwrap().next_id + 1,
            Dx12Rt::same_config(*old(self), *final(self)),
            Dx12Rt::same_geometry(*old(self), *final(self)),
            Dx12Rt::same_blas(*old(self), *final(self)),
            Dx12Rt::same_tlas(*old(self), *final(self)),
            Dx12Rt::same_output(*old(self), *final(self)),
            Dx12Rt::same_shader_table(*old(self), *final(self)),
            final(self).global_root_signature == old(self).global_root_signature,
            final(self).command_queue == old(self).command_queue,
            final(self).dxgi_factory == old(self).dxgi_factory,
            final(self).swap_chain == old(self).swap_chain,
            final(self).render_targets == old(self).render_targets,
            final(self).render_target_view_descriptor == old(self).render_target_view_descriptor,
            final(self).command_allocator == old(self).command_allocator,
            final(self).command_list == old(self).command_list,
            final(self).frame_index == old(self).frame_index,
            final(self).fence == old(self).fence,
            final(self).wf(),
    {
        let mut device = self.device.take().unwrap();
        let sig_id = self.global_root_signature.as_ref().unwrap().id;

        let mut exports: Vec<ExportDesc> = Vec::new();
        exports.push(ExportDesc { name: self.ray_gen_symbol.clone() });
        exports.push(ExportDesc { name: self.miss_symbol.clone() });
        exports.push(ExportDesc { name: self.closest_hit_symbol.clone() });

        let hit_group_desc = HitGroupDesc {
            hit_group_export: self.default_hit_group_symbol.clone(),
            closest_hit_import: self.closest_hit_symbol.clone(),
        };

        let bytecode = self.ray_shader_blob.clone();
        proof {
            assert(bytecode@ =~= self.ray_shader_blob@);
        }
        let dxil_lib_desc = DxilLibraryDesc { bytecode, exports };

        let shader_config = ShaderConfig {
            max_payload_size: RAY_PAYLOAD_SIZE,
            max_attribute_size: RAY_ATTRIBUTE_SIZE,
        };
        let pipeline_config = PipelineConfig { max_trace_recursion_depth: 1 };

        let mut sub_objs: Vec<StateSubobject> = Vec::new();
        sub_objs.push(StateSubobject::GlobalRootSignature { root_signature: sig_id });
        sub_objs.push(StateSubobject::RaytracingShaderConfig { shader_config });
        sub_objs.push(StateSubobject::RaytracingPipelineConfig { pipeline_config });
        sub_objs.push(StateSubobject::DxilLibrary { library: dxil_lib_desc });
        sub_objs.push(StateSubobject::HitGroup { hit_group: hit_group_desc });

        let state_object = device.create_state_object(sub_objs);

        proof {
            assert(state_object.subobjects@[0] == (StateSubobject::GlobalRootSignature {
                root_signature: sig_id,
            }));
            assert(state_object.references_global_root_signature(sig_id));
        }

        self.state_object = Some(state_object);
        self.device = Some(device);
    }

    /// Creates the output image in copy-source state — where every frame
    /// must find it and leave it — and its unordered-access descriptor.
    pub fn create_result_resource(&mut self)
        requires
            old(self).wf(),
            old(self).device is Some,
            old(self).device.unwrap().next_id + 2 <= u64::MAX,
        ensures
            final(self).result_buffer == Some(
                Resource {
                    id: old(self).device.unwrap().next_id,
                    dim: ResourceDim::Texture2D {
                        width: old(self).width,
                        height: old(self).height,
                    },
                    heap: HeapKind::Default,
                    uav_allowed: true,
                    state: ResourceState::CopySource,
                },
            ),
            final(self).result_resource_descriptor is Some,
            final(self).result_resource_descriptor.unwrap().desc == (DescriptorHeapDesc {
                heap_type: DescriptorHeapKind::CbvSrvUav,
                num_descriptors: 1u32,
                shader_visible: true,
            }),
            final(self).device is Some,
            final(self).device.unwrap().next_id == old(self).device.unwrap().next_id + 2,
            Dx12Rt::same_config(*old(self), *final(self)),
            Dx12Rt::same_geometry(*old(self), *final(self)),
            Dx12Rt::same_blas(*old(self), *final(self)),
            Dx12Rt::same_tlas(*old(self), *final(self)),
            Dx12Rt::same_pso(*old(self), *final(self)),
            Dx12Rt::same_shader_table(*old(self), *final(self)),
            final(self).command_queue == old(self).command_queue,
            final(self).dxgi_factory == old(self).dxgi_factory,
            final(self).swap_chain == old(self).swap_chain,
            final(self).render_targets == old(self).render_targets,
            final(self).render_target_view_descriptor == old(self).render_target_view_descriptor,
            final(self).command_allocator == old(self).command_allocator,
            final(self).command_list == old(self).command_list,
            final(self).frame_index == old(self).frame_index,
            final(self).fence == old(self).fence,
            final(self).wf(),
    {
        let mut device = self.device.take().unwrap();

        let output_buffer = device.create_committed_texture2d(
            HeapKind::Default,
            self.width,
            self.height,
            true,
            ResourceState::CopySource,
        );

        let heap_desc = DescriptorHeapDesc {
            heap_type: DescriptorHeapKind::CbvSrvUav,
            num_descriptors: 1,
            shader_visible: true,
        };
        let output_view_heap = device.create_descriptor_heap(heap_desc);

        self.result_buffer = Some(output_buffer);
        self.result_resource_descriptor = Some(output_view_heap);
        self.device = Some(device);
    }

    /// Builds the shader table: computes the aligned single-record layout,
    /// allocates the upload buffer, writes the three shader identifiers the
    /// platform queried from the state object into their regions, and fills
    /// in the dispatch description with the resulting ranges.
    pub fn create_shader_table(
        &mut self,
        ray_gen_id: &Vec<u8>,
        miss_id: &Vec<u8>,
        hit_group_id: &Vec<u8>,
    )
        requires
            old(self).wf(),
            old(self).device is Some,
            old(self).device.unwrap().next_id < u64::MAX,
            old(self).state_object is Some,
            ray_gen_id@.len() == crate::align::SHADER_IDENTIFIER_SIZE,
            miss_id@.len() == crate::align::SHADER_IDENTIFIER_SIZE,
            hit_group_id@.len() == crate::align::SHADER_IDENTIFIER_SIZE,
        ensures
            final(self).shader_table is Some,
            final(self).shader_table.unwrap().id == old(self).device.unwrap().next_id,
            final(self).shader_table.unwrap().heap == HeapKind::Upload,
            final(self).shader_table_layout is Some,
            final(self).shader_table_layout.unwrap().wf(),
            final(self).shader_table_layout.unwrap().ray_gen_count == 1,
            final(self).shader_table_layout.unwrap().miss_count == 1,
            final(self).shader_table_layout.unwrap().hit_group_count == 1,
            final(self).shader_table.unwrap().dim == (ResourceDim::Buffer {
                size: final(self).shader_table_layout.unwrap().table_size as u64,
            }),
            final(self).shader_table_data@.len() == final(self).shader_table_layout.unwrap().table_size,
            forall|j: int|
                0 <= j < crate::align::SHADER_IDENTIFIER_SIZE ==> final(self).shader_table_data@[j]
                    == ray_gen_id@[j],
            forall|j: int|
                0 <= j < crate::align::SHADER_IDENTIFIER_SIZE ==> final(self).shader_table_data@[
                    final(self).shader_table_layout.unwrap().ray_gen_region + j] == miss_id@[j],
            forall|j: int|
                0 <= j < crate::align::SHADER_IDENTIFIER_SIZE ==> final(self).shader_table_data@[
                    final(self).shader_table_layout.unwrap().ray_gen_region + final(self).shader_table_layout.unwrap().miss_region + j] == hit_group_id@[j],
            final(self).dispatch_ray_desc == ({
                let l = final(self).shader_table_layout.unwrap();
                let table_id = old(self).device.unwrap().next_id;
                DispatchRaysDesc {
                    ray_generation_shader_record: GpuVaRange {
                        start: GpuVa { resource: table_id, offset: 0 },
                        size: l.ray_gen_size as u64,
                    },
                    miss_shader_table: GpuVaRangeAndStride {
                        start: GpuVa { resource: table_id, offset: l.ray_gen_region as u64 },
                        size: l.miss_size as u64,
                        stride: l.record_size as u64,
                    },
                    hit_group_table: GpuVaRangeAndStride {
                        start: GpuVa {
                            resource: table_id,
                            offset: (l.ray_gen_region + l.miss_region) as u64,
                        },
                        size: l.hit_group_size as u64,
                        stride: l.record_size as u64,
                    },
                    width: old(self).width,
                    height: old(self).height,
                    depth: 1u32,
                }
            }),
            final(self).device is Some,
            final(self).device.unwrap().next_id == old(self).device.unwrap().next_id + 1,
            Dx12Rt::same_config(*old(self), *final(self)),
            Dx12Rt::same_geometry(*old(self), *final(self)),
            Dx12Rt::same_blas(*old(self), *final(self)),
            Dx12Rt::same_tlas(*old(self), *final(self)),
            Dx12Rt::same_pso(*old(self), *final(self)),
            Dx12Rt::same_output(*old(self), *final(self)),
            final(self).command_queue == old(self).command_queue,
            final(self).dxgi_factory == old(self).dxgi_factory,
            final(self).swap_chain == old(self).swap_chain,
            final(self).render_targets == old(self).render_targets,
            final(self).render_target_view_descriptor == old(self).render_target_view_descriptor,
            final(self).command_allocator == old(self).command_allocator,
            final(self).command_list == old(self).command_list,
            final(self).frame_index == old(self).frame_index,
            final(self).fence == old(self).fence,
            final(self).wf(),
    {
        let mut device = self.device.take().unwrap();

        let layout = ShaderTableLayout::compute(1, 1, 1);

        let shader_table = device.create_committed_buffer(
            HeapKind::Upload,
            layout.table_size as u64,
            false,
            ResourceState::GenericRead,
        );

        let data = crate::shader_table::write_shader_table(
            &layout,
            ray_gen_id,
            miss_id,
            hit_group_id,
        );

        let start_address = shader_table.gpu_virtual_address();
        let table_id = start_address.resource;

        self.dispatch_ray_desc = DispatchRaysDesc {
            ray_generation_shader_record: GpuVaRange {
                start: GpuVa { resource: table_id, offset: 0 },
                size: layout.ray_gen_size as u64,
            },
            miss_shader_table: GpuVaRangeAndStride {
                start: GpuVa { resource: table_id, offset: layout.ray_gen_region as u64 },
                size: layout.miss_size as u64,
                stride: layout.record_size as u64,
            },
            hit_group_table: GpuVaRangeAndStride {
                start: GpuVa {
                    resource: table_id,
                    offset: (layout.ray_gen_region + layout.miss_region) as u64,
                },
                size: layout.hit_group_size as u64,
                stride: layout.record_size as u64,
            },
            width: self.width,
            height: self.height,
            depth: 1,
        };

        self.shader_table = Some(shader_table);
        self.shader_table_layout = Some(layout);
        self.shader_table_data = data;
        self.device = Some(device);
    }

    /// Presents the frame: drains the queue through the fence, queues the
    /// present, and advances the frame index to the back-buffer index the
    /// swap chain reported — not necessarily the next one around, since the
    /// platform may reorder buffer availability.
    pub fn present(&mut self, sync_interval: u32, reported_back_buffer_index: u32)
        requires
            old(self).wf(),
            old(self).swap_chain is Some,
            old(self).fence is Some,
            reported_back_buffer_index < old(self).frame_count,
            old(self).fence.unwrap().value < u64::MAX,
            old(self).swap_chain.unwrap().presented < u64::MAX,
        ensures
            final(self).swap_chain == Some(
                SwapChain {
                    presented: (old(self).swap_chain.unwrap().presented + 1) as u64,
                    ..old(self).swap_chain.unwrap()
                },
            ),
            final(self).fence == Some(old(self).fence.unwrap().spec_signal_and_wait()),
            final(self).fence.unwrap().completed >= old(self).fence.unwrap().value,
            final(self).frame_index == reported_back_buffer_index,
            final(self).frame_index < final(self).frame_count,
            Dx12Rt::same_config(*old(self), *final(self)),
            Dx12Rt::same_scene(*old(self), *final(self)),
            final(self).device == old(self).device,
            final(self).command_queue == old(self).command_queue,
            final(self).dxgi_factory == old(self).dxgi_factory,
            final(self).render_targets == old(self).render_targets,
            final(self).render_target_view_descriptor == old(self).render_target_view_descriptor,
            final(self).command_allocator == old(self).command_allocator,
            final(self).command_list == old(self).command_list,
            final(self).wf(),
    {
        let mut fence = self.fence.take().unwrap();
        let _next = fence.signal_and_wait();
        self.fence = Some(fence);

        let mut swap_chain = self.swap_chain.take().unwrap();
        swap_chain.present(sync_interval);
        self.swap_chain = Some(swap_chain);

        self.frame_index = reported_back_buffer_index;
    }

    /// The command batch one frame records, in terms of the state before
    /// the call: bind the root signature, descriptor heap and the two root
    /// parameters; move the output image to unordered access; dispatch the
    /// rays; move the output image back to copy source; move the current
    /// back buffer to copy destination, copy the output into it, and return
    /// it to present state.
    pub open spec fn spec_frame_commands(self) -> Seq<Command> {
        let heap_id = self.device.unwrap().next_id;
        let sig_id = self.global_root_signature.unwrap().id;
        let tlas_id = self.tlas.unwrap().id;
        let result_id = self.result_buffer.unwrap().id;
        let rt_id = self.render_targets@[self.frame_index as int].id;
        seq![
            Command::SetComputeRootSignature { root_signature: sig_id },
            Command::SetDescriptorHeaps { heap: heap_id },
            Command::SetComputeRootShaderResourceView {
                param: 0u32,
                address: GpuVa { resource: tlas_id, offset: 0 },
            },
            Command::SetComputeRootDescriptorTable {
                param: 1u32,
                base: self.result_resource_descriptor.unwrap().gpu_start,
            },
            Command::Transition {
                resource: result_id,
                state_before: ResourceState::CopySource,
                state_after: ResourceState::UnorderedAccess,
            },
            Command::SetPipelineState { state_object: self.state_object.unwrap().id },
            Command::DispatchRays { desc: self.dispatch_ray_desc },
            Command::Transition {
                resource: result_id,
                state_before: ResourceState::UnorderedAccess,
                state_after: ResourceState::CopySource,
            },
            Command::Transition {
                resource: rt_id,
                state_before: ResourceState::Present,
                state_after: ResourceState::CopyDest,
            },
            Command::CopyResource { dest: rt_id, source: result_id },
            Command::Transition {
                resource: rt_id,
                state_before: ResourceState::CopyDest,
                state_after: ResourceState::Present,
            },
        ]
    }

    /// Renders one frame: records the frame's commands into the current
    /// frame's list, submits it, synchronizes through the fence, presents,
    /// advances the frame index to the reported back-buffer index, and
    /// resets the drained command list. The output image starts and ends in
    /// copy-source state, the back buffer starts and ends in present state,
    /// and the acceleration structures, pipeline state and shader table are
    /// left untouched.
    pub fn render(&mut self, reported_back_buffer_index: u32)
        requires
            old(self).ready_to_render(),
            reported_back_buffer_index < old(self).frame_count,
            old(self).device.unwrap().next_id < u64::MAX,
            old(self).fence.unwrap().value < u64::MAX,
            old(self).swap_chain.unwrap().presented < u64::MAX,
        ensures
            Dx12Rt::same_config(*old(self), *final(self)),
            Dx12Rt::same_scene(*old(self), *final(self)),
            final(self).render_targets@ == old(self).render_targets@,
            final(self).frame_index == reported_back_buffer_index,
            final(self).frame_index < final(self).frame_count,
            final(self).fence == Some(old(self).fence.unwrap().spec_signal_and_wait()),
            final(self).fence.unwrap().completed >= old(self).fence.unwrap().value,
            final(self).swap_chain == Some(
                SwapChain {
                    presented: (old(self).swap_chain.unwrap().presented + 1) as u64,
                    ..old(self).swap_chain.unwrap()
                },
            ),
            final(self).device is Some,
            final(self).device.unwrap().next_id == old(self).device.unwrap().next_id + 1,
            final(self).command_queue is Some,
            final(self).command_queue.unwrap().submitted@.len() == old(self).command_queue.unwrap().submitted@.len() + 1,
            final(self).command_queue.unwrap().submitted@.last()@ == old(self).spec_frame_commands(),
            forall|i: int|
                0 <= i < old(self).command_queue.unwrap().submitted@.len() ==> #[trigger] final(self).command_queue.unwrap().submitted@[i] == old(self).command_queue.unwrap().submitted@[i],
            final(self).lists_ready(),
            Dx12Rt::same_list_ids(*old(self), *final(self)),
            final(self).dxgi_factory == old(self).dxgi_factory,
            final(self).render_target_view_descriptor == old(self).render_target_view_descriptor,
            final(self).command_allocator == old(self).command_allocator,
            final(self).ready_to_render(),
    {
        let frame_idx = self.frame_index as usize;

        let mut device = self.device.take().unwrap();
        let heap_desc = DescriptorHeapDesc {
            heap_type: DescriptorHeapKind::CbvSrvUav,
            num_descriptors: 1,
            shader_visible: true,
        };
        let descriptor_heap = device.create_descriptor_heap(heap_desc);

        let mut lists = self.command_list.take().unwrap();
        let command_list = &mut lists[frame_idx];

        let global_root_signature = self.global_root_signature.as_ref().unwrap();
        command_list.set_compute_root_signature(global_root_signature);
        command_list.set_descriptor_heaps(&descriptor_heap);

        let tlas_address = self.tlas.as_ref().unwrap().gpu_virtual_address();
        command_list.set_compute_root_shader_resource_view(0, tlas_address);

        let result_table_base = self.result_resource_descriptor.as_ref().unwrap().gpu_start;
        command_list.set_compute_root_descriptor_table(1, result_table_base);

        let mut result_buffer = self.result_buffer.take().unwrap();
        command_list.resource_barrier_transition(
            &mut result_buffer,
            ResourceState::UnorderedAccess,
        );

        let state_object = self.state_object.as_ref().unwrap();
        command_list.set_pipeline_state1(state_object);
        command_list.dispatch_rays(&self.dispatch_ray_desc);

        command_list.resource_barrier_transition(&mut result_buffer, ResourceState::CopySource);

        let render_target = &mut self.render_targets[frame_idx];
        command_list.resource_barrier_transition(render_target, ResourceState::CopyDest);
        command_list.copy_resource(render_target, &result_buffer);
        command_list.resource_barrier_transition(render_target, ResourceState::Present);

        command_list.close();

        let mut queue = self.command_queue.take().unwrap();
        queue.execute_command_lists(command_list);

        proof {
            assert(queue.submitted@.last()@ =~= old(self).spec_frame_commands());
        }

        self.command_queue = Some(queue);
        self.result_buffer = Some(result_buffer);
        self.device = Some(device);

        proof {
            assert(self.render_targets@ =~= old(self).render_targets@);
        }

        self.present(1, reported_back_buffer_index);

        let allocators = self.command_allocator.as_ref().unwrap();
        let command_list = &mut lists[frame_idx];
        command_list.reset(&allocators[frame_idx]);
        self.command_list = Some(lists);

        proof {
            assert forall|i: int| 0 <= i < self.frame_count implies (#[trigger] self.command_list.unwrap()@[i]).recording
                && self.command_list.unwrap()@[i]@.len() == 0 by {
                if i != frame_idx {
                    assert(self.command_list.unwrap()@[i] == old(self).command_list.unwrap()@[i]);
                }
            }
        }
    }

    /// Creates the device and queue context in protocol order: device,
    /// factory, queue, per-frame allocators and lists, the swap chain over
    /// the supplied surface, and the fence.
    pub fn init_d3d(&mut self, surface: u64)
        requires
            old(self).wf(),
            old(self).render_targets@.len() == 0,
            old(self).blas is None,
            old(self).tlas is None,
        ensures
            final(self).device is Some,
            final(self).command_queue is Some,
            final(self).command_queue.unwrap().submitted@.len() == 0,
            final(self).dxgi_factory is Some,
            final(self).swap_chain is Some,
            final(self).render_targets@.len() == final(self).frame_count,
            final(self).render_target_view_descriptor is Some,
            final(self).command_allocator is Some,
            final(self).command_list is Some,
            final(self).fence == Some(Fence { value: 1u64, completed: 0u64 }),
            final(self).frame_index == old(self).frame_index,
            Dx12Rt::same_config(*old(self), *final(self)),
            Dx12Rt::same_scene(*old(self), *final(self)),
            final(self).wf(),
    {
        self.create_device();
        self.create_factory();
        self.create_command_queue();
        self.create_command_allocator();
        self.create_command_list();
        self.create_swap_chain(surface);
        self.create_fence();
    }

    /// Builds everything rendering needs, in protocol order: the vertex
    /// buffer, the bottom-level and then the top-level acceleration
    /// structure — each fully drained through the fence before the next
    /// stage — the global root signature, the state object, the output
    /// image, and the shader table. Completes without error for every
    /// well-formed input, and afterwards the renderer is ready to render.
    pub fn init_dxr(
        &mut self,
        vertex_count: u32,
        vertex_stride: u32,
        blas_prebuild: PrebuildInfo,
        tlas_prebuild: PrebuildInfo,
        ray_gen_id: &Vec<u8>,
        miss_id: &Vec<u8>,
        hit_group_id: &Vec<u8>,
    )
        requires
            old(self).wf(),
            old(self).device is Some,
            old(self).command_queue is Some,
            old(self).command_list is Some,
            old(self).command_allocator is Some,
            old(self).swap_chain is Some,
            old(self).render_targets@.len() == old(self).frame_count,
            old(self).fence is Some,
            old(self).blas is None,
            old(self).tlas is None,
            old(self).state_object is None,
            vertex_count >= 1,
            vertex_stride >= 1,
            vertex_count * vertex_stride <= u32::MAX,
            blas_prebuild.scratch_data_size >= 1,
            blas_prebuild.result_data_max_size >= 1,
            tlas_prebuild.scratch_data_size >= 1,
            tlas_prebuild.result_data_max_size >= 1,
            ray_gen_id@.len() == crate::align::SHADER_IDENTIFIER_SIZE,
            miss_id@.len() == crate::align::SHADER_IDENTIFIER_SIZE,
            hit_group_id@.len() == crate::align::SHADER_IDENTIFIER_SIZE,
            old(self).device.unwrap().next_id + 12 <= u64::MAX,
            old(self).fence.unwrap().value + 1 < u64::MAX,
        ensures
            final(self).ready_to_render(),
            final(self).tlas.unwrap().state == ResourceState::AccelerationStructure,
            final(self).tlas.unwrap().id != 0,
            final(self).blas_checkpoint < final(self).tlas_checkpoint,
            final(self).blas_checkpoint == old(self).fence.unwrap().value,
            final(self).tlas_checkpoint == old(self).fence.unwrap().value + 1,
            final(self).fence.unwrap().value == old(self).fence.unwrap().value + 2,
            final(self).command_queue.unwrap().submitted@.len() == old(
                self,
            ).command_queue.unwrap().submitted@.len() + 2,
            final(self).frame_index == old(self).frame_index,
            Dx12Rt::same_config(*old(self), *final(self)),
    {
        self.create_vertex_buffer(vertex_count, vertex_stride);
        self.build_blas(blas_prebuild);
        self.build_tlas(tlas_prebuild);
        self.create_global_root_signature();
        self.create_state_object();
        self.create_result_resource();
        self.create_shader_table(ray_gen_id, miss_id, hit_group_id);
    }

    /// The frame driver's per-iteration update step; this pipeline's scene
    /// is static, so it changes nothing.
    pub fn update(&mut self)
        ensures
            *final(self) == *old(self),
    {
    }
}

/// Law: the global root signature a frame binds at dispatch is the very
/// signature the state object was created over — the first command of every
/// frame batch names it, the pipeline-state command names the state object,
/// and that state object's sub-object list references the same signature
/// handle.
pub proof fn lemma_dispatch_uses_state_object_signature(dx: Dx12Rt)
    requires
        dx.ready_to_render(),
    ensures
        dx.spec_frame_commands()[0] == (Command::SetComputeRootSignature {
            root_signature: dx.global_root_signature.unwrap().id,
        }),
        dx.spec_frame_commands()[5] == (Command::SetPipelineState {
            state_object: dx.state_object.unwrap().id,
        }),
        dx.state_object.unwrap().references_global_root_signature(
            dx.global_root_signature.unwrap().id,
        ),
{
}

/// Decides the feature-support error: creation may proceed exactly when the
/// reported tier is not "unsupported". This is the one failure surfaced as
/// an expected, actionable condition rather than a fatal initialization
/// error.
pub fn check_raytracing_support(ops: &FeatureDataOptions5) -> (r: Result<(), &'static str>)
    ensures
        r is Ok <==> !(ops.raytracing_tier is NotSupported),
{
    if matches!(ops.raytracing_tier, RaytracingTier::NotSupported) {
        Err("Not supported raytracing")
    } else {
        Ok(())
    }
}

} // verus!
