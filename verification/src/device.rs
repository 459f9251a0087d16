//! The logical device and its creation services: committed resources,
//! descriptor heaps, command allocators and lists, root signatures, state
//! objects — every created object gets a fresh non-zero handle — plus the
//! factory and the swap chain.

use vstd::prelude::*;

use crate::command::{Command, CommandAllocator, CommandList};
use crate::descriptor::{CpuDescriptorHandle, DescriptorHeap, DescriptorHeapDesc,
    DescriptorHeapKind, GpuDescriptorHandle};
use crate::pipeline::{RootParameter, RootSignature, StateObject, StateSubobject};
use crate::resource::{HeapKind, Resource, ResourceDim, ResourceState};

verus! {

/// The stride between descriptor handles the model reports for every heap
/// kind.
pub const DESCRIPTOR_HANDLE_INCREMENT: u32 = 32;

/// The ray-tracing support level a device reports.
#[derive(Clone, Copy, Debug, PartialEq, Eq, Structural)]
pub enum RaytracingTier {
    NotSupported,
    Tier1_0,
    Tier1_1,
}

/// The feature data returned by the ray-tracing support query.
#[derive(Clone, Copy, Debug, PartialEq, Eq, Structural)]
pub struct FeatureDataOptions5 {
    pub raytracing_tier: RaytracingTier,
}

/// The sizes an acceleration-structure build needs, as the device computes
/// them for a fixed geometry or instance description.
#[derive(Clone, Copy, Debug, PartialEq, Eq, Structural)]
pub struct PrebuildInfo {
    pub scratch_data_size: u64,
    pub result_data_max_size: u64,
}

/// The factory that creates swap chains.
#[derive(Clone, Copy, Debug, PartialEq, Eq, Structural)]
pub struct DxgiFactory {
    pub debug: bool,
}

/// A swap chain: the surface it presents to, its buffer count, and how many
/// times it has presented.
#[derive(Clone, Copy, Debug, PartialEq, Eq, Structural)]
pub struct SwapChain {
    /// Non-zero handle assigned at creation.
    pub id: u64,
    /// The opaque surface handle the windowing collaborator supplied.
    pub surface: u64,
    pub width: u32,
    pub height: u32,
    pub buffer_count: u32,
    pub presented: u64,
}

impl SwapChain {
    /// Queues a present of the current back buffer.
    pub fn present(&mut self, _sync_interval: u32)
        requires
            old(self).presented < u64::MAX,
        ensures
            *final(self) == (SwapChain {
                presented: (old(self).presented + 1) as u64,
                ..*old(self)
            }),
    {
        self.presented = self.presented + 1;
    }
}

/// The logical GPU device: a fresh non-zero handle for everything it
/// creates.
#[derive(Debug)]
pub struct Device {
    pub next_id: u64,
}

impl Device {
    /// Handles start at 1, so 0 never names a created object.
    pub open spec fn inv(self) -> bool {
        1 <= self.next_id
    }

    pub fn new() -> (d: Device)
        ensures
            d.next_id == 1,
            d.inv(),
    {
        Device { next_id: 1 }
    }

    /// Allocates a committed buffer in the given heap, with the given
    /// unordered-access flag and initial state. Platform buffers come back
    /// zero-initialized.
    pub fn create_committed_buffer(
        &mut self,
        heap: HeapKind,
        size: u64,
        uav_allowed: bool,
        initial_state: ResourceState,
    ) -> (r: Resource)
        requires
            old(self).inv(),
            old(self).next_id < u64::MAX,
            size >= 1,
        ensures
            r == (Resource {
                id: old(self).next_id,
                dim: ResourceDim::Buffer { size },
                heap,
                uav_allowed,
                state: initial_state,
            }),
            r.inv(),
            final(self).next_id == old(self).next_id + 1,
            final(self).inv(),
    {
        let id = self.next_id;
        self.next_id = self.next_id + 1;
        Resource { id, dim: ResourceDim::Buffer { size }, heap, uav_allowed, state: initial_state }
    }

    /// Allocates a committed two-dimensional texture.
    pub fn create_committed_texture2d(
        &mut self,
        heap: HeapKind,
        width: u32,
        height: u32,
        uav_allowed: bool,
        initial_state: ResourceState,
    ) -> (r: Resource)
        requires
            old(self).inv(),
            old(self).next_id < u64::MAX,
            width >= 1,
            height >= 1,
        ensures
            r == (Resource {
                id: old(self).next_id,
                dim: ResourceDim::Texture2D { width, height },
                heap,
                uav_allowed,
                state: initial_state,
            }),
            r.inv(),
            final(self).next_id == old(self).next_id + 1,
            final(self).inv(),
    {
        let id = self.next_id;
        self.next_id = self.next_id + 1;
        Resource {
            id,
            dim: ResourceDim::Texture2D { width, height },
            heap,
            uav_allowed,
            state: initial_state,
        }
    }

    /// Creates a descriptor heap; the model places its handle ranges at
    /// zero, so descriptor handles are plain offsets.
    pub fn create_descriptor_heap(&mut self, desc: DescriptorHeapDesc) -> (h: DescriptorHeap)
        requires
            old(self).inv(),
            old(self).next_id < u64::MAX,
        ensures
            h == (DescriptorHeap {
                id: old(self).next_id,
                desc,
                cpu_start: CpuDescriptorHandle { ptr: 0 },
                gpu_start: GpuDescriptorHandle { ptr: 0 },
            }),
            h.id != 0,
            final(self).next_id == old(self).next_id + 1,
            final(self).inv(),
    {
        let id = self.next_id;
        self.next_id = self.next_id + 1;
        DescriptorHeap {
            id,
            desc,
            cpu_start: CpuDescriptorHandle { ptr: 0 },
            gpu_start: GpuDescriptorHandle { ptr: 0 },
        }
    }

    /// The stride between consecutive descriptor handles of a heap kind.
    pub fn get_descriptor_handle_increment_size(&self, _kind: DescriptorHeapKind) -> (n: u32)
        ensures
            n == DESCRIPTOR_HANDLE_INCREMENT,
    {
        DESCRIPTOR_HANDLE_INCREMENT
    }

    /// Creates a command allocator.
    pub fn create_command_allocator(&mut self) -> (a: CommandAllocator)
        requires
            old(self).inv(),
            old(self).next_id < u64::MAX,
        ensures
            a.id == old(self).next_id,
            a.id != 0,
            final(self).next_id == old(self).next_id + 1,
            final(self).inv(),
    {
        let id = self.next_id;
        self.next_id = self.next_id + 1;
        CommandAllocator { id }
    }

    /// Creates a command list on the given allocator; it starts out
    /// recording and empty.
    pub fn create_command_list(&mut self, _allocator: &CommandAllocator) -> (l: CommandList)
        requires
            old(self).inv(),
            old(self).next_id < u64::MAX,
        ensures
            l.id == old(self).next_id,
            l.id != 0,
            l@ == Seq::<Command>::empty(),
            l.recording,
            final(self).next_id == old(self).next_id + 1,
            final(self).inv(),
    {
        let id = self.next_id;
        self.next_id = self.next_id + 1;
        CommandList { id, commands: Vec::new(), recording: true }
    }

    /// Creates a root signature declaring the given parameters.
    pub fn create_root_signature(&mut self, params: Vec<RootParameter>) -> (s: RootSignature)
        requires
            old(self).inv(),
            old(self).next_id < u64::MAX,
        ensures
            s.id == old(self).next_id,
            s.id != 0,
            s.params == params,
            final(self).next_id == old(self).next_id + 1,
            final(self).inv(),
    {
        let id = self.next_id;
        self.next_id = self.next_id + 1;
        RootSignature { id, params }
    }

    /// Creates a state object from the ordered sub-object list.
    pub fn create_state_object(&mut self, subobjects: Vec<StateSubobject>) -> (s: StateObject)
        requires
            old(self).inv(),
            old(self).next_id < u64::MAX,
        ensures
            s.id == old(self).next_id,
            s.id != 0,
            s.subobjects == subobjects,
            final(self).next_id == old(self).next_id + 1,
            final(self).inv(),
    {
        let id = self.next_id;
        self.next_id = self.next_id + 1;
        StateObject { id, subobjects }
    }

    /// Answers the ray-tracing feature query with the support level the
    /// platform reported for this device.
    pub fn check_feature_support(&self, reported_tier: RaytracingTier) -> (ops:
        FeatureDataOptions5)
        ensures
            ops.raytracing_tier == reported_tier,
    {
        FeatureDataOptions5 { raytracing_tier: reported_tier }
    }

    /// Creates a swap chain over the given surface, drawing its handle from
    /// this device's counter.
    pub fn create_swap_chain(
        &mut self,
        _factory: &DxgiFactory,
        surface: u64,
        width: u32,
        height: u32,
        buffer_count: u32,
    ) -> (sc: SwapChain)
        requires
            old(self).inv(),
            old(self).next_id < u64::MAX,
            buffer_count >= 1,
        ensures
            sc == (SwapChain {
                id: old(self).next_id,
                surface,
                width,
                height,
                buffer_count,
                presented: 0u64,
            }),
            sc.id != 0,
            final(self).next_id == old(self).next_id + 1,
            final(self).inv(),
    {
        let id = self.next_id;
        self.next_id = self.next_id + 1;
        SwapChain { id, surface, width, height, buffer_count, presented: 0 }
    }
}

} // verus!
