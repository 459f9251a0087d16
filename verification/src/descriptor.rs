//! Descriptor heaps and the allocator that hands out descriptor slots at the
//! heap's handle-increment stride.

use vstd::prelude::*;

verus! {

/// Which kind of descriptors a heap holds.
#[derive(Clone, Copy, Debug, PartialEq, Eq, Structural)]
pub enum DescriptorHeapKind {
    CbvSrvUav,
    Sampler,
    Rtv,
    Dsv,
}

/// A CPU-side descriptor handle.
#[derive(Clone, Copy, Debug, PartialEq, Eq, Structural)]
pub struct CpuDescriptorHandle {
    pub ptr: usize,
}

/// A GPU-side (shader-visible) descriptor handle.
#[derive(Clone, Copy, Debug, PartialEq, Eq, Structural)]
pub struct GpuDescriptorHandle {
    pub ptr: u64,
}

/// What a descriptor heap was created with.
#[derive(Clone, Copy, Debug, PartialEq, Eq, Structural)]
pub struct DescriptorHeapDesc {
    pub heap_type: DescriptorHeapKind,
    pub num_descriptors: u32,
    pub shader_visible: bool,
}

/// A created descriptor heap: its handle and the start of its CPU and GPU
/// handle ranges.
#[derive(Clone, Copy, Debug, PartialEq, Eq, Structural)]
pub struct DescriptorHeap {
    /// Non-zero handle assigned by the device at creation.
    pub id: u64,
    pub desc: DescriptorHeapDesc,
    pub cpu_start: CpuDescriptorHandle,
    pub gpu_start: GpuDescriptorHandle,
}

/// One allocated descriptor slot.
#[derive(Clone, Copy, Debug, PartialEq, Eq, Structural)]
pub struct Descriptor {
    pub offset: usize,
    pub h_cpu: CpuDescriptorHandle,
    pub h_gpu: GpuDescriptorHandle,
    pub heap_type: DescriptorHeapKind,
}

impl Descriptor {
    pub fn new(
        offset: usize,
        h_cpu: CpuDescriptorHandle,
        h_gpu: GpuDescriptorHandle,
        heap_type: DescriptorHeapKind,
    ) -> (d: Descriptor)
        ensures
            d == (Descriptor { offset, h_cpu, h_gpu, heap_type }),
    {
        Descriptor { offset, h_cpu, h_gpu, heap_type }
    }
}

/// Hands out descriptor slots from a heap, one handle-increment apart.
pub struct DescriptorHeapManager {
    pub heap: DescriptorHeap,
    pub inc_size: u32,
    pub allocate_index: u32,
}

impl DescriptorHeapManager {
    /// Slot arithmetic stays within the heap's handle ranges and within the
    /// machine's integer ranges.
    pub open spec fn wf(self) -> bool {
        &&& self.allocate_index <= self.heap.desc.num_descriptors
        &&& self.inc_size * self.heap.desc.num_descriptors <= u32::MAX
        &&& self.heap.cpu_start.ptr + self.inc_size * self.heap.desc.num_descriptors
            <= usize::MAX
        &&& self.heap.gpu_start.ptr + self.inc_size * self.heap.desc.num_descriptors
            <= u64::MAX
    }

    pub fn new(heap: DescriptorHeap, inc_size: u32) -> (m: DescriptorHeapManager)
        requires
            inc_size * heap.desc.num_descriptors <= u32::MAX,
            heap.cpu_start.ptr + inc_size * heap.desc.num_descriptors <= usize::MAX,
            heap.gpu_start.ptr + inc_size * heap.desc.num_descriptors <= u64::MAX,
        ensures
            m == (DescriptorHeapManager { heap, inc_size, allocate_index: 0u32 }),
            m.wf(),
    {
        DescriptorHeapManager { heap, inc_size, allocate_index: 0 }
    }

    /// Returns the slot at the current allocation index, or fails once the
    /// heap is exhausted.
    pub fn allocate(&self) -> (r: Result<Descriptor, &'static str>)
        requires
            self.wf(),
        ensures
            r is Ok <==> self.allocate_index < self.heap.desc.num_descriptors,
            r is Ok ==> r.unwrap() == (Descriptor {
                offset: (self.inc_size * self.allocate_index) as usize,
                h_cpu: CpuDescriptorHandle {
                    ptr: (self.heap.cpu_start.ptr + self.inc_size * self.allocate_index) as usize,
                },
                h_gpu: GpuDescriptorHandle {
                    ptr: (self.heap.gpu_start.ptr + self.inc_size * self.allocate_index) as u64,
                },
                heap_type: self.heap.desc.heap_type,
            }),
    {
        let mut h_cpu = self.heap.cpu_start;
        let mut h_gpu = self.heap.gpu_start;

        if self.allocate_index < self.heap.desc.num_descriptors {
            proof {
                vstd::arithmetic::mul::lemma_mul_inequality(
                    self.allocate_index as int,
                    self.heap.desc.num_descriptors as int,
                    self.inc_size as int,
                );
                assert(self.inc_size as int * self.allocate_index as int
                    == self.allocate_index as int * self.inc_size as int)
                    by (nonlinear_arith);
                assert(self.heap.desc.num_descriptors as int * self.inc_size as int
                    == self.inc_size as int * self.heap.desc.num_descriptors as int)
                    by (nonlinear_arith);
                assert(self.inc_size as int * self.allocate_index as int <= u32::MAX);
            }
            let offset64: u64 = self.inc_size as u64 * self.allocate_index as u64;
            let offset: usize = offset64 as usize;
            h_cpu.ptr += offset;
            h_gpu.ptr += offset as u64;

            Ok(Descriptor::new(offset, h_cpu, h_gpu, self.heap.desc.heap_type))
        } else {
            Err("Failed to allocate descriptor")
        }
    }
}

} // verus!
