//! GPU resources as tracked handles: the memory pool they live in, their
//! shape, and the resource state every barrier-emitting operation must match.

use vstd::prelude::*;

verus! {

/// The GPU memory pool class a resource is allocated from.
#[derive(Clone, Copy, Debug, PartialEq, Eq, Structural)]
pub enum HeapKind {
    /// CPU-writable, GPU-readable; host-initialized data.
    Upload,
    /// GPU-exclusive memory.
    Default,
    /// GPU-writable, CPU-readable; unused by this pipeline.
    Readback,
}

/// The state a resource is in; each command that uses a resource requires a
/// matching state, and transitions are explicit barriers.
#[derive(Clone, Copy, Debug, PartialEq, Eq, Structural)]
pub enum ResourceState {
    Common,
    GenericRead,
    UnorderedAccess,
    CopySource,
    CopyDest,
    Present,
    AccelerationStructure,
}

/// The shape of a resource: a plain buffer or a two-dimensional texture.
#[derive(Clone, Copy, Debug, PartialEq, Eq, Structural)]
pub enum ResourceDim {
    Buffer { size: u64 },
    Texture2D { width: u32, height: u32 },
}

/// A GPU virtual address: a typed handle naming the resource it points into
/// and a byte offset within it.
#[derive(Clone, Copy, Debug, PartialEq, Eq, Structural)]
pub struct GpuVa {
    pub resource: u64,
    pub offset: u64,
}

/// A GPU resource handle with its tracked current state.
#[derive(Clone, Copy, Debug, PartialEq, Eq, Structural)]
pub struct Resource {
    /// Non-zero handle assigned by the device at creation.
    pub id: u64,
    pub dim: ResourceDim,
    pub heap: HeapKind,
    /// Whether the resource was created with the unordered-access flag.
    pub uav_allowed: bool,
    /// The state the resource is currently in.
    pub state: ResourceState,
}

impl Resource {
    /// A created resource has a non-zero handle.
    pub open spec fn inv(self) -> bool {
        self.id != 0
    }

    /// The start address of the resource.
    pub fn gpu_virtual_address(&self) -> (a: GpuVa)
        ensures
            a.resource == self.id,
            a.offset == 0,
    {
        GpuVa { resource: self.id, offset: 0 }
    }
}

} // verus!
