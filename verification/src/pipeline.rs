//! Pipeline assembly: the global root signature's descriptor-table layout,
//! and the ray-tracing state object as an ordered list of typed sub-objects.

use vstd::prelude::*;

verus! {

/// What a descriptor range binds: shader-resource, unordered-access,
/// constant-buffer, or sampler registers.
#[derive(Clone, Copy, Debug, PartialEq, Eq, Structural)]
pub enum DescriptorRangeKind {
    Srv,
    Uav,
    Cbv,
    Sampler,
}

/// A contiguous run of registers bound through a descriptor table.
#[derive(Clone, Copy, Debug, PartialEq, Eq, Structural)]
pub struct DescriptorRange {
    pub range_type: DescriptorRangeKind,
    pub num_descriptors: u32,
    pub base_shader_register: u32,
    pub register_space: u32,
}

/// One root parameter. The pipeline binds everything through descriptor
/// tables, anticipating more bound resources without root-signature churn.
#[derive(Clone, Debug, PartialEq, Eq)]
pub enum RootParameter {
    DescriptorTable { ranges: Vec<DescriptorRange> },
}

/// A created root signature: its handle and the declared binding layout.
#[derive(Clone, Debug, PartialEq, Eq)]
pub struct RootSignature {
    /// Non-zero handle assigned by the device at creation.
    pub id: u64,
    pub params: Vec<RootParameter>,
}

/// Ray payload and intersection-attribute sizes; they must match the
/// shader's structures exactly.
#[derive(Clone, Copy, Debug, PartialEq, Eq, Structural)]
pub struct ShaderConfig {
    pub max_payload_size: u32,
    pub max_attribute_size: u32,
}

/// Pipeline-wide limits; recursion depth is fixed at 1 for this
/// non-recursive pipeline.
#[derive(Clone, Copy, Debug, PartialEq, Eq, Structural)]
pub struct PipelineConfig {
    pub max_trace_recursion_depth: u32,
}

/// A named shader entry point exported from the library.
#[derive(Clone, Debug, PartialEq, Eq)]
pub struct ExportDesc {
    pub name: String,
}

/// A triangle hit group: the exported group name and the closest-hit shader
/// it references.
#[derive(Clone, Debug, PartialEq, Eq)]
pub struct HitGroupDesc {
    pub hit_group_export: String,
    pub closest_hit_import: String,
}

/// The shader library: compiled bytecode plus its exported symbol names.
#[derive(Clone, Debug, PartialEq, Eq)]
pub struct DxilLibraryDesc {
    pub bytecode: Vec<u8>,
    pub exports: Vec<ExportDesc>,
}

/// One typed configuration block of a state object. The heterogeneous list
/// a state object is created from is kept type-safe on the host side; only
/// the platform boundary lowers it to the native layout.
#[derive(Clone, Debug, PartialEq, Eq)]
pub enum StateSubobject {
    GlobalRootSignature { root_signature: u64 },
    RaytracingShaderConfig { shader_config: ShaderConfig },
    RaytracingPipelineConfig { pipeline_config: PipelineConfig },
    DxilLibrary { library: DxilLibraryDesc },
    HitGroup { hit_group: HitGroupDesc },
}

/// A created ray-tracing pipeline state object: its handle and the ordered
/// sub-object list it was created from.
#[derive(Clone, Debug, PartialEq, Eq)]
pub struct StateObject {
    /// Non-zero handle assigned by the device at creation.
    pub id: u64,
    pub subobjects: Vec<StateSubobject>,
}

impl StateObject {
    /// The state object's sub-object list carries a global-root-signature
    /// block referencing exactly the signature with the given handle.
    pub open spec fn references_global_root_signature(self, sig_id: u64) -> bool {
        exists|i: int|
            0 <= i < self.subobjects@.len() && self.subobjects@[i]
                == (StateSubobject::GlobalRootSignature { root_signature: sig_id })
    }
}

} // verus!
