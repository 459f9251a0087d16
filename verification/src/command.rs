//! Command recording and submission: a command list that accumulates typed
//! commands while it is recording, and a queue that keeps every executed
//! batch in submission order.
//!
//! Barrier-emitting operations take the tracked resource handle, so a
//! command whose asserted before-state does not match the resource's actual
//! state is rejected at the call site.

use vstd::prelude::*;

use crate::descriptor::{DescriptorHeap, GpuDescriptorHandle};
use crate::pipeline::{RootSignature, StateObject};
use crate::resource::{GpuVa, Resource, ResourceState};
use crate::shader_table::DispatchRaysDesc;

verus! {

/// The geometry or instance inputs of an acceleration-structure build.
#[derive(Clone, Copy, Debug, PartialEq, Eq, Structural)]
pub enum AsBuildInputs {
    BottomLevel { vertex_buffer: GpuVa, vertex_stride: u64, vertex_count: u32 },
    TopLevel { instance_descs: GpuVa, instance_count: u32 },
}

/// One recorded command.
#[derive(Clone, Copy, Debug, PartialEq, Eq, Structural)]
pub enum Command {
    BuildAccelerationStructure { dest: GpuVa, scratch: GpuVa, inputs: AsBuildInputs },
    UavBarrier { resource: u64 },
    Transition { resource: u64, state_before: ResourceState, state_after: ResourceState },
    SetComputeRootSignature { root_signature: u64 },
    SetDescriptorHeaps { heap: u64 },
    SetComputeRootShaderResourceView { param: u32, address: GpuVa },
    SetComputeRootDescriptorTable { param: u32, base: GpuDescriptorHandle },
    SetPipelineState { state_object: u64 },
    DispatchRays { desc: DispatchRaysDesc },
    CopyResource { dest: u64, source: u64 },
}

/// A command allocator backing one command list.
#[derive(Clone, Copy, Debug, PartialEq, Eq, Structural)]
pub struct CommandAllocator {
    /// Non-zero handle assigned by the device at creation.
    pub id: u64,
}

/// A command list: the commands recorded since the last reset, and whether
/// the list is still recording (it must be closed before submission and
/// reset before reuse).
#[derive(Debug)]
pub struct CommandList {
    /// Non-zero handle assigned by the device at creation.
    pub id: u64,
    pub commands: Vec<Command>,
    pub recording: bool,
}

impl View for CommandList {
    type V = Seq<Command>;

    open spec fn view(&self) -> Seq<Command> {
        self.commands@
    }
}

impl CommandList {
    /// Appends one command.
    fn record(&mut self, c: Command)
        requires
            old(self).recording,
        ensures
            final(self)@ == old(self)@.push(c),
            final(self).recording,
            final(self).id == old(self).id,
    {
        self.commands.push(c);
    }

    /// Records an acceleration-structure build. The destination must already
    /// be in acceleration-structure state and the scratch buffer must allow
    /// unordered access.
    pub fn build_raytracing_acceleration_structure(
        &mut self,
        dest: &Resource,
        scratch: &Resource,
        inputs: AsBuildInputs,
    )
        requires
            old(self).recording,
            dest.state == ResourceState::AccelerationStructure,
            dest.uav_allowed,
            scratch.state == ResourceState::UnorderedAccess,
            scratch.uav_allowed,
        ensures
            final(self)@ == old(self)@.push(
                Command::BuildAccelerationStructure {
                    dest: GpuVa { resource: dest.id, offset: 0 },
                    scratch: GpuVa { resource: scratch.id, offset: 0 },
                    inputs,
                },
            ),
            final(self).recording,
            final(self).id == old(self).id,
    {
        let dest_va = dest.gpu_virtual_address();
        let scratch_va = scratch.gpu_virtual_address();
        self.record(
            Command::BuildAccelerationStructure { dest: dest_va, scratch: scratch_va, inputs },
        );
    }

    /// Records a read-after-write barrier on an unordered-access resource.
    pub fn resource_barrier_uav(&mut self, resource: &Resource)
        requires
            old(self).recording,
            resource.uav_allowed,
        ensures
            final(self)@ == old(self)@.push(Command::UavBarrier { resource: resource.id }),
            final(self).recording,
            final(self).id == old(self).id,
    {
        self.record(Command::UavBarrier { resource: resource.id });
    }

    /// Records a state transition; the asserted before-state is the
    /// resource's tracked state, which moves to the after-state.
    pub fn resource_barrier_transition(&mut self, resource: &mut Resource, after: ResourceState)
        requires
            old(self).recording,
            old(resource).state != after,
        ensures
            final(self)@ == old(self)@.push(
                Command::Transition {
                    resource: old(resource).id,
                    state_before: old(resource).state,
                    state_after: after,
                },
            ),
            final(self).recording,
            final(self).id == old(self).id,
            *final(resource) == (Resource { state: after, ..*old(resource) }),
    {
        let before = resource.state;
        resource.state = after;
        self.record(
            Command::Transition { resource: resource.id, state_before: before, state_after: after },
        );
    }

    /// Binds the global root signature for compute (and ray) dispatch.
    pub fn set_compute_root_signature(&mut self, sig: &RootSignature)
        requires
            old(self).recording,
        ensures
            final(self)@ == old(self)@.push(
                Command::SetComputeRootSignature { root_signature: sig.id },
            ),
            final(self).recording,
            final(self).id == old(self).id,
    {
        self.record(Command::SetComputeRootSignature { root_signature: sig.id });
    }

    /// Binds the shader-visible descriptor heap.
    pub fn set_descriptor_heaps(&mut self, heap: &DescriptorHeap)
        requires
            old(self).recording,
        ensures
            final(self)@ == old(self)@.push(Command::SetDescriptorHeaps { heap: heap.id }),
            final(self).recording,
            final(self).id == old(self).id,
    {
        self.record(Command::SetDescriptorHeaps { heap: heap.id });
    }

    /// Binds a root shader-resource view to the given root parameter.
    pub fn set_compute_root_shader_resource_view(&mut self, param: u32, address: GpuVa)
        requires
            old(self).recording,
        ensures
            final(self)@ == old(self)@.push(
                Command::SetComputeRootShaderResourceView { param, address },
            ),
            final(self).recording,
            final(self).id == old(self).id,
    {
        self.record(Command::SetComputeRootShaderResourceView { param, address });
    }

    /// Binds a descriptor table to the given root parameter.
    pub fn set_compute_root_descriptor_table(&mut self, param: u32, base: GpuDescriptorHandle)
        requires
            old(self).recording,
        ensures
            final(self)@ == old(self)@.push(
                Command::SetComputeRootDescriptorTable { param, base },
            ),
            final(self).recording,
            final(self).id == old(self).id,
    {
        self.record(Command::SetComputeRootDescriptorTable { param, base });
    }

    /// Sets the ray-tracing pipeline state object.
    pub fn set_pipeline_state1(&mut self, state_object: &StateObject)
        requires
            old(self).recording,
        ensures
            final(self)@ == old(self)@.push(
                Command::SetPipelineState { state_object: state_object.id },
            ),
            final(self).recording,
            final(self).id == old(self).id,
    {
        self.record(Command::SetPipelineState { state_object: state_object.id });
    }

    /// Issues the ray dispatch with the shader-table ranges and grid size.
    pub fn dispatch_rays(&mut self, desc: &DispatchRaysDesc)
        requires
            old(self).recording,
        ensures
            final(self)@ == old(self)@.push(Command::DispatchRays { desc: *desc }),
            final(self).recording,
            final(self).id == old(self).id,
    {
        self.record(Command::DispatchRays { desc: *desc });
    }

    /// Records a whole-resource copy; the source must be in copy-source
    /// state and the destination in copy-destination state.
    pub fn copy_resource(&mut self, dest: &Resource, source: &Resource)
        requires
            old(self).recording,
            dest.state == ResourceState::CopyDest,
            source.state == ResourceState::CopySource,
        ensures
            final(self)@ == old(self)@.push(
                Command::CopyResource { dest: dest.id, source: source.id },
            ),
            final(self).recording,
            final(self).id == old(self).id,
    {
        self.record(Command::CopyResource { dest: dest.id, source: source.id });
    }

    /// Ends recording; the list can then be submitted.
    pub fn close(&mut self)
        requires
            old(self).recording,
        ensures
            final(self)@ == old(self)@,
            !final(self).recording,
            final(self).id == old(self).id,
    {
        self.recording = false;
    }

    /// Clears the list for reuse on the given allocator and starts recording
    /// again. Resetting a list that is still recording is an error, so a
    /// closed list is required.
    pub fn reset(&mut self, _allocator: &CommandAllocator)
        requires
            !old(self).recording,
        ensures
            final(self)@ == Seq::<Command>::empty(),
            final(self).recording,
            final(self).id == old(self).id,
    {
        self.commands = Vec::new();
        self.recording = true;
    }
}

/// The direct command queue: every batch it has executed, in submission
/// order.
#[derive(Debug)]
pub struct CommandQueue {
    pub submitted: Vec<Vec<Command>>,
}

impl CommandQueue {
    pub fn new() -> (q: CommandQueue)
        ensures
            q.submitted@.len() == 0,
    {
        CommandQueue { submitted: Vec::new() }
    }

    /// Submits a closed command list for execution.
    pub fn execute_command_lists(&mut self, list: &CommandList)
        requires
            !list.recording,
        ensures
            final(self).submitted@.len() == old(self).submitted@.len() + 1,
            final(self).submitted@.last()@ == list@,
            forall|i: int|
                0 <= i < old(self).submitted@.len() ==> final(self).submitted@[i] == old(
                    self,
                ).submitted@[i],
    {
        let batch = list.commands.clone();
        proof {
            assert(batch@ =~= list.commands@);
        }
        self.submitted.push(batch);
    }
}

} // verus!
