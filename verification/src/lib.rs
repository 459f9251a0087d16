//! A verified model of a minimal hardware ray-tracing pipeline: device and
//! queue setup, acceleration-structure builds, pipeline assembly, shader-table
//! layout, and a fence-synchronized per-frame dispatch/present cycle.
//!
//! The model tracks exactly the data the protocol decides on — resource
//! states, GPU addresses as typed handles, fence checkpoints, recorded
//! commands — while the platform backend performs the native calls and feeds
//! the device-computed values (prebuild sizes, shader identifiers, the
//! reported back-buffer index) back in as plain values.

pub mod align;
pub mod command;
pub mod descriptor;
pub mod device;
pub mod dx12_rt;
pub mod fence;
pub mod pipeline;
pub mod resource;
pub mod shader_table;
