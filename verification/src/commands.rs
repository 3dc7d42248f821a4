//! GPU work described as data: the commands the engine records into its
//! command list, the acceleration-structure build descriptions, and the
//! dispatch description that sizes a raytracing pass.  A native front end
//! replays these against the real device; the library proves which
//! sequence is recorded.

use vstd::prelude::*;
use crate::resource::ResourceState;

verus! {

/// Which level of the two-level spatial index a build works on.
#[derive(Clone, Copy, Debug, PartialEq, Eq, Structural)]
pub enum StructureKind {
    BottomLevel,
    TopLevel,
}

#[derive(Clone, Copy, Debug, PartialEq, Eq, Structural)]
pub enum BuildFlags {
    PreferFastTrace,
    AllowUpdate,
    PerformUpdate,
}

#[derive(Clone, Copy, Debug, PartialEq, Eq, Structural)]
pub enum IndexFormat {
    NoIndices,
    Uint16,
}

/// One triangle mesh handed to a bottom-level build: vertex and optional
/// index buffer addresses with their counts and layout.
#[derive(Clone, Copy, Debug, PartialEq, Eq, Structural)]
pub struct GeometryDesc {
    pub index_format: IndexFormat,
    pub vertex_count: u32,
    pub index_count: u32,
    pub vertex_buffer: u64,
    pub vertex_stride: u64,
    pub index_buffer: u64,
}

/// What a build reads: one mesh for a bottom-level structure, or the GPU
/// address of a contiguous instance array for a top-level structure.
#[derive(Clone, Copy, Debug, PartialEq, Eq, Structural)]
pub enum BuildSource {
    Geometry(GeometryDesc),
    InstanceArray { instance_descs: u64 },
}

#[derive(Clone, Copy, Debug, PartialEq, Eq, Structural)]
pub struct BuildInputs {
    pub kind: StructureKind,
    pub flags: BuildFlags,
    pub num_descs: u32,
    pub source: BuildSource,
}

/// A recorded build: destination address, inputs, the in-place source for
/// a refit (zero for a fresh build) and the scratch allocation.
#[derive(Clone, Copy, Debug, PartialEq, Eq, Structural)]
pub struct BuildDesc {
    pub dest: u64,
    pub inputs: BuildInputs,
    pub source: u64,
    pub scratch: u64,
}

/// The sizes the device reports for a prospective build: scratch for a
/// full build, the largest possible result, and the (normally far
/// smaller) scratch an in-place update needs.
#[derive(Clone, Copy, Debug, PartialEq, Eq, Structural)]
pub struct PrebuildInfo {
    pub scratch_size: u64,
    pub result_max_size: u64,
    pub update_scratch_size: u64,
}

#[derive(Clone, Copy, Debug, PartialEq, Eq, Structural)]
pub struct AddressRange {
    pub start: u64,
    pub size: u64,
}

#[derive(Clone, Copy, Debug, PartialEq, Eq, Structural)]
pub struct AddressRangeAndStride {
    pub start: u64,
    pub size: u64,
    pub stride: u64,
}

/// Geometry of one raytracing dispatch: the three shader-table ranges and
/// the grid of rays to launch.
#[derive(Clone, Copy, Debug, PartialEq, Eq, Structural)]
pub struct DispatchRaysDesc {
    pub ray_generation_shader_record: AddressRange,
    pub miss_shader_table: AddressRangeAndStride,
    pub hit_group_table: AddressRangeAndStride,
    pub width: u32,
    pub height: u32,
    pub depth: u32,
}

/// One command as the engine records it.  Resources are named by their
/// GPU virtual address, which the model keeps unique per allocation.
#[derive(Clone, Copy, Debug, PartialEq, Eq, Structural)]
pub enum GpuCommand {
    Transition { resource: u64, before: ResourceState, after: ResourceState },
    UavBarrier { resource: u64 },
    CopyResource { dest: u64, source: u64 },
    BuildAccelerationStructure { desc: BuildDesc },
    SetPipelineState,
    SetComputeRootSignature,
    SetDescriptorHeaps,
    SetComputeRootDescriptorTable { parameter: u32 },
    SetComputeRootShaderResourceView { parameter: u32, address: u64 },
    DispatchRays { rays: DispatchRaysDesc },
}

} // verus!
