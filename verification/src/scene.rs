//! The scene: two hardcoded meshes (a quad and a cube), one bottom-level
//! structure per mesh, three instances in one contiguous upload buffer,
//! and a top-level structure built once and refit in place every frame.

use vstd::prelude::*;
use vstd::layout::size_of;
use crate::commands::{
    BuildDesc, BuildFlags, BuildInputs, BuildSource, GeometryDesc, GpuCommand, IndexFormat,
    PrebuildInfo, StructureKind,
};
use crate::device_interface::DeviceInterface;
use crate::resource::{
    AllocationError, OpaqueResource, ResourceBuffer, ResourceFlags, ResourceState, UploadResource,
};

verus! {

broadcast use vstd::layout::layout_of_primitives;

/// The instance array length; the geometry set is static and only the
/// transforms animate.
pub const NUM_INSTANCES: u32 = 3;

/// IEEE-754 single-precision bit patterns of the only coordinate values
/// the hardcoded meshes use.  The engine never interprets coordinates
/// numerically, so vertices travel as raw 32-bit patterns whose byte
/// image equals the native single-precision one.
pub const COORD_NEG_ONE: u32 = 0xBF80_0000;

pub const COORD_ZERO: u32 = 0;

pub const COORD_POS_ONE: u32 = 0x3F80_0000;

/// Two triangles spanning a square in the plane of the second axis.
pub open spec fn quad_vertex_bits() -> Seq<u32> {
    seq![
        COORD_NEG_ONE, COORD_ZERO, COORD_NEG_ONE,
        COORD_NEG_ONE, COORD_ZERO, COORD_POS_ONE,
        COORD_POS_ONE, COORD_ZERO, COORD_POS_ONE,
        COORD_NEG_ONE, COORD_ZERO, COORD_NEG_ONE,
        COORD_POS_ONE, COORD_ZERO, COORD_NEG_ONE,
        COORD_POS_ONE, COORD_ZERO, COORD_POS_ONE,
    ]
}

/// The eight corners of the unit cube, indexed by `cube_index_bits`.
pub open spec fn cube_vertex_bits() -> Seq<u32> {
    seq![
        COORD_NEG_ONE, COORD_NEG_ONE, COORD_NEG_ONE,
        COORD_POS_ONE, COORD_NEG_ONE, COORD_NEG_ONE,
        COORD_NEG_ONE, COORD_POS_ONE, COORD_NEG_ONE,
        COORD_POS_ONE, COORD_POS_ONE, COORD_NEG_ONE,
        COORD_NEG_ONE, COORD_NEG_ONE, COORD_POS_ONE,
        COORD_POS_ONE, COORD_NEG_ONE, COORD_POS_ONE,
        COORD_NEG_ONE, COORD_POS_ONE, COORD_POS_ONE,
        COORD_POS_ONE, COORD_POS_ONE, COORD_POS_ONE,
    ]
}

/// Twelve triangles over the cube's corners.
pub open spec fn cube_index_bits() -> Seq<u16> {
    seq![
        4u16, 6, 0, 2, 0, 6, 0, 1, 4, 5, 4, 1, 0, 2, 1, 3, 1, 2,
        1, 3, 5, 7, 5, 3, 2, 6, 3, 7, 3, 6, 4, 5, 6, 7, 6, 5,
    ]
}

pub fn quad_vertex_data() -> (r: Vec<u32>)
    ensures
        r@ == quad_vertex_bits(),
{
    let mut r: Vec<u32> = Vec::new();
    r.push(COORD_NEG_ONE);
    r.push(COORD_ZERO);
    r.push(COORD_NEG_ONE);
    r.push(COORD_NEG_ONE);
    r.push(COORD_ZERO);
    r.push(COORD_POS_ONE);
    r.push(COORD_POS_ONE);
    r.push(COORD_ZERO);
    r.push(COORD_POS_ONE);
    r.push(COORD_NEG_ONE);
    r.push(COORD_ZERO);
    r.push(COORD_NEG_ONE);
    r.push(COORD_POS_ONE);
    r.push(COORD_ZERO);
    r.push(COORD_NEG_ONE);
    r.push(COORD_POS_ONE);
    r.push(COORD_ZERO);
    r.push(COORD_POS_ONE);
    proof {
        assert(r@ =~= quad_vertex_bits());
    }
    r
}

pub fn cube_vertex_data() -> (r: Vec<u32>)
    ensures
        r@ == cube_vertex_bits(),
{
    let mut r: Vec<u32> = Vec::new();
    r.push(COORD_NEG_ONE);
    r.push(COORD_NEG_ONE);
    r.push(COORD_NEG_ONE);
    r.push(COORD_POS_ONE);
    r.push(COORD_NEG_ONE);
    r.push(COORD_NEG_ONE);
    r.push(COORD_NEG_ONE);
    r.push(COORD_POS_ONE);
    r.push(COORD_NEG_ONE);
    r.push(COORD_POS_ONE);
    r.push(COORD_POS_ONE);
    r.push(COORD_NEG_ONE);
    r.push(COORD_NEG_ONE);
    r.push(COORD_NEG_ONE);
    r.push(COORD_POS_ONE);
    r.push(COORD_POS_ONE);
    r.push(COORD_NEG_ONE);
    r.push(COORD_POS_ONE);
    r.push(COORD_NEG_ONE);
    r.push(COORD_POS_ONE);
    r.push(COORD_POS_ONE);
    r.push(COORD_POS_ONE);
    r.push(COORD_POS_ONE);
    r.push(COORD_POS_ONE);
    proof {
        assert(r@ =~= cube_vertex_bits());
    }
    r
}

pub fn cube_index_data() -> (r: Vec<u16>)
    ensures
        r@ == cube_index_bits(),
{
    let mut r: Vec<u16> = Vec::new();
    r.push(4);
    r.push(6);
    r.push(0);
    r.push(2);
    r.push(0);
    r.push(6);
    r.push(0);
    r.push(1);
    r.push(4);
    r.push(5);
    r.push(4);
    r.push(1);
    r.push(0);
    r.push(2);
    r.push(1);
    r.push(3);
    r.push(1);
    r.push(2);
    r.push(1);
    r.push(3);
    r.push(5);
    r.push(7);
    r.push(5);
    r.push(3);
    r.push(2);
    r.push(6);
    r.push(3);
    r.push(7);
    r.push(3);
    r.push(6);
    r.push(4);
    r.push(5);
    r.push(6);
    r.push(7);
    r.push(6);
    r.push(5);
    proof {
        assert(r@ =~= cube_index_bits());
    }
    r
}

/// One placement of a bottom-level structure in world space, laid out as
/// the hardware consumes it: a 3×4 row-major transform (entries as raw
/// 32-bit patterns), a packed 24-bit instance index with an 8-bit
/// visibility mask, a packed hit-group contribution with flags (both
/// zero here), and the GPU address of the referenced structure.
#[derive(Clone, Copy, Debug, PartialEq, Eq)]
pub struct InstanceDesc {
    pub transform: [u32; 12],
    pub id_and_mask: u32,
    pub contribution_and_flags: u32,
    pub acceleration_structure: u64,
}

/// The low 24 bits: the instance's index.
pub open spec fn instance_id_of(v: u32) -> u32 {
    v & 0xFFFFFF
}

/// The high 8 bits: the instance's visibility mask.
pub open spec fn instance_mask_of(v: u32) -> u32 {
    v >> 24
}

pub open spec fn id_mask_bits(id: u32, mask: u32) -> u32 {
    id | (mask << 24)
}

/// Packing an index below 2^24 with a mask below 2^8 loses neither.
pub proof fn lemma_id_mask_bits(id: u32, mask: u32)
    requires
        id < 0x1000000,
        mask < 0x100,
    ensures
        instance_id_of(id_mask_bits(id, mask)) == id,
        instance_mask_of(id_mask_bits(id, mask)) == mask,
{
    assert((id < 0x1000000 && mask < 0x100) ==> ((id | (mask << 24)) & 0xFFFFFF == id && (id | (
    mask << 24)) >> 24 == mask)) by (bit_vector);
}

/// Packs an instance index and visibility mask into the hardware's
/// combined field.
pub fn pack_id_and_mask(id: u32, mask: u32) -> (r: u32)
    requires
        id < 0x1000000,
        mask < 0x100,
    ensures
        r == id_mask_bits(id, mask),
        instance_id_of(r) == id,
        instance_mask_of(r) == mask,
{
    proof {
        lemma_id_mask_bits(id, mask);
    }
    id | (mask << 24u32)
}

/// The per-frame transforms of the three instances: the animated cube,
/// the mirror, and the floor.  Entries are raw 32-bit patterns of a 3×4
/// row-major matrix; the engine moves them without interpreting them, so
/// the instance array is a deterministic function of these values.
#[derive(Clone, Copy, Debug, PartialEq, Eq)]
pub struct InstanceTransforms {
    pub cube: [u32; 12],
    pub mirror: [u32; 12],
    pub floor: [u32; 12],
}

pub open spec fn transform_of(t: InstanceTransforms, i: int) -> [u32; 12] {
    if i == 0 {
        t.cube
    } else if i == 1 {
        t.mirror
    } else {
        t.floor
    }
}

pub open spec fn set_transform(d: InstanceDesc, t: [u32; 12]) -> InstanceDesc {
    InstanceDesc {
        transform: t,
        id_and_mask: d.id_and_mask,
        contribution_and_flags: d.contribution_and_flags,
        acceleration_structure: d.acceleration_structure,
    }
}

/// The instance array after one transform update: the first three
/// entries carry the given transforms, everything else is untouched.
pub open spec fn with_transforms(s: Seq<InstanceDesc>, t: InstanceTransforms) -> Seq<InstanceDesc> {
    Seq::new(
        s.len(),
        |i: int|
            if 0 <= i < 3 {
                set_transform(s[i], transform_of(t, i))
            } else {
                s[i]
            },
    )
}

/// Updating with the transforms the array already carries changes
/// nothing: a refit from an unchanged instance array reads back the very
/// bytes of the build before it.
pub proof fn lemma_update_with_same_transforms(s: Seq<InstanceDesc>, t: InstanceTransforms)
    requires
        forall|i: int| 0 <= i < 3 && i < s.len() ==> #[trigger] s[i].transform == transform_of(t, i),
    ensures
        with_transforms(s, t) == s,
{
    assert forall|i: int| 0 <= i < s.len() implies with_transforms(s, t)[i] == s[i] by {
        if i < 3 {
            assert(s[i].transform == transform_of(t, i));
        }
    }
    assert(with_transforms(s, t) =~= s);
}

/// Writes the three instance transforms into the mapped instance array;
/// indices, masks and structure addresses are untouched.
pub fn update_transforms(
    instances: &mut ResourceBuffer<InstanceDesc>,
    transforms: &InstanceTransforms,
)
    requires
        old(instances)@.len() == NUM_INSTANCES,
    ensures
        final(instances)@ == with_transforms(old(instances)@, *transforms),
{
    let mut d0 = instances.read(0);
    d0.transform = transforms.cube;
    instances.write(0, d0);
    let mut d1 = instances.read(1);
    d1.transform = transforms.mirror;
    instances.write(1, d1);
    let mut d2 = instances.read(2);
    d2.transform = transforms.floor;
    instances.write(2, d2);
    proof {
        assert(instances@ =~= with_transforms(old(instances)@, *transforms));
    }
}

/// The 3×4 row-major slices the instance array carries, taken from a 4×4
/// matrix in column-major entry order: the top three rows of the
/// transposed source.
pub fn transform_rows_from_columns(m: &[u32; 16]) -> (r: [u32; 12])
    ensures
        forall|row: int, col: int|
            0 <= row < 3 && 0 <= col < 4 ==> #[trigger] r@[row * 4 + col] == m@[col * 4 + row],
{
    let r: [u32; 12] = [
        m[0],
        m[4],
        m[8],
        m[12],
        m[1],
        m[5],
        m[9],
        m[13],
        m[2],
        m[6],
        m[10],
        m[14],
    ];
    proof {
        assert forall|row: int, col: int| 0 <= row < 3 && 0 <= col < 4 implies #[trigger] r@[row * 4
            + col] == m@[col * 4 + row] by {
            assert(r@.len() == 12);
        }
    }
    r
}

/// The mesh description a bottom-level build reads: vertices are three
/// 32-bit coordinates each, and the optional index buffer holds 16-bit
/// indices.
pub open spec fn geometry_of<V, I>(
    vertex_buffer: UploadResource<V>,
    index_buffer: Option<UploadResource<I>>,
) -> GeometryDesc {
    GeometryDesc {
        index_format: if index_buffer is Some {
            IndexFormat::Uint16
        } else {
            IndexFormat::NoIndices
        },
        vertex_count: (vertex_buffer.count / 3) as u32,
        index_count: (match index_buffer {
            Option::Some(b) => b.count,
            Option::None => 0,
        }) as u32,
        vertex_buffer: vertex_buffer.address,
        vertex_stride: 12,
        index_buffer: match index_buffer {
            Option::Some(b) => b.address,
            Option::None => 0,
        },
    }
}

pub open spec fn blas_inputs<V, I>(
    vertex_buffer: UploadResource<V>,
    index_buffer: Option<UploadResource<I>>,
) -> BuildInputs {
    BuildInputs {
        kind: StructureKind::BottomLevel,
        flags: BuildFlags::PreferFastTrace,
        num_descs: 1,
        source: BuildSource::Geometry(geometry_of(vertex_buffer, index_buffer)),
    }
}

pub open spec fn tlas_inputs(instances: UploadResource<InstanceDesc>) -> BuildInputs {
    BuildInputs {
        kind: StructureKind::TopLevel,
        flags: BuildFlags::AllowUpdate,
        num_descs: instances.count as u32,
        source: BuildSource::InstanceArray { instance_descs: instances.address },
    }
}

pub open spec fn deref_opt<T>(o: Option<&T>) -> Option<T> {
    match o {
        Option::Some(x) => Option::Some(*x),
        Option::None => Option::None,
    }
}

/// The command is a build of `inputs` into `dest` from `source` (zero
/// for a fresh build), with whatever scratch allocation served it.
pub open spec fn is_build(cmd: GpuCommand, dest: u64, inputs: BuildInputs, source: u64) -> bool {
    &&& cmd matches GpuCommand::BuildAccelerationStructure { desc }
    &&& cmd->desc.dest == dest
    &&& cmd->desc.inputs == inputs
    &&& cmd->desc.source == source
}

/// Builds one acceleration structure synchronously: allocates scratch
/// and result from the device-reported sizes, records the build, submits
/// it, waits for the GPU, and only then retires the scratch allocation.
/// Fails exactly when either allocation fails; the live resource count
/// then does not change.
pub fn make_acceleration_structure(
    interface: &mut DeviceInterface,
    inputs: BuildInputs,
    prebuild: PrebuildInfo,
) -> (r: Result<(OpaqueResource, u64), AllocationError>)
    requires
        old(interface).wf(),
        !old(interface).recording(),
        old(interface).fence_completed < u64::MAX,
    ensures
        final(interface).wf(),
        !final(interface).recording(),
        r is Ok <==> 1 <= prebuild.scratch_size && 1 <= prebuild.result_max_size && old(
            interface,
        ).resource_factory.next_address + prebuild.scratch_size + prebuild.result_max_size
            <= u64::MAX,
        match r {
            Ok((structure, update_scratch_size)) => {
                &&& structure.wf()
                &&& structure.address == old(interface).resource_factory.next_address
                    + prebuild.scratch_size
                &&& structure.size == prebuild.result_max_size
                &&& structure.state == ResourceState::RaytracingAccelerationStructure
                &&& structure.desc.flags == ResourceFlags::AllowUnorderedAccess
                &&& update_scratch_size == prebuild.update_scratch_size
                &&& final(interface).fence_completed == old(interface).fence_completed + 1
                &&& final(interface).resource_factory.created == old(
                    interface,
                ).resource_factory.created + 2
                &&& final(interface).resource_factory.retired == old(
                    interface,
                ).resource_factory.retired + 1
                &&& final(interface).resource_factory.next_address == old(
                    interface,
                ).resource_factory.next_address + prebuild.scratch_size + prebuild.result_max_size
                &&& final(interface).history@ == old(interface).history@ + seq![
                    GpuCommand::BuildAccelerationStructure {
                        desc: BuildDesc {
                            dest: structure.address,
                            inputs,
                            source: 0,
                            scratch: old(interface).resource_factory.next_address,
                        },
                    },
                ]
            },
            Err(e) => {
                &&& e == AllocationError
                &&& final(interface).fence_completed == old(interface).fence_completed
                &&& final(interface).history == old(interface).history
                &&& final(interface).resource_factory.live() == old(
                    interface,
                ).resource_factory.live()
            },
        },
{
    let scratch = match interface.resource_factory.create_gpu_resource(
        Some(ResourceFlags::AllowUnorderedAccess),
        Option::None,
        prebuild.scratch_size,
    ) {
        Ok(resource) => resource,
        Err(e) => {
            return Err(e);
        },
    };
    let structure = match interface.resource_factory.create_gpu_resource(
        Some(ResourceFlags::AllowUnorderedAccess),
        Some(ResourceState::RaytracingAccelerationStructure),
        prebuild.result_max_size,
    ) {
        Ok(resource) => resource,
        Err(e) => {
            interface.resource_factory.retire(scratch);
            return Err(e);
        },
    };
    let build_desc = BuildDesc {
        dest: structure.get_gpu_virtual_address(),
        inputs,
        source: 0,
        scratch: scratch.get_gpu_virtual_address(),
    };
    interface.reset_commands();
    interface.record(GpuCommand::BuildAccelerationStructure { desc: build_desc });
    let _submitted = interface.close_and_execute();
    interface.wait_for_gpu();
    interface.resource_factory.retire(scratch);
    proof {
        assert(interface.history@ =~= old(interface).history@ + seq![
            GpuCommand::BuildAccelerationStructure {
                desc: BuildDesc {
                    dest: structure.address,
                    inputs,
                    source: 0,
                    scratch: old(interface).resource_factory.next_address,
                },
            },
        ]);
    }
    Ok((structure, prebuild.update_scratch_size))
}

/// Builds the immutable bottom-level structure for one mesh: a vertex
/// buffer of three 32-bit coordinates per vertex and an optional 16-bit
/// index buffer.
pub fn make_blas<V: Copy, I: Copy>(
    interface: &mut DeviceInterface,
    vertex_buffer: &UploadResource<V>,
    index_buffer: Option<&UploadResource<I>>,
    prebuild: PrebuildInfo,
) -> (r: Result<OpaqueResource, AllocationError>)
    requires
        old(interface).wf(),
        !old(interface).recording(),
        old(interface).fence_completed < u64::MAX,
        vertex_buffer.count / 3 <= u32::MAX,
        match index_buffer {
            Option::Some(b) => b.count <= u32::MAX,
            Option::None => true,
        },
    ensures
        final(interface).wf(),
        !final(interface).recording(),
        r is Ok <==> 1 <= prebuild.scratch_size && 1 <= prebuild.result_max_size && old(
            interface,
        ).resource_factory.next_address + prebuild.scratch_size + prebuild.result_max_size
            <= u64::MAX,
        match r {
            Ok(blas) => {
                &&& blas.wf()
                &&& blas.address == old(interface).resource_factory.next_address
                    + prebuild.scratch_size
                &&& blas.size == prebuild.result_max_size
                &&& blas.state == ResourceState::RaytracingAccelerationStructure
                &&& final(interface).fence_completed == old(interface).fence_completed + 1
                &&& final(interface).resource_factory.created == old(
                    interface,
                ).resource_factory.created + 2
                &&& final(interface).resource_factory.retired == old(
                    interface,
                ).resource_factory.retired + 1
                &&& final(interface).resource_factory.next_address == old(
                    interface,
                ).resource_factory.next_address + prebuild.scratch_size + prebuild.result_max_size
                &&& final(interface).history@.len() == old(interface).history@.len() + 1
                &&& final(interface).history@.subrange(0, old(interface).history@.len() as int)
                    == old(interface).history@
                &&& is_build(
                    final(interface).history@.last(),
                    blas.address,
                    blas_inputs::<V, I>(*vertex_buffer, deref_opt(index_buffer)),
                    0,
                )
            },
            Err(e) => {
                &&& e == AllocationError
                &&& final(interface).fence_completed == old(interface).fence_completed
                &&& final(interface).history == old(interface).history
                &&& final(interface).resource_factory.live() == old(
                    interface,
                ).resource_factory.live()
            },
        },
{
    let index_format: IndexFormat = match index_buffer {
        Option::Some(_) => IndexFormat::Uint16,
        Option::None => IndexFormat::NoIndices,
    };
    let index_count: u32 = match index_buffer {
        Option::Some(b) => b.len() as u32,
        Option::None => 0,
    };
    let index_address: u64 = match index_buffer {
        Option::Some(b) => b.get_gpu_virtual_address(),
        Option::None => 0,
    };
    let geometry = GeometryDesc {
        index_format,
        vertex_count: (vertex_buffer.len() / 3) as u32,
        index_count,
        vertex_buffer: vertex_buffer.get_gpu_virtual_address(),
        vertex_stride: 12,
        index_buffer: index_address,
    };
    let inputs = BuildInputs {
        kind: StructureKind::BottomLevel,
        flags: BuildFlags::PreferFastTrace,
        num_descs: 1,
        source: BuildSource::Geometry(geometry),
    };
    match make_acceleration_structure(interface, inputs, prebuild) {
        Ok((blas, _)) => {
            proof {
                let h0 = old(interface).history@;
                assert(interface.history@.subrange(0, h0.len() as int) =~= h0);
                assert(interface.history@.last() == interface.history@[h0.len() as int]);
                assert(geometry == geometry_of::<V, I>(*vertex_buffer, deref_opt(index_buffer)));
            }
            Ok(blas)
        },
        Err(e) => Err(e),
    }
}

/// Builds the initial top-level structure over the instance array, with
/// updates allowed so it can be refit in place every frame; also hands
/// back the refit scratch requirement.
pub fn make_tlas(
    interface: &mut DeviceInterface,
    instances: &UploadResource<InstanceDesc>,
    prebuild: PrebuildInfo,
) -> (r: Result<(OpaqueResource, u64), AllocationError>)
    requires
        old(interface).wf(),
        !old(interface).recording(),
        old(interface).fence_completed < u64::MAX,
        instances.count <= u32::MAX,
    ensures
        final(interface).wf(),
        !final(interface).recording(),
        r is Ok <==> 1 <= prebuild.scratch_size && 1 <= prebuild.result_max_size && old(
            interface,
        ).resource_factory.next_address + prebuild.scratch_size + prebuild.result_max_size
            <= u64::MAX,
        match r {
            Ok((tlas, update_scratch_size)) => {
                &&& tlas.wf()
                &&& tlas.address == old(interface).resource_factory.next_address
                    + prebuild.scratch_size
                &&& tlas.size == prebuild.result_max_size
                &&& tlas.state == ResourceState::RaytracingAccelerationStructure
                &&& update_scratch_size == prebuild.update_scratch_size
                &&& final(interface).fence_completed == old(interface).fence_completed + 1
                &&& final(interface).resource_factory.created == old(
                    interface,
                ).resource_factory.created + 2
                &&& final(interface).resource_factory.retired == old(
                    interface,
                ).resource_factory.retired + 1
                &&& final(interface).resource_factory.next_address == old(
                    interface,
                ).resource_factory.next_address + prebuild.scratch_size + prebuild.result_max_size
                &&& final(interface).history@.len() == old(interface).history@.len() + 1
                &&& final(interface).history@.subrange(0, old(interface).history@.len() as int)
                    == old(interface).history@
                &&& is_build(final(interface).history@.last(), tlas.address, tlas_inputs(*instances), 0)
            },
            Err(e) => {
                &&& e == AllocationError
                &&& final(interface).fence_completed == old(interface).fence_completed
                &&& final(interface).history == old(interface).history
                &&& final(interface).resource_factory.live() == old(
                    interface,
                ).resource_factory.live()
            },
        },
{
    let inputs = BuildInputs {
        kind: StructureKind::TopLevel,
        flags: BuildFlags::AllowUpdate,
        num_descs: instances.len() as u32,
        source: BuildSource::InstanceArray { instance_descs: instances.get_gpu_virtual_address() },
    };
    let r = make_acceleration_structure(interface, inputs, prebuild);
    proof {
        if r is Ok {
            let h0 = old(interface).history@;
            assert(interface.history@.subrange(0, h0.len() as int) =~= h0);
            assert(interface.history@.last() == interface.history@[h0.len() as int]);
            assert(inputs == tlas_inputs(*instances));
        }
    }
    r
}

/// The instance array the scene starts from: the cube instance first,
/// then the mirror and floor quads, each visible under mask one and
/// pointing at its mesh's bottom-level structure.
pub open spec fn initial_instances(
    cube_structure: u64,
    quad_structure: u64,
    t: InstanceTransforms,
) -> Seq<InstanceDesc> {
    seq![
        InstanceDesc {
            transform: t.cube,
            id_and_mask: id_mask_bits(0, 1),
            contribution_and_flags: 0,
            acceleration_structure: cube_structure,
        },
        InstanceDesc {
            transform: t.mirror,
            id_and_mask: id_mask_bits(1, 1),
            contribution_and_flags: 0,
            acceleration_structure: quad_structure,
        },
        InstanceDesc {
            transform: t.floor,
            id_and_mask: id_mask_bits(2, 1),
            contribution_and_flags: 0,
            acceleration_structure: quad_structure,
        },
    ]
}

/// Every byte the whole scene build allocates, in order: the three mesh
/// uploads, scratch and result for each of the three builds, the
/// instance array, and the dedicated refit scratch.
pub open spec fn scene_build_bytes(
    quad_blas_prebuild: PrebuildInfo,
    cube_blas_prebuild: PrebuildInfo,
    tlas_prebuild: PrebuildInfo,
) -> int {
    72 + 96 + 72 + quad_blas_prebuild.scratch_size + quad_blas_prebuild.result_max_size
        + cube_blas_prebuild.scratch_size + cube_blas_prebuild.result_max_size + NUM_INSTANCES
        * size_of::<InstanceDesc>() + tlas_prebuild.scratch_size + tlas_prebuild.result_max_size
        + tlas_prebuild.update_scratch_size
}

/// Exactly when the whole scene build succeeds: every device-reported
/// size is nonzero and the address space holds the total.
pub open spec fn scene_build_succeeds(
    next_address: u64,
    quad_blas_prebuild: PrebuildInfo,
    cube_blas_prebuild: PrebuildInfo,
    tlas_prebuild: PrebuildInfo,
) -> bool {
    &&& 1 <= quad_blas_prebuild.scratch_size
    &&& 1 <= quad_blas_prebuild.result_max_size
    &&& 1 <= cube_blas_prebuild.scratch_size
    &&& 1 <= cube_blas_prebuild.result_max_size
    &&& 1 <= tlas_prebuild.scratch_size
    &&& 1 <= tlas_prebuild.result_max_size
    &&& 1 <= tlas_prebuild.update_scratch_size
    &&& 1 <= size_of::<InstanceDesc>()
    &&& next_address + scene_build_bytes(quad_blas_prebuild, cube_blas_prebuild, tlas_prebuild)
        <= u64::MAX
}

fn empty_instance() -> (r: InstanceDesc)
    ensures
        r.id_and_mask == 0,
        r.contribution_and_flags == 0,
        r.acceleration_structure == 0,
{
    InstanceDesc {
        transform: [0u32, 0, 0, 0, 0, 0, 0, 0, 0, 0, 0, 0],
        id_and_mask: 0,
        contribution_and_flags: 0,
        acceleration_structure: 0,
    }
}

pub struct Scene {
    pub quad_buffer: OpaqueResource,
    pub cube_buffer: OpaqueResource,
    pub cube_index_buffer: OpaqueResource,
    pub quad_blas: OpaqueResource,
    pub cube_blas: OpaqueResource,
    pub tlas: OpaqueResource,
    pub tlas_scratch: OpaqueResource,
    pub instances: UploadResource<InstanceDesc>,
    /// The instance array the top-level structure was last built or
    /// refit from.
    pub tlas_view: Ghost<Seq<InstanceDesc>>,
}

impl Scene {
    pub open spec fn wf(self) -> bool {
        &&& self.instances.wf()
        &&& !self.instances.mapped()
        &&& self.instances.count == NUM_INSTANCES
        &&& self.quad_blas.wf()
        &&& self.cube_blas.wf()
        &&& self.tlas.wf()
        &&& self.tlas_scratch.wf()
    }

    /// Builds the whole scene: uploads the two meshes and the cube's
    /// indices, builds one bottom-level structure per mesh, fills the
    /// three-instance array (cube, quad, quad), builds the top-level
    /// structure over it, and allocates the dedicated refit scratch
    /// sized from the refit — not the full-build — requirement.  Each
    /// build is submitted and waited for synchronously.  Fails exactly
    /// when an allocation fails; a failed build releases everything it
    /// had allocated, so the live resource count is unchanged.
    pub fn build(
        interface: &mut DeviceInterface,
        quad_blas_prebuild: PrebuildInfo,
        cube_blas_prebuild: PrebuildInfo,
        tlas_prebuild: PrebuildInfo,
        transforms: &InstanceTransforms,
    ) -> (r: Result<Scene, AllocationError>)
        requires
            old(interface).wf(),
            !old(interface).recording(),
            old(interface).fence_completed + 3 <= u64::MAX,
        ensures
            final(interface).wf(),
            !final(interface).recording(),
            r is Ok <==> scene_build_succeeds(
                old(interface).resource_factory.next_address,
                quad_blas_prebuild,
                cube_blas_prebuild,
                tlas_prebuild,
            ),
            match r {
                Ok(scene) => {
                    &&& scene.wf()
                    &&& scene.instances@ == initial_instances(
                        scene.cube_blas.address,
                        scene.quad_blas.address,
                        *transforms,
                    )
                    &&& scene.instances@.len() == NUM_INSTANCES
                    &&& scene.instances@[0].acceleration_structure == scene.cube_blas.address
                    &&& scene.instances@[1].acceleration_structure == scene.quad_blas.address
                    &&& scene.instances@[2].acceleration_structure == scene.quad_blas.address
                    &&& forall|i: int|
                        0 <= i < NUM_INSTANCES ==> instance_id_of(
                            #[trigger] scene.instances@[i].id_and_mask,
                        ) == i && instance_mask_of(scene.instances@[i].id_and_mask) == 1
                    &&& scene.cube_blas.address != scene.quad_blas.address
                    &&& scene.tlas_view@ == scene.instances@
                    &&& scene.tlas.size == tlas_prebuild.result_max_size
                    &&& scene.tlas.state == ResourceState::RaytracingAccelerationStructure
                    &&& scene.tlas_scratch.size == tlas_prebuild.update_scratch_size
                    &&& scene.quad_buffer.size == 72
                    &&& scene.cube_buffer.size == 96
                    &&& scene.cube_index_buffer.size == 72
                    &&& final(interface).fence_completed == old(interface).fence_completed + 3
                    &&& final(interface).resource_factory.live() == old(
                        interface,
                    ).resource_factory.live() + 8
                    &&& final(interface).history@.len() == old(interface).history@.len() + 3
                    &&& final(interface).history@.subrange(
                        0,
                        old(interface).history@.len() as int,
                    ) == old(interface).history@
                    &&& is_build(
                        final(interface).history@[old(interface).history@.len() as int],
                        scene.quad_blas.address,
                        BuildInputs {
                            kind: StructureKind::BottomLevel,
                            flags: BuildFlags::PreferFastTrace,
                            num_descs: 1,
                            source: BuildSource::Geometry(
                                GeometryDesc {
                                    index_format: IndexFormat::NoIndices,
                                    vertex_count: 6,
                                    index_count: 0,
                                    vertex_buffer: scene.quad_buffer.address,
                                    vertex_stride: 12,
                                    index_buffer: 0,
                                },
                            ),
                        },
                        0,
                    )
                    &&& is_build(
                        final(interface).history@[old(interface).history@.len() as int + 1],
                        scene.cube_blas.address,
                        BuildInputs {
                            kind: StructureKind::BottomLevel,
                            flags: BuildFlags::PreferFastTrace,
                            num_descs: 1,
                            source: BuildSource::Geometry(
                                GeometryDesc {
                                    index_format: IndexFormat::Uint16,
                                    vertex_count: 8,
                                    index_count: 36,
                                    vertex_buffer: scene.cube_buffer.address,
                                    vertex_stride: 12,
                                    index_buffer: scene.cube_index_buffer.address,
                                },
                            ),
                        },
                        0,
                    )
                    &&& is_build(
                        final(interface).history@[old(interface).history@.len() as int + 2],
                        scene.tlas.address,
                        BuildInputs {
                            kind: StructureKind::TopLevel,
                            flags: BuildFlags::AllowUpdate,
                            num_descs: NUM_INSTANCES,
                            source: BuildSource::InstanceArray {
                                instance_descs: scene.instances.address,
                            },
                        },
                        0,
                    )
                },
                Err(e) => {
                    &&& e == AllocationError
                    &&& final(interface).resource_factory.live() == old(
                        interface,
                    ).resource_factory.live()
                    &&& old(interface).fence_completed <= final(interface).fence_completed <= old(
                        interface,
                    ).fence_completed + 3
                },
            },
    {
        proof {
            assert(1 <= 3 * size_of::<InstanceDesc>() <==> 1 <= size_of::<InstanceDesc>())
                by (nonlinear_arith);
        }
        let quad_data = quad_vertex_data();
        let quad_upload = match interface.resource_factory.create_upload_resource_from_slice(
            Option::None,
            Option::None,
            quad_data.as_slice(),
        ) {
            Ok(resource) => resource,
            Err(e) => {
                return Err(e);
            },
        };
        let cube_data = cube_vertex_data();
        let cube_upload = match interface.resource_factory.create_upload_resource_from_slice(
            Option::None,
            Option::None,
            cube_data.as_slice(),
        ) {
            Ok(resource) => resource,
            Err(e) => {
                interface.resource_factory.retire_upload(quad_upload);
                return Err(e);
            },
        };
        let index_data = cube_index_data();
        let cube_index_upload = match interface.resource_factory.create_upload_resource_from_slice(
            Option::None,
            Option::None,
            index_data.as_slice(),
        ) {
            Ok(resource) => resource,
            Err(e) => {
                interface.resource_factory.retire_upload(quad_upload);
                interface.resource_factory.retire_upload(cube_upload);
                return Err(e);
            },
        };
        let quad_blas = match make_blas::<u32, u16>(
            interface,
            &quad_upload,
            Option::None,
            quad_blas_prebuild,
        ) {
            Ok(blas) => blas,
            Err(e) => {
                interface.resource_factory.retire_upload(quad_upload);
                interface.resource_factory.retire_upload(cube_upload);
                interface.resource_factory.retire_upload(cube_index_upload);
                return Err(e);
            },
        };
        let cube_blas = match make_blas::<u32, u16>(
            interface,
            &cube_upload,
            Some(&cube_index_upload),
            cube_blas_prebuild,
        ) {
            Ok(blas) => blas,
            Err(e) => {
                interface.resource_factory.retire_upload(quad_upload);
                interface.resource_factory.retire_upload(cube_upload);
                interface.resource_factory.retire_upload(cube_index_upload);
                interface.resource_factory.retire(quad_blas);
                return Err(e);
            },
        };
        let mut instances = match interface.resource_factory.create_upload_resource::<InstanceDesc>(
            Option::None,
            Option::None,
            NUM_INSTANCES as u64,
            empty_instance(),
        ) {
            Ok(resource) => resource,
            Err(e) => {
                interface.resource_factory.retire_upload(quad_upload);
                interface.resource_factory.retire_upload(cube_upload);
                interface.resource_factory.retire_upload(cube_index_upload);
                interface.resource_factory.retire(quad_blas);
                interface.resource_factory.retire(cube_blas);
                return Err(e);
            },
        };
        let mut buffer = instances.get_buffer();
        let mut d0 = empty_instance();
        d0.id_and_mask = pack_id_and_mask(0, 1);
        d0.acceleration_structure = cube_blas.get_gpu_virtual_address();
        buffer.write(0, d0);
        let mut d1 = empty_instance();
        d1.id_and_mask = pack_id_and_mask(1, 1);
        d1.acceleration_structure = quad_blas.get_gpu_virtual_address();
        buffer.write(1, d1);
        let mut d2 = empty_instance();
        d2.id_and_mask = pack_id_and_mask(2, 1);
        d2.acceleration_structure = quad_blas.get_gpu_virtual_address();
        buffer.write(2, d2);
        update_transforms(&mut buffer, transforms);
        instances.release_buffer(buffer);
        let (tlas, update_scratch_size) = match make_tlas(interface, &instances, tlas_prebuild) {
            Ok(pair) => pair,
            Err(e) => {
                interface.resource_factory.retire_upload(quad_upload);
                interface.resource_factory.retire_upload(cube_upload);
                interface.resource_factory.retire_upload(cube_index_upload);
                interface.resource_factory.retire(quad_blas);
                interface.resource_factory.retire(cube_blas);
                interface.resource_factory.retire_upload(instances);
                return Err(e);
            },
        };
        let tlas_scratch = match interface.resource_factory.create_gpu_resource(
            Some(ResourceFlags::AllowUnorderedAccess),
            Option::None,
            update_scratch_size,
        ) {
            Ok(resource) => resource,
            Err(e) => {
                interface.resource_factory.retire_upload(quad_upload);
                interface.resource_factory.retire_upload(cube_upload);
                interface.resource_factory.retire_upload(cube_index_upload);
                interface.resource_factory.retire(quad_blas);
                interface.resource_factory.retire(cube_blas);
                interface.resource_factory.retire_upload(instances);
                interface.resource_factory.retire(tlas);
                return Err(e);
            },
        };
        let ghost built_from = instances@;
        let scene = Scene {
            quad_buffer: quad_upload.into_opaque(),
            cube_buffer: cube_upload.into_opaque(),
            cube_index_buffer: cube_index_upload.into_opaque(),
            quad_blas,
            cube_blas,
            tlas,
            tlas_scratch,
            instances,
            tlas_view: Ghost(built_from),
        };
        proof {
            lemma_id_mask_bits(0, 1);
            lemma_id_mask_bits(1, 1);
            lemma_id_mask_bits(2, 1);
            assert(scene.instances@ =~= initial_instances(
                scene.cube_blas.address,
                scene.quad_blas.address,
                *transforms,
            ));
            assert(interface.history@.subrange(0, old(interface).history@.len() as int)
                =~= old(interface).history@);
        }
        Ok(scene)
    }

    /// Refits the top-level structure in place for this frame's
    /// transforms: rewrites the instance transforms through a scoped
    /// mapping, records an update-in-place build whose source and
    /// destination are both the structure's own address with the
    /// dedicated refit scratch, and records the memory-ordering barrier
    /// that makes the refit visible before any shader reads it.
    pub fn update(&mut self, interface: &mut DeviceInterface, transforms: &InstanceTransforms)
        requires
            old(self).wf(),
            old(interface).recording(),
        ensures
            final(self).wf(),
            final(self).instances@ == with_transforms(old(self).instances@, *transforms),
            final(self).tlas_view@ == final(self).instances@,
            final(self).quad_buffer == old(self).quad_buffer,
            final(self).cube_buffer == old(self).cube_buffer,
            final(self).cube_index_buffer == old(self).cube_index_buffer,
            final(self).quad_blas == old(self).quad_blas,
            final(self).cube_blas == old(self).cube_blas,
            final(self).tlas == old(self).tlas,
            final(self).tlas_scratch == old(self).tlas_scratch,
            final(self).instances.address == old(self).instances.address,
            final(self).instances.count == old(self).instances.count,
            final(interface).recording(),
            final(interface).commands@ == old(interface).commands@ + seq![
                GpuCommand::BuildAccelerationStructure {
                    desc: BuildDesc {
                        dest: old(self).tlas.address,
                        inputs: BuildInputs {
                            kind: StructureKind::TopLevel,
                            flags: BuildFlags::PerformUpdate,
                            num_descs: NUM_INSTANCES,
                            source: BuildSource::InstanceArray {
                                instance_descs: old(self).instances.address,
                            },
                        },
                        source: old(self).tlas.address,
                        scratch: old(self).tlas_scratch.address,
                    },
                },
                GpuCommand::UavBarrier { resource: old(self).tlas.address },
            ],
            final(interface).fence_completed == old(interface).fence_completed,
            final(interface).resource_factory == old(interface).resource_factory,
            final(interface).history == old(interface).history,
    {
        let mut buffer = self.instances.get_buffer();
        update_transforms(&mut buffer, transforms);
        self.instances.release_buffer(buffer);
        let desc = BuildDesc {
            dest: self.tlas.get_gpu_virtual_address(),
            inputs: BuildInputs {
                kind: StructureKind::TopLevel,
                flags: BuildFlags::PerformUpdate,
                num_descs: NUM_INSTANCES,
                source: BuildSource::InstanceArray {
                    instance_descs: self.instances.get_gpu_virtual_address(),
                },
            },
            source: self.tlas.get_gpu_virtual_address(),
            scratch: self.tlas_scratch.get_gpu_virtual_address(),
        };
        interface.record(GpuCommand::BuildAccelerationStructure { desc });
        interface.record(
            GpuCommand::UavBarrier { resource: self.tlas.get_gpu_virtual_address() },
        );
        let ghost refit_from = self.instances@;
        self.tlas_view = Ghost(refit_from);
        proof {
            assert(interface.commands@ =~= old(interface).commands@ + seq![
                GpuCommand::BuildAccelerationStructure {
                    desc: BuildDesc {
                        dest: old(self).tlas.address,
                        inputs: BuildInputs {
                            kind: StructureKind::TopLevel,
                            flags: BuildFlags::PerformUpdate,
                            num_descs: NUM_INSTANCES,
                            source: BuildSource::InstanceArray {
                                instance_descs: old(self).instances.address,
                            },
                        },
                        source: old(self).tlas.address,
                        scratch: old(self).tlas_scratch.address,
                    },
                },
                GpuCommand::UavBarrier { resource: old(self).tlas.address },
            ]);
        }
    }

    /// Records the binding of the top-level structure to the root
    /// signature's direct shader-resource-view parameter.
    pub fn bind(&self, interface: &mut DeviceInterface)
        requires
            old(interface).recording(),
        ensures
            final(interface).recording(),
            final(interface).commands@ == old(interface).commands@.push(
                GpuCommand::SetComputeRootShaderResourceView {
                    parameter: 1,
                    address: self.tlas.address,
                },
            ),
            final(interface).fence_completed == old(interface).fence_completed,
            final(interface).resource_factory == old(interface).resource_factory,
            final(interface).history == old(interface).history,
    {
        interface.record(
            GpuCommand::SetComputeRootShaderResourceView {
                parameter: 1,
                address: self.tlas.get_gpu_virtual_address(),
            },
        );
    }
}

} // verus!
