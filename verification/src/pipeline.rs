//! The raytracing pipeline binder and its shader table: a fixed-stride
//! array of three opaque shader identifiers (ray generation, miss, hit
//! group), each written into its own alignment-padded slot of one upload
//! buffer, built once and immutable thereafter.

use vstd::prelude::*;
use crate::commands::{AddressRange, AddressRangeAndStride, DispatchRaysDesc, GpuCommand};
use crate::device_interface::DeviceInterface;
use crate::resource::{AllocationError, ResourceDesc, UploadResource};

verus! {

broadcast use vstd::layout::layout_of_primitives;

/// Size in bytes of one opaque shader identifier.
pub const SHADER_IDENTIFIER_SIZE: usize = 32;

/// Hardware-mandated alignment of a shader-table slot; also the table's
/// fixed stride.
pub const SHADER_TABLE_ALIGNMENT: usize = 64;

/// Ray generation, miss, hit group.
pub const NUM_SHADER_IDS: usize = 3;

/// The three identifiers the pipeline reports for its entry points, each
/// exactly one identifier in size.
pub struct ShaderIdentifiers {
    pub ray_generation: Vec<u8>,
    pub miss: Vec<u8>,
    pub hit_group: Vec<u8>,
}

impl ShaderIdentifiers {
    pub open spec fn wf(self) -> bool {
        &&& self.ray_generation@.len() == SHADER_IDENTIFIER_SIZE
        &&& self.miss@.len() == SHADER_IDENTIFIER_SIZE
        &&& self.hit_group@.len() == SHADER_IDENTIFIER_SIZE
    }
}

/// The byte at offset `j` of the shader table built from `ids`: each
/// identifier sits at the start of its alignment-padded slot, and the
/// padding bytes are zero.
pub open spec fn shader_table_byte(ids: ShaderIdentifiers, j: int) -> u8 {
    if 0 <= j < 32 {
        ids.ray_generation@[j]
    } else if 64 <= j < 96 {
        ids.miss@[j - 64]
    } else if 128 <= j < 160 {
        ids.hit_group@[j - 128]
    } else {
        0
    }
}

/// The whole shader table as bytes: three alignment-padded slots.
pub open spec fn shader_table_bytes(ids: ShaderIdentifiers) -> Seq<u8> {
    Seq::new((NUM_SHADER_IDS * SHADER_TABLE_ALIGNMENT) as nat, |j: int| shader_table_byte(ids, j))
}

/// Round trip: slot `i` of the table built from `ids` reads back exactly
/// the identifier written for slot `i`.
pub proof fn lemma_shader_table_round_trip(ids: ShaderIdentifiers, i: int)
    requires
        ids.wf(),
        0 <= i < NUM_SHADER_IDS,
    ensures
        shader_table_bytes(ids).subrange(
            i * SHADER_TABLE_ALIGNMENT,
            i * SHADER_TABLE_ALIGNMENT + SHADER_IDENTIFIER_SIZE,
        ) == (if i == 0 {
            ids.ray_generation@
        } else if i == 1 {
            ids.miss@
        } else {
            ids.hit_group@
        }),
{
    if i == 0 {
        assert(shader_table_bytes(ids).subrange(0, 32) =~= ids.ray_generation@);
    } else if i == 1 {
        assert(shader_table_bytes(ids).subrange(64, 96) =~= ids.miss@);
    } else {
        assert(shader_table_bytes(ids).subrange(128, 160) =~= ids.hit_group@);
    }
}

/// The global root signature: one UAV descriptor-table parameter for the
/// output image and one direct shader-resource-view parameter for the
/// top-level structure.
#[derive(Clone, Copy, Debug, PartialEq, Eq, Structural)]
pub enum RootParameter {
    UavDescriptorTable { num_descriptors: u32 },
    ShaderResourceView { shader_register: u32, register_space: u32 },
}

pub struct RootSignatureDesc {
    pub parameters: Vec<RootParameter>,
}

impl RootSignatureDesc {
    pub open spec fn wf(self) -> bool {
        &&& self.parameters@.len() == 2
        &&& self.parameters@[0] == RootParameter::UavDescriptorTable { num_descriptors: 1 }
        &&& self.parameters@[1] == RootParameter::ShaderResourceView {
            shader_register: 0,
            register_space: 0,
        }
    }
}

/// Builds the two-parameter global root signature description.  Its
/// serialization and the driver's diagnostics on a malformed one are the
/// native front end's business; the description itself is fixed.
pub fn create_root_signature() -> (r: RootSignatureDesc)
    ensures
        r.wf(),
{
    let mut parameters: Vec<RootParameter> = Vec::new();
    parameters.push(RootParameter::UavDescriptorTable { num_descriptors: 1 });
    parameters.push(RootParameter::ShaderResourceView { shader_register: 0, register_space: 0 });
    RootSignatureDesc { parameters }
}

/// The shader payload/attribute size configuration and recursion limit
/// the pipeline is compiled with.
#[derive(Clone, Copy, Debug, PartialEq, Eq, Structural)]
pub struct PipelineConfig {
    pub max_payload_size: u32,
    pub max_attribute_size: u32,
    pub max_trace_recursion_depth: u32,
}

/// The dispatch description the pipeline derives for a render target of
/// the given description.
pub open spec fn rays_desc(p: Pipeline, surface_desc: ResourceDesc) -> DispatchRaysDesc {
    DispatchRaysDesc {
        ray_generation_shader_record: AddressRange {
            start: p.shader_ids.address,
            size: SHADER_IDENTIFIER_SIZE as u64,
        },
        miss_shader_table: AddressRangeAndStride {
            start: (p.shader_ids.address + SHADER_TABLE_ALIGNMENT) as u64,
            size: SHADER_IDENTIFIER_SIZE as u64,
            stride: 0,
        },
        hit_group_table: AddressRangeAndStride {
            start: (p.shader_ids.address + 2 * SHADER_TABLE_ALIGNMENT) as u64,
            size: SHADER_IDENTIFIER_SIZE as u64,
            stride: 0,
        },
        width: surface_desc.width as u32,
        height: surface_desc.height,
        depth: 1,
    }
}

pub struct Pipeline {
    pub root_signature: RootSignatureDesc,
    pub config: PipelineConfig,
    /// The shader table: `NUM_SHADER_IDS` alignment-padded identifier
    /// slots in one upload buffer.
    pub shader_ids: UploadResource<u8>,
}

impl Pipeline {
    pub open spec fn wf(self) -> bool {
        &&& self.root_signature.wf()
        &&& self.shader_ids.wf()
        &&& !self.shader_ids.mapped()
        &&& self.shader_ids.count == NUM_SHADER_IDS * SHADER_TABLE_ALIGNMENT
    }

    /// Compiles the pipeline from the shader-bytecode blob (an opaque
    /// step of the native front end) and writes the three reported
    /// identifiers into their alignment-padded table slots.  Fails
    /// exactly when the table allocation fails.
    pub fn create(interface: &mut DeviceInterface, identifiers: &ShaderIdentifiers) -> (r: Result<
        Pipeline,
        AllocationError,
    >)
        requires
            old(interface).wf(),
            identifiers.wf(),
        ensures
            final(interface).wf(),
            final(interface).fence_completed == old(interface).fence_completed,
            final(interface).list_state == old(interface).list_state,
            final(interface).commands@ == old(interface).commands@,
            final(interface).history == old(interface).history,
            final(interface).resource_factory.retired == old(interface).resource_factory.retired,
            r is Ok <==> old(interface).resource_factory.next_address + NUM_SHADER_IDS
                * SHADER_TABLE_ALIGNMENT <= u64::MAX,
            match r {
                Ok(pipeline) => {
                    &&& pipeline.wf()
                    &&& pipeline.config == (PipelineConfig {
                        max_payload_size: 20,
                        max_attribute_size: 8,
                        max_trace_recursion_depth: 10,
                    })
                    &&& pipeline.shader_ids.address
                        == old(interface).resource_factory.next_address
                    &&& pipeline.shader_ids@ == shader_table_bytes(*identifiers)
                    &&& final(interface).resource_factory.created == old(
                        interface,
                    ).resource_factory.created + 1
                    &&& final(interface).resource_factory.next_address == old(
                        interface,
                    ).resource_factory.next_address + NUM_SHADER_IDS * SHADER_TABLE_ALIGNMENT
                },
                Err(e) => {
                    &&& final(interface).resource_factory == old(interface).resource_factory
                    &&& e == AllocationError
                },
            },
    {
        let root_signature = create_root_signature();
        let table_len: u64 = (NUM_SHADER_IDS * SHADER_TABLE_ALIGNMENT) as u64;
        let mut shader_ids: UploadResource<u8> = match interface.resource_factory
            .create_upload_resource::<u8>(Option::None, Option::None, table_len, 0u8) {
            Ok(resource) => resource,
            Err(e) => {
                return Err(e);
            },
        };
        let mut table = shader_ids.get_buffer();
        table.copy_from_slice_at(identifiers.ray_generation.as_slice(), 0);
        table.copy_from_slice_at(identifiers.miss.as_slice(), SHADER_TABLE_ALIGNMENT);
        table.copy_from_slice_at(identifiers.hit_group.as_slice(), 2 * SHADER_TABLE_ALIGNMENT);
        shader_ids.release_buffer(table);
        proof {
            assert(shader_ids@ =~= shader_table_bytes(*identifiers));
        }
        Ok(
            Pipeline {
                root_signature,
                config: PipelineConfig {
                    max_payload_size: 20,
                    max_attribute_size: 8,
                    max_trace_recursion_depth: 10,
                },
                shader_ids,
            },
        )
    }

    /// Records the binding of the pipeline state object and its global
    /// root signature, in that order.
    pub fn bind(&self, interface: &mut DeviceInterface)
        requires
            old(interface).recording(),
        ensures
            final(interface).recording(),
            final(interface).commands@ == old(interface).commands@ + seq![
                GpuCommand::SetPipelineState,
                GpuCommand::SetComputeRootSignature,
            ],
            final(interface).fence_completed == old(interface).fence_completed,
            final(interface).resource_factory == old(interface).resource_factory,
            final(interface).history == old(interface).history,
    {
        interface.record(GpuCommand::SetPipelineState);
        interface.record(GpuCommand::SetComputeRootSignature);
        proof {
            assert(interface.commands@ =~= old(interface).commands@ + seq![
                GpuCommand::SetPipelineState,
                GpuCommand::SetComputeRootSignature,
            ]);
        }
    }

    /// Reads one identifier slot of the shader table back through a
    /// scoped mapping; the table itself is left as it was.
    pub fn read_identifier(&mut self, slot: usize) -> (r: Vec<u8>)
        requires
            old(self).wf(),
            slot < NUM_SHADER_IDS,
        ensures
            final(self).wf(),
            final(self).shader_ids@ == old(self).shader_ids@,
            final(self).shader_ids.address == old(self).shader_ids.address,
            final(self).root_signature == old(self).root_signature,
            final(self).config == old(self).config,
            r@ == old(self).shader_ids@.subrange(
                slot * SHADER_TABLE_ALIGNMENT,
                slot * SHADER_TABLE_ALIGNMENT + SHADER_IDENTIFIER_SIZE,
            ),
    {
        let base: usize = slot * SHADER_TABLE_ALIGNMENT;
        let buffer = self.shader_ids.get_buffer();
        let mut r: Vec<u8> = Vec::new();
        let mut i: usize = 0;
        while i < SHADER_IDENTIFIER_SIZE
            invariant
                i <= SHADER_IDENTIFIER_SIZE,
                base == slot * SHADER_TABLE_ALIGNMENT,
                slot < NUM_SHADER_IDS,
                buffer@.len() == NUM_SHADER_IDS * SHADER_TABLE_ALIGNMENT,
                r@ == buffer@.subrange(base as int, base + i),
            decreases SHADER_IDENTIFIER_SIZE - i,
        {
            r.push(buffer.read(base + i));
            proof {
                assert(buffer@.subrange(base as int, base + i).push(buffer@[base + i])
                    =~= buffer@.subrange(base as int, base + i + 1));
            }
            i = i + 1;
        }
        self.shader_ids.release_buffer(buffer);
        r
    }

    /// Describes one raytracing dispatch sized to the current render
    /// target: the three shader-table ranges lie at consecutive
    /// slot-stride offsets from the table's address, and the grid is the
    /// target's width by its height by one.
    pub fn create_rays_description(&self, surface_desc: &ResourceDesc) -> (r: DispatchRaysDesc)
        requires
            self.wf(),
            surface_desc.width <= u32::MAX,
        ensures
            r == rays_desc(*self, *surface_desc),
            r.ray_generation_shader_record == (AddressRange {
                start: self.shader_ids.address,
                size: SHADER_IDENTIFIER_SIZE as u64,
            }),
            r.miss_shader_table == (AddressRangeAndStride {
                start: (self.shader_ids.address + SHADER_TABLE_ALIGNMENT) as u64,
                size: SHADER_IDENTIFIER_SIZE as u64,
                stride: 0,
            }),
            r.hit_group_table == (AddressRangeAndStride {
                start: (self.shader_ids.address + 2 * SHADER_TABLE_ALIGNMENT) as u64,
                size: SHADER_IDENTIFIER_SIZE as u64,
                stride: 0,
            }),
            r.miss_shader_table.start == r.ray_generation_shader_record.start
                + SHADER_TABLE_ALIGNMENT,
            r.hit_group_table.start == r.miss_shader_table.start + SHADER_TABLE_ALIGNMENT,
            r.width == surface_desc.width,
            r.height == surface_desc.height,
            r.depth == 1,
    {
        let start: u64 = self.shader_ids.get_gpu_virtual_address();
        DispatchRaysDesc {
            ray_generation_shader_record: AddressRange {
                start,
                size: SHADER_IDENTIFIER_SIZE as u64,
            },
            miss_shader_table: AddressRangeAndStride {
                start: start + SHADER_TABLE_ALIGNMENT as u64,
                size: SHADER_IDENTIFIER_SIZE as u64,
                stride: 0,
            },
            hit_group_table: AddressRangeAndStride {
                start: start + 2 * SHADER_TABLE_ALIGNMENT as u64,
                size: SHADER_IDENTIFIER_SIZE as u64,
                stride: 0,
            },
            width: surface_desc.width as u32,
            height: surface_desc.height,
            depth: 1,
        }
    }
}

} // verus!
