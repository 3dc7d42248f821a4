//! One frame of the render loop, end to end: refit the top-level
//! structure, bind pipeline, scene and surface, dispatch rays sized to
//! the current target, present, and wait for the GPU.  The whole
//! submitted command sequence is stated as one value and proved.

use vstd::prelude::*;
use crate::commands::{BuildDesc, BuildFlags, BuildInputs, BuildSource, GpuCommand, StructureKind};
use crate::device_interface::DeviceInterface;
use crate::pipeline::{rays_desc, Pipeline};
use crate::scene::{with_transforms, InstanceTransforms, Scene, NUM_INSTANCES};
use crate::surface::{present_commands, Surface};

verus! {

/// Everything one frame records and submits, in order: the in-place
/// refit of the top-level structure and its visibility barrier, the
/// pipeline and root-signature binding, the structure and output-image
/// bindings, the dispatch sized to the current target, and the present
/// sequence.
pub open spec fn frame_commands(scene: Scene, pipeline: Pipeline, surface: Surface) -> Seq<
    GpuCommand,
> {
    seq![
        GpuCommand::BuildAccelerationStructure {
            desc: BuildDesc {
                dest: scene.tlas.address,
                inputs: BuildInputs {
                    kind: StructureKind::TopLevel,
                    flags: BuildFlags::PerformUpdate,
                    num_descs: NUM_INSTANCES,
                    source: BuildSource::InstanceArray {
                        instance_descs: scene.instances.address,
                    },
                },
                source: scene.tlas.address,
                scratch: scene.tlas_scratch.address,
            },
        },
        GpuCommand::UavBarrier { resource: scene.tlas.address },
        GpuCommand::SetPipelineState,
        GpuCommand::SetComputeRootSignature,
        GpuCommand::SetComputeRootShaderResourceView { parameter: 1, address: scene.tlas.address },
        GpuCommand::SetDescriptorHeaps,
        GpuCommand::SetComputeRootDescriptorTable { parameter: 0 },
        GpuCommand::DispatchRays { rays: rays_desc(pipeline, surface.target.desc) },
    ] + present_commands(surface)
}

/// Drives one frame against a freshly reset command list.  The returned
/// sequence is exactly what was submitted, the instance array carries
/// this frame's transforms, the surface's states are restored with the
/// swap flipped to the other back buffer, and the fence has advanced by
/// the present's wait plus the frame's closing wait.
pub fn render(
    interface: &mut DeviceInterface,
    scene: &mut Scene,
    pipeline: &Pipeline,
    surface: &mut Surface,
    transforms: &InstanceTransforms,
) -> (frame: Vec<GpuCommand>)
    requires
        old(interface).wf(),
        old(interface).recording(),
        old(interface).commands@ == Seq::<GpuCommand>::empty(),
        old(interface).fence_completed + 2 <= u64::MAX,
        old(scene).wf(),
        pipeline.wf(),
        old(surface).wf(),
    ensures
        frame@ == frame_commands(*old(scene), *pipeline, *old(surface)),
        final(scene).wf(),
        final(scene).instances@ == with_transforms(old(scene).instances@, *transforms),
        final(scene).tlas_view@ == final(scene).instances@,
        final(scene).tlas == old(scene).tlas,
        final(surface).wf(),
        final(surface).target == old(surface).target,
        final(surface).swap_chain.current_index == 1 - old(surface).swap_chain.current_index,
        !final(interface).recording(),
        final(interface).fence_completed == old(interface).fence_completed + 2,
        final(interface).resource_factory == old(interface).resource_factory,
        final(interface).history@ == old(interface).history@ + frame_commands(
            *old(scene),
            *pipeline,
            *old(surface),
        ),
{
    scene.update(interface, transforms);
    pipeline.bind(interface);
    scene.bind(interface);
    let surface_desc = surface.bind(interface);
    let rays = pipeline.create_rays_description(&surface_desc);
    interface.dispatch_rays(rays);
    let frame = surface.present(interface);
    interface.wait_for_gpu();
    proof {
        assert(frame@ =~= frame_commands(*old(scene), *pipeline, *old(surface)));
        assert(interface.history@ =~= old(interface).history@ + frame_commands(
            *old(scene),
            *pipeline,
            *old(surface),
        ));
    }
    frame
}

} // verus!
