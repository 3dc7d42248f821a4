use ray_engine::commands::{BuildFlags, GpuCommand, PrebuildInfo, StructureKind};
use ray_engine::device_interface::DeviceInterface;
use ray_engine::frame::render;
use ray_engine::pipeline::{Pipeline, ShaderIdentifiers, SHADER_IDENTIFIER_SIZE};
use ray_engine::scene::{InstanceTransforms, Scene};
use ray_engine::surface::{ClientRect, Surface};
use ray_engine::window_handle::{RawHandleKind, WindowHandle};

fn identifiers() -> ShaderIdentifiers {
    let make = |seed: u8| (0..SHADER_IDENTIFIER_SIZE).map(|i| seed.wrapping_add(i as u8)).collect();
    ShaderIdentifiers {
        ray_generation: make(1),
        miss: make(101),
        hit_group: make(201),
    }
}

fn transforms(seed: u32) -> InstanceTransforms {
    let mut make = |offset: u32| {
        let mut t = [0u32; 12];
        for (i, slot) in t.iter_mut().enumerate() {
            *slot = seed.wrapping_add(offset).wrapping_mul(17).wrapping_add(i as u32);
        }
        t
    };
    InstanceTransforms {
        cube: make(0),
        mirror: make(1),
        floor: make(2),
    }
}

fn prebuild(scratch: u64, result: u64, update: u64) -> PrebuildInfo {
    PrebuildInfo {
        scratch_size: scratch,
        result_max_size: result,
        update_scratch_size: update,
    }
}

#[test]
fn one_frame_end_to_end_against_an_800_by_600_target() {
    let mut interface = DeviceInterface::create();
    let window = WindowHandle::try_from(RawHandleKind::Win32 { hwnd: 1 }).unwrap();
    let mut surface = Surface::from_handle(
        &mut interface,
        window,
        ClientRect { left: 0, top: 0, right: 800, bottom: 600 },
    )
    .unwrap();
    let mut scene = Scene::build(
        &mut interface,
        prebuild(1024, 2048, 256),
        prebuild(4096, 8192, 512),
        prebuild(16384, 32768, 1024),
        &transforms(1),
    )
    .unwrap();
    let pipeline = Pipeline::create(&mut interface, &identifiers()).unwrap();

    let fence_before = interface.fence_completed;
    interface.reset_commands();
    let frame = render(
        &mut interface,
        &mut scene,
        &pipeline,
        &mut surface,
        &transforms(2),
    );

    // Refit first, with its visibility barrier.
    match frame[0] {
        GpuCommand::BuildAccelerationStructure { desc } => {
            assert_eq!(desc.dest, scene.tlas.get_gpu_virtual_address());
            assert_eq!(desc.source, scene.tlas.get_gpu_virtual_address());
            assert_eq!(desc.inputs.kind, StructureKind::TopLevel);
            assert_eq!(desc.inputs.flags, BuildFlags::PerformUpdate);
        }
        other => panic!("expected the refit, found {:?}", other),
    }
    assert_eq!(
        frame[1],
        GpuCommand::UavBarrier { resource: scene.tlas.get_gpu_virtual_address() }
    );
    // Pipeline, structure and output bindings, in order.
    assert_eq!(frame[2], GpuCommand::SetPipelineState);
    assert_eq!(frame[3], GpuCommand::SetComputeRootSignature);
    assert_eq!(
        frame[4],
        GpuCommand::SetComputeRootShaderResourceView {
            parameter: 1,
            address: scene.tlas.get_gpu_virtual_address(),
        }
    );
    assert_eq!(frame[5], GpuCommand::SetDescriptorHeaps);
    assert_eq!(
        frame[6],
        GpuCommand::SetComputeRootDescriptorTable { parameter: 0 }
    );
    // The dispatch is sized to the current target.
    match frame[7] {
        GpuCommand::DispatchRays { rays } => {
            assert_eq!(rays.width, 800);
            assert_eq!(rays.height, 600);
            assert_eq!(rays.depth, 1);
        }
        other => panic!("expected the dispatch, found {:?}", other),
    }
    // The present sequence closes the frame: five commands, copy in the
    // middle, and the swap flipped.
    assert_eq!(frame.len(), 13);
    match frame[10] {
        GpuCommand::CopyResource { source, .. } => {
            assert_eq!(source, surface.target.get_gpu_virtual_address());
        }
        other => panic!("expected the copy, found {:?}", other),
    }
    assert_eq!(surface.swap_chain.current_index, 1);
    // One wait inside present, one closing the frame.
    assert_eq!(interface.fence_completed, fence_before + 2);
    // The frame's transforms reached the instance array.
    let instances = scene.instances.contents.as_ref().unwrap();
    assert_eq!(instances[0].transform, transforms(2).cube);
}
