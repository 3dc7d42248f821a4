use ray_engine::commands::GpuCommand;
use ray_engine::device_interface::DeviceInterface;
use ray_engine::resource::ResourceState;
use ray_engine::surface::{ClientRect, Surface};
use ray_engine::window_handle::{RawHandleKind, UnsupportedPlatformError, WindowHandle};

fn rect(width: i32, height: i32) -> ClientRect {
    ClientRect {
        left: 0,
        top: 0,
        right: width,
        bottom: height,
    }
}

fn window() -> WindowHandle {
    WindowHandle::try_from(RawHandleKind::Win32 { hwnd: 42 }).unwrap()
}

#[test]
fn window_handle_accepts_native_and_rejects_other_platforms() {
    let handle = WindowHandle::try_from(RawHandleKind::Win32 { hwnd: 7 }).unwrap();
    assert_eq!(handle.hwnd, 7);
    assert_eq!(
        WindowHandle::try_from(RawHandleKind::Other),
        Err(UnsupportedPlatformError)
    );
    assert_eq!(
        UnsupportedPlatformError.message(),
        "Tried to get a Win32 handle on a non-Windows platform"
    );
}

#[test]
fn surface_target_is_sized_to_the_client_area() {
    let mut interface = DeviceInterface::create();
    let surface = Surface::from_handle(&mut interface, window(), rect(800, 600)).unwrap();
    assert_eq!(surface.target.desc.width, 800);
    assert_eq!(surface.target.desc.height, 600);
    assert_eq!(surface.target.state, ResourceState::UnorderedAccess);
    assert_eq!(interface.resource_factory.live_resources(), 3);
}

#[test]
fn empty_client_area_clamps_to_one_by_one() {
    let mut interface = DeviceInterface::create();
    let surface = Surface::from_handle(&mut interface, window(), rect(0, 0)).unwrap();
    assert_eq!(surface.target.desc.width, 1);
    assert_eq!(surface.target.desc.height, 1);
}

#[test]
fn resize_twice_with_same_client_area_is_idempotent_and_leak_free() {
    let mut interface = DeviceInterface::create();
    let mut surface = Surface::from_handle(&mut interface, window(), rect(800, 600)).unwrap();
    let live_before = interface.resource_factory.live_resources();

    surface.resize(&mut interface, rect(1024, 768)).unwrap();
    let first_width = surface.target.desc.width;
    let first_height = surface.target.desc.height;
    let live_first = interface.resource_factory.live_resources();

    surface.resize(&mut interface, rect(1024, 768)).unwrap();
    assert_eq!(surface.target.desc.width, first_width);
    assert_eq!(surface.target.desc.height, first_height);
    assert_eq!(surface.target.desc.width, 1024);
    assert_eq!(surface.target.desc.height, 768);

    // The previous target was retired each time: nothing leaked.
    assert_eq!(live_before, live_first);
    assert_eq!(live_before, interface.resource_factory.live_resources());
}

#[test]
fn resize_waits_for_the_gpu_before_retiring_the_old_target() {
    let mut interface = DeviceInterface::create();
    let mut surface = Surface::from_handle(&mut interface, window(), rect(10, 10)).unwrap();
    let fence_before = interface.fence_completed;
    surface.resize(&mut interface, rect(20, 20)).unwrap();
    assert_eq!(interface.fence_completed, fence_before + 1);
}

#[test]
fn failed_surface_creation_releases_everything_it_allocated() {
    let mut interface = DeviceInterface::create();
    // Exhaust the address space so an allocation along the path fails.
    interface.resource_factory.next_address = u64::MAX - 64;
    let live_before = interface.resource_factory.live_resources();
    let r = Surface::from_handle(&mut interface, window(), rect(800, 600));
    assert!(r.is_err());
    assert_eq!(interface.resource_factory.live_resources(), live_before);
}

#[test]
fn present_records_the_exact_barrier_and_copy_sequence() {
    let mut interface = DeviceInterface::create();
    let mut surface = Surface::from_handle(&mut interface, window(), rect(640, 480)).unwrap();
    interface.reset_commands();
    let target = surface.target.get_gpu_virtual_address();
    let back = surface.swap_chain.back_buffer_0.get_gpu_virtual_address();
    let executed = surface.present(&mut interface);
    let expected = vec![
        GpuCommand::Transition {
            resource: target,
            before: ResourceState::UnorderedAccess,
            after: ResourceState::CopySource,
        },
        GpuCommand::Transition {
            resource: back,
            before: ResourceState::Present,
            after: ResourceState::CopyDest,
        },
        GpuCommand::CopyResource {
            dest: back,
            source: target,
        },
        GpuCommand::Transition {
            resource: back,
            before: ResourceState::CopyDest,
            after: ResourceState::Present,
        },
        GpuCommand::Transition {
            resource: target,
            before: ResourceState::CopySource,
            after: ResourceState::UnorderedAccess,
        },
    ];
    assert_eq!(executed, expected);
    // Steady state restored, and the swap flipped to the other buffer.
    assert_eq!(surface.target.state, ResourceState::UnorderedAccess);
    assert_eq!(
        surface.swap_chain.back_buffer_0.state,
        ResourceState::Present
    );
    assert_eq!(surface.swap_chain.current_index, 1);
}

#[test]
fn present_alternates_between_the_two_back_buffers() {
    let mut interface = DeviceInterface::create();
    let mut surface = Surface::from_handle(&mut interface, window(), rect(64, 64)).unwrap();
    assert_eq!(surface.swap_chain.current_index, 0);
    interface.reset_commands();
    surface.present(&mut interface);
    assert_eq!(surface.swap_chain.current_index, 1);
    interface.reset_commands();
    let second = surface.present(&mut interface);
    assert_eq!(surface.swap_chain.current_index, 0);
    // The second present copied into the other buffer.
    let back_1 = surface.swap_chain.back_buffer_1.get_gpu_virtual_address();
    match second[2] {
        GpuCommand::CopyResource { dest, .. } => assert_eq!(dest, back_1),
        other => panic!("expected the copy, found {:?}", other),
    }
}
