use ray_engine::commands::{BuildFlags, GpuCommand, PrebuildInfo, StructureKind};
use ray_engine::device_interface::DeviceInterface;
use ray_engine::scene::{
    cube_index_data, cube_vertex_data, pack_id_and_mask, quad_vertex_data,
    transform_rows_from_columns, InstanceTransforms, Scene, NUM_INSTANCES,
};

fn prebuild(scratch: u64, result: u64, update: u64) -> PrebuildInfo {
    PrebuildInfo {
        scratch_size: scratch,
        result_max_size: result,
        update_scratch_size: update,
    }
}

fn patterned(seed: u32) -> [u32; 12] {
    let mut t = [0u32; 12];
    for (i, slot) in t.iter_mut().enumerate() {
        *slot = seed.wrapping_mul(31).wrapping_add(i as u32);
    }
    t
}

fn transforms(seed: u32) -> InstanceTransforms {
    InstanceTransforms {
        cube: patterned(seed),
        mirror: patterned(seed.wrapping_add(7)),
        floor: patterned(seed.wrapping_add(14)),
    }
}

fn built_scene(interface: &mut DeviceInterface, t: &InstanceTransforms) -> Scene {
    Scene::build(
        interface,
        prebuild(1024, 2048, 256),
        prebuild(4096, 8192, 512),
        prebuild(16384, 32768, 1024),
        t,
    )
    .unwrap()
}

#[test]
fn geometry_data_has_the_hardcoded_sizes() {
    assert_eq!(quad_vertex_data().len(), 18);
    assert_eq!(cube_vertex_data().len(), 24);
    assert_eq!(cube_index_data().len(), 36);
    // Spot-check the single-precision bit patterns of minus one and one.
    assert_eq!(quad_vertex_data()[0], (-1.0f32).to_bits());
    assert_eq!(quad_vertex_data()[1], 0.0f32.to_bits());
    assert_eq!(cube_vertex_data()[3], 1.0f32.to_bits());
    assert_eq!(cube_index_data()[0], 4);
    assert_eq!(cube_index_data()[35], 5);
}

#[test]
fn pack_combines_index_and_mask() {
    assert_eq!(pack_id_and_mask(0, 1), 1 << 24);
    assert_eq!(pack_id_and_mask(2, 1), 2 | (1 << 24));
    assert_eq!(pack_id_and_mask(5, 0xAB), 5 | (0xAB << 24));
}

#[test]
fn built_scene_has_three_instances_pointing_at_their_structures() {
    let mut interface = DeviceInterface::create();
    let scene = built_scene(&mut interface, &transforms(3));
    let instances = scene.instances.contents.as_ref().unwrap();
    assert_eq!(instances.len(), NUM_INSTANCES as usize);
    // Indices 0, 1, 2 map to cube, quad, quad.
    assert_eq!(
        instances[0].acceleration_structure,
        scene.cube_blas.get_gpu_virtual_address()
    );
    assert_eq!(
        instances[1].acceleration_structure,
        scene.quad_blas.get_gpu_virtual_address()
    );
    assert_eq!(
        instances[2].acceleration_structure,
        scene.quad_blas.get_gpu_virtual_address()
    );
    assert_ne!(
        scene.cube_blas.get_gpu_virtual_address(),
        scene.quad_blas.get_gpu_virtual_address()
    );
    for (i, instance) in instances.iter().enumerate() {
        assert_eq!(instance.id_and_mask, (i as u32) | (1 << 24));
        assert_eq!(instance.contribution_and_flags, 0);
    }
}

#[test]
fn built_scene_carries_the_given_transforms() {
    let mut interface = DeviceInterface::create();
    let t = transforms(9);
    let scene = built_scene(&mut interface, &t);
    let instances = scene.instances.contents.as_ref().unwrap();
    assert_eq!(instances[0].transform, t.cube);
    assert_eq!(instances[1].transform, t.mirror);
    assert_eq!(instances[2].transform, t.floor);
}

#[test]
fn refit_scratch_is_sized_from_the_update_requirement() {
    let mut interface = DeviceInterface::create();
    let scene = built_scene(&mut interface, &transforms(1));
    assert_eq!(scene.tlas.size, 32768);
    assert_eq!(scene.tlas_scratch.size, 1024);
}

#[test]
fn update_records_an_in_place_refit_and_a_barrier() {
    let mut interface = DeviceInterface::create();
    let mut scene = built_scene(&mut interface, &transforms(1));
    interface.reset_commands();
    scene.update(&mut interface, &transforms(2));
    let submitted = interface.close_and_execute();
    assert_eq!(submitted.len(), 2);
    match submitted[0] {
        GpuCommand::BuildAccelerationStructure { desc } => {
            assert_eq!(desc.dest, scene.tlas.get_gpu_virtual_address());
            assert_eq!(desc.source, scene.tlas.get_gpu_virtual_address());
            assert_eq!(
                desc.scratch,
                scene.tlas_scratch.get_gpu_virtual_address()
            );
            assert_eq!(desc.inputs.kind, StructureKind::TopLevel);
            assert_eq!(desc.inputs.flags, BuildFlags::PerformUpdate);
            assert_eq!(desc.inputs.num_descs, NUM_INSTANCES);
        }
        other => panic!("expected a build, found {:?}", other),
    }
    match submitted[1] {
        GpuCommand::UavBarrier { resource } => {
            assert_eq!(resource, scene.tlas.get_gpu_virtual_address());
        }
        other => panic!("expected a barrier, found {:?}", other),
    }
}

#[test]
fn refit_with_unchanged_transforms_leaves_the_instances_unchanged() {
    let mut interface = DeviceInterface::create();
    let t = transforms(5);
    let mut scene = built_scene(&mut interface, &t);
    let before = scene.instances.contents.clone().unwrap();
    interface.reset_commands();
    scene.update(&mut interface, &t);
    scene.update(&mut interface, &t);
    let after = scene.instances.contents.clone().unwrap();
    assert_eq!(before, after);
}

#[test]
fn transform_update_is_deterministic_in_its_inputs() {
    let t = transforms(11);
    let mut interface_a = DeviceInterface::create();
    let mut interface_b = DeviceInterface::create();
    let mut scene_a = built_scene(&mut interface_a, &transforms(1));
    let mut scene_b = built_scene(&mut interface_b, &transforms(1));
    interface_a.reset_commands();
    interface_b.reset_commands();
    scene_a.update(&mut interface_a, &t);
    scene_b.update(&mut interface_b, &t);
    assert_eq!(
        scene_a.instances.contents.clone().unwrap(),
        scene_b.instances.contents.clone().unwrap()
    );
}

#[test]
fn update_replaces_transforms_and_keeps_identity_fields() {
    let mut interface = DeviceInterface::create();
    let mut scene = built_scene(&mut interface, &transforms(1));
    let before = scene.instances.contents.clone().unwrap();
    let t = transforms(21);
    interface.reset_commands();
    scene.update(&mut interface, &t);
    let after = scene.instances.contents.clone().unwrap();
    assert_eq!(after[0].transform, t.cube);
    assert_eq!(after[1].transform, t.mirror);
    assert_eq!(after[2].transform, t.floor);
    for i in 0..3 {
        assert_eq!(after[i].id_and_mask, before[i].id_and_mask);
        assert_eq!(
            after[i].acceleration_structure,
            before[i].acceleration_structure
        );
    }
}

#[test]
fn scene_build_fails_on_a_zero_device_requirement() {
    let mut interface = DeviceInterface::create();
    let live_before = interface.resource_factory.live_resources();
    let r = Scene::build(
        &mut interface,
        prebuild(0, 2048, 256),
        prebuild(4096, 8192, 512),
        prebuild(16384, 32768, 1024),
        &transforms(1),
    );
    assert!(r.is_err());
    // The failed build released everything it had allocated.
    assert_eq!(interface.resource_factory.live_resources(), live_before);
}

#[test]
fn transform_rows_are_the_transposed_columns() {
    let mut m = [0u32; 16];
    for (i, slot) in m.iter_mut().enumerate() {
        *slot = (i as u32) * 100;
    }
    let rows = transform_rows_from_columns(&m);
    for row in 0..3 {
        for col in 0..4 {
            assert_eq!(rows[row * 4 + col], m[col * 4 + row]);
        }
    }
}

#[test]
fn transform_rows_match_the_native_matrix_transpose() {
    // The instance transform is the top three rows of the transposed
    // column-major matrix; check the layout against nalgebra itself.
    let entries: [f32; 16] = [
        1.0, 2.0, 3.0, 4.0, 5.0, 6.0, 7.0, 8.0, 9.0, 10.5, 11.25, 12.0, -1.5, 2.0, 2.0, 1.0,
    ];
    let matrix = nalgebra::Matrix4::<f32>::from_column_slice(&entries);
    let transposed = matrix.transpose();
    let expected: Vec<u32> = transposed.as_slice()[..12]
        .iter()
        .map(|v| v.to_bits())
        .collect();
    let mut bits = [0u32; 16];
    for (i, slot) in bits.iter_mut().enumerate() {
        *slot = entries[i].to_bits();
    }
    let rows = transform_rows_from_columns(&bits);
    assert_eq!(rows.to_vec(), expected);
}
