use ray_engine::device_interface::DeviceInterface;
use ray_engine::pipeline::{
    create_root_signature, Pipeline, RootParameter, ShaderIdentifiers, NUM_SHADER_IDS,
    SHADER_IDENTIFIER_SIZE, SHADER_TABLE_ALIGNMENT,
};
use ray_engine::resource::{ResourceDesc, ResourceDimension, ResourceFlags};

fn identifier(seed: u8) -> Vec<u8> {
    let mut id = Vec::new();
    for i in 0..SHADER_IDENTIFIER_SIZE {
        id.push(seed.wrapping_add(i as u8));
    }
    id
}

fn identifiers() -> ShaderIdentifiers {
    ShaderIdentifiers {
        ray_generation: identifier(1),
        miss: identifier(101),
        hit_group: identifier(201),
    }
}

fn target_desc(width: u64, height: u32) -> ResourceDesc {
    ResourceDesc {
        dimension: ResourceDimension::Texture2d,
        width,
        height,
        flags: ResourceFlags::AllowUnorderedAccess,
    }
}

#[test]
fn shader_table_round_trip_returns_each_identifier() {
    let mut interface = DeviceInterface::create();
    let ids = identifiers();
    let mut pipeline = Pipeline::create(&mut interface, &ids).unwrap();
    assert_eq!(pipeline.read_identifier(0), ids.ray_generation);
    assert_eq!(pipeline.read_identifier(1), ids.miss);
    assert_eq!(pipeline.read_identifier(2), ids.hit_group);
}

#[test]
fn shader_table_pads_each_slot_with_zeros() {
    let mut interface = DeviceInterface::create();
    let ids = identifiers();
    let pipeline = Pipeline::create(&mut interface, &ids).unwrap();
    let table = pipeline.shader_ids.contents.as_ref().unwrap();
    assert_eq!(table.len(), NUM_SHADER_IDS * SHADER_TABLE_ALIGNMENT);
    for slot in 0..NUM_SHADER_IDS {
        for j in SHADER_IDENTIFIER_SIZE..SHADER_TABLE_ALIGNMENT {
            assert_eq!(table[slot * SHADER_TABLE_ALIGNMENT + j], 0);
        }
    }
}

#[test]
fn rays_description_for_800_by_600_target() {
    let mut interface = DeviceInterface::create();
    let pipeline = Pipeline::create(&mut interface, &identifiers()).unwrap();
    let desc = pipeline.create_rays_description(&target_desc(800, 600));
    assert_eq!(desc.width, 800);
    assert_eq!(desc.height, 600);
    assert_eq!(desc.depth, 1);
    let base = pipeline.shader_ids.get_gpu_virtual_address();
    assert_eq!(desc.ray_generation_shader_record.start, base);
    assert_eq!(
        desc.miss_shader_table.start,
        base + SHADER_TABLE_ALIGNMENT as u64
    );
    assert_eq!(
        desc.hit_group_table.start,
        base + 2 * SHADER_TABLE_ALIGNMENT as u64
    );
    // The three table ranges strictly increase by the fixed slot stride.
    assert!(desc.miss_shader_table.start == desc.ray_generation_shader_record.start + 64);
    assert!(desc.hit_group_table.start == desc.miss_shader_table.start + 64);
    assert_eq!(
        desc.ray_generation_shader_record.size,
        SHADER_IDENTIFIER_SIZE as u64
    );
    assert_eq!(desc.miss_shader_table.size, SHADER_IDENTIFIER_SIZE as u64);
    assert_eq!(desc.hit_group_table.size, SHADER_IDENTIFIER_SIZE as u64);
}

#[test]
fn root_signature_has_uav_table_then_srv() {
    let signature = create_root_signature();
    assert_eq!(signature.parameters.len(), 2);
    assert_eq!(
        signature.parameters[0],
        RootParameter::UavDescriptorTable { num_descriptors: 1 }
    );
    assert_eq!(
        signature.parameters[1],
        RootParameter::ShaderResourceView {
            shader_register: 0,
            register_space: 0,
        }
    );
}

#[test]
fn pipeline_config_matches_the_shader_contract() {
    let mut interface = DeviceInterface::create();
    let pipeline = Pipeline::create(&mut interface, &identifiers()).unwrap();
    assert_eq!(pipeline.config.max_payload_size, 20);
    assert_eq!(pipeline.config.max_attribute_size, 8);
    assert_eq!(pipeline.config.max_trace_recursion_depth, 10);
}
