use ray_engine::resource::{AllocationError, CopyError, ResourceFactory};

#[test]
fn upload_buffer_len_matches_count() {
    let mut factory = ResourceFactory::new();
    let mut resource = factory
        .create_upload_resource::<u32>(None, None, 5, 0)
        .unwrap();
    assert_eq!(resource.len(), 5);
    let buffer = resource.get_buffer();
    assert_eq!(buffer.len(), 5);
    resource.release_buffer(buffer);
}

#[test]
fn whole_slice_copy_of_matching_length_succeeds() {
    let mut factory = ResourceFactory::new();
    let mut resource = factory
        .create_upload_resource::<u32>(None, None, 4, 0)
        .unwrap();
    let mut buffer = resource.get_buffer();
    assert_eq!(buffer.try_copy_from_slice(&[7, 8, 9, 10]), Ok(()));
    assert_eq!(buffer.read(0), 7);
    assert_eq!(buffer.read(3), 10);
    resource.release_buffer(buffer);
}

#[test]
fn whole_slice_copy_of_mismatched_length_fails() {
    let mut factory = ResourceFactory::new();
    let mut resource = factory
        .create_upload_resource::<u32>(None, None, 4, 42)
        .unwrap();
    let mut buffer = resource.get_buffer();
    assert_eq!(
        buffer.try_copy_from_slice(&[1, 2, 3]),
        Err(CopyError::LengthMismatch)
    );
    assert_eq!(
        buffer.try_copy_from_slice(&[1, 2, 3, 4, 5]),
        Err(CopyError::LengthMismatch)
    );
    // The rejected copies left the buffer untouched.
    for i in 0..4 {
        assert_eq!(buffer.read(i), 42);
    }
    resource.release_buffer(buffer);
}

#[test]
fn offset_copy_within_capacity_writes_exactly_the_window() {
    let mut factory = ResourceFactory::new();
    let mut resource = factory
        .create_upload_resource::<u8>(None, None, 8, 0)
        .unwrap();
    let mut buffer = resource.get_buffer();
    assert_eq!(buffer.try_copy_from_slice_at(&[9, 9, 9], 2), Ok(()));
    assert_eq!(buffer.read(1), 0);
    assert_eq!(buffer.read(2), 9);
    assert_eq!(buffer.read(4), 9);
    assert_eq!(buffer.read(5), 0);
    resource.release_buffer(buffer);
}

#[test]
fn offset_copy_past_capacity_is_rejected_not_truncated() {
    let mut factory = ResourceFactory::new();
    let mut resource = factory
        .create_upload_resource::<u8>(None, None, 4, 1)
        .unwrap();
    let mut buffer = resource.get_buffer();
    assert_eq!(
        buffer.try_copy_from_slice_at(&[5, 5, 5], 2),
        Err(CopyError::OutOfBounds)
    );
    // Nothing was written, not even the part that would have fit.
    for i in 0..4 {
        assert_eq!(buffer.read(i), 1);
    }
    resource.release_buffer(buffer);
}

#[test]
fn zero_sized_allocation_fails() {
    let mut factory = ResourceFactory::new();
    assert_eq!(
        factory.create_gpu_resource(None, None, 0).err(),
        Some(AllocationError)
    );
    assert!(factory.create_upload_resource::<u32>(None, None, 0, 0).is_err());
}

#[test]
fn allocations_get_fresh_nonzero_addresses() {
    let mut factory = ResourceFactory::new();
    let a = factory.create_gpu_resource(None, None, 64).unwrap();
    let b = factory.create_gpu_resource(None, None, 64).unwrap();
    assert_ne!(a.get_gpu_virtual_address(), 0);
    assert_ne!(b.get_gpu_virtual_address(), 0);
    assert!(b.get_gpu_virtual_address() >= a.get_gpu_virtual_address() + 64);
}

#[test]
fn from_slice_performs_an_immediate_whole_write() {
    let mut factory = ResourceFactory::new();
    let data: [u16; 6] = [4, 6, 0, 2, 0, 6];
    let mut resource = factory
        .create_upload_resource_from_slice(None, None, &data)
        .unwrap();
    assert_eq!(resource.len(), 6);
    let buffer = resource.get_buffer();
    for (i, v) in data.iter().enumerate() {
        assert_eq!(buffer.read(i), *v);
    }
    resource.release_buffer(buffer);
}

#[test]
fn live_resource_accounting_pairs_creates_with_retires() {
    let mut factory = ResourceFactory::new();
    assert_eq!(factory.live_resources(), 0);
    let a = factory.create_gpu_resource(None, None, 16).unwrap();
    let _b = factory.create_gpu_resource(None, None, 16).unwrap();
    assert_eq!(factory.live_resources(), 2);
    factory.retire(a);
    assert_eq!(factory.live_resources(), 1);
}
