use interop_frame::memory::{
    find_memory_type, graphics_queue_family, needs_flush, shared_image_memory_type,
    staging_memory_type, QueueFamily, StagingMemory, MEMORY_DEVICE_LOCAL, MEMORY_HOST_CACHED,
    MEMORY_HOST_COHERENT, MEMORY_HOST_VISIBLE,
};

fn table() -> Vec<u32> {
    vec![
        MEMORY_HOST_VISIBLE | MEMORY_HOST_COHERENT,
        MEMORY_DEVICE_LOCAL,
        MEMORY_HOST_VISIBLE | MEMORY_HOST_CACHED,
        MEMORY_DEVICE_LOCAL | MEMORY_HOST_VISIBLE,
    ]
}

#[test]
fn first_admitted_type_with_property() {
    assert_eq!(find_memory_type(&table(), 0b1111, MEMORY_DEVICE_LOCAL), Some(1));
    assert_eq!(find_memory_type(&table(), 0b1101, MEMORY_DEVICE_LOCAL), Some(3));
    assert_eq!(find_memory_type(&table(), 0b0101, MEMORY_DEVICE_LOCAL), None);
    assert_eq!(find_memory_type(&Vec::new(), 0xffff_ffff, MEMORY_DEVICE_LOCAL), None);
}

#[test]
fn shared_image_type_needs_both_masks_and_device_local() {
    // handle admits 1 and 3, image admits 2 and 3: only 3 is in both
    assert_eq!(shared_image_memory_type(&table(), 0b1010, 0b1100), Some(3));
    // both admit 1
    assert_eq!(shared_image_memory_type(&table(), 0b1010, 0b1110), Some(1));
    // the common index 0 is not device-local
    assert_eq!(shared_image_memory_type(&table(), 0b0001, 0b0011), None);
    // no common index
    assert_eq!(shared_image_memory_type(&table(), 0b0010, 0b1000), None);
}

#[test]
fn staging_type_and_flush_flag() {
    assert_eq!(
        staging_memory_type(&table(), 0b1111),
        Some(StagingMemory { index: 0, needs_flush: false })
    );
    assert_eq!(
        staging_memory_type(&table(), 0b0100),
        Some(StagingMemory { index: 2, needs_flush: true })
    );
    assert_eq!(staging_memory_type(&table(), 0b0010), None);
}

#[test]
fn flush_only_for_cached_non_coherent() {
    assert!(needs_flush(MEMORY_HOST_VISIBLE | MEMORY_HOST_CACHED));
    assert!(!needs_flush(MEMORY_HOST_VISIBLE | MEMORY_HOST_CACHED | MEMORY_HOST_COHERENT));
    assert!(!needs_flush(MEMORY_HOST_VISIBLE | MEMORY_HOST_COHERENT));
    assert!(!needs_flush(MEMORY_HOST_VISIBLE));
}

#[test]
fn lowest_graphics_family_with_queues() {
    let families = vec![
        QueueFamily { queue_count: 0, queue_flags: 0x1 },
        QueueFamily { queue_count: 2, queue_flags: 0x2 },
        QueueFamily { queue_count: 1, queue_flags: 0x3 },
        QueueFamily { queue_count: 4, queue_flags: 0x1 },
    ];
    assert_eq!(graphics_queue_family(&families), Some(2));
    assert_eq!(graphics_queue_family(&families[..2].to_vec()), None);
    assert_eq!(graphics_queue_family(&Vec::new()), None);
}
